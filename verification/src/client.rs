//! Request-side types: the account region, the endpoint selector and the
//! client that builds request URLs. The network call itself lives outside
//! the library; the URL it fetches is built and specified here.

use vstd::prelude::*;
use vstd::string::StringExecFns;
use crate::season::EpisodeAndAct;

verus! {

/// The shard an account lives on.
#[derive(Debug, Clone, Copy, PartialEq, Eq, Structural)]
pub enum AccountRegion {
    EU,
    NA,
    KR,
    AS,
}

/// The lowercase region code used in request paths.
pub open spec fn region_text(region: AccountRegion) -> Seq<char> {
    match region {
        AccountRegion::EU => "eu"@,
        AccountRegion::NA => "na"@,
        AccountRegion::KR => "kr"@,
        AccountRegion::AS => "as"@,
    }
}

impl AccountRegion {
    /// The lowercase region code used in request paths.
    pub fn to_value(&self) -> (r: String)
        ensures
            r@ == region_text(*self),
    {
        match self {
            AccountRegion::EU => String::from_str("eu"),
            AccountRegion::NA => String::from_str("na"),
            AccountRegion::KR => String::from_str("kr"),
            AccountRegion::AS => String::from_str("as"),
        }
    }
}

/// One endpoint of the statistics API: matchmaking-rank data for an
/// account on a region, or the account profile.
pub enum ValorantApiType<'a> {
    MMRData { region: AccountRegion, name: &'a str, tag: &'a str, filter: Option<EpisodeAndAct> },
    AccountData { name: &'a str, tag: &'a str },
}

/// The resource path of an endpoint, relative to the API base.
pub open spec fn url_text(t: ValorantApiType) -> Seq<char> {
    match t {
        ValorantApiType::MMRData { region, name, tag, filter } => "v2/mmr/"@ + region_text(region)
            + "/"@ + name@ + "/"@ + tag@,
        ValorantApiType::AccountData { name, tag } => "v1/account/"@ + name@ + "/"@ + tag@,
    }
}

impl<'a> ValorantApiType<'a> {
    /// Build the resource path for this endpoint.
    pub fn to_url(&self) -> (r: String)
        ensures
            r@ == url_text(*self),
    {
        match self {
            ValorantApiType::MMRData { region, name, tag, filter } => {
                let mut out = String::from_str("v2/mmr/");
                let region_code = region.to_value();
                out.append(region_code.as_str());
                out.append("/");
                out.append(name);
                out.append("/");
                out.append(tag);
                proof {
                    assert(out@ =~= url_text(*self));
                }
                out
            },
            ValorantApiType::AccountData { name, tag } => {
                let mut out = String::from_str("v1/account/");
                out.append(name);
                out.append("/");
                out.append(tag);
                proof {
                    assert(out@ =~= url_text(*self));
                }
                out
            },
        }
    }
}

/// The default API base every new client points at.
pub open spec fn default_endpoint_text() -> Seq<char> {
    "https://api.henrikdev.xyz/valorant"@
}

/// A client for the statistics API: it remembers the API base and builds
/// the full URL of each request.
pub struct ValorantClient<'a> {
    api_end_point: &'a str,
}

impl<'a> ValorantClient<'a> {
    /// The API base this client points at.
    pub closed spec fn spec_endpoint(&self) -> Seq<char> {
        self.api_end_point@
    }

    /// A client pointing at the default API base.
    pub fn new() -> (r: Self)
        ensures
            r.spec_endpoint() == default_endpoint_text(),
    {
        ValorantClient { api_end_point: "https://api.henrikdev.xyz/valorant" }
    }

    /// Point the client at another API base.
    pub fn change_api_endpoint(self, endpoint: &'a str) -> (r: Self)
        ensures
            r.spec_endpoint() == endpoint@,
    {
        ValorantClient { api_end_point: endpoint }
    }

    /// The full URL a request for `api_type` fetches: the API base, a
    /// slash, and the endpoint's resource path.
    pub fn request_url(&self, api_type: &ValorantApiType<'_>) -> (r: String)
        ensures
            r@ == self.spec_endpoint() + "/"@ + url_text(*api_type),
    {
        let mut out = String::from_str(self.api_end_point);
        out.append("/");
        let path = api_type.to_url();
        out.append(path.as_str());
        out
    }
}

impl Default for ValorantClient<'_> {
    /// A client pointing at the default API base.
    fn default() -> (r: Self)
        ensures
            r.spec_endpoint() == default_endpoint_text(),
    {
        ValorantClient::new()
    }
}

} // verus!
