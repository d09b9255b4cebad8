//! The account-profile payload: identity, level, profile banner and the
//! region the account lives on.

use vstd::prelude::*;
use vstd::string::StrSliceExecFns;
use vstd::string::StringExecFns;
use crate::client::AccountRegion;
use crate::client::region_text;
use crate::envelope::ApiResponse;
use crate::envelope::DecodeError;
use crate::envelope::ValorantAPIData;
use crate::envelope::decode_errors;
use crate::envelope::decode_status;
use crate::envelope::encode_api_errors;
use crate::envelope::envelope_from_parts;
use crate::envelope::errors_field_of;
use crate::envelope::errors_field_wf;
use crate::envelope::spec_status_of;
use crate::json::get_str_field;
use crate::json::get_u32_field;
use crate::json::json_array_value;
use crate::json::json_doc_of;
use crate::json::json_field_of;
use crate::json::json_from_str;
use crate::json::json_get;
use crate::json::json_object_from_pairs;
use crate::json::json_string_value;
use crate::json::json_text_of;
use crate::json::json_to_text;
use crate::json::json_u64_value;
use crate::json::lemma_texts_differ_at;
use crate::json::lemma_texts_differ_in_len;
use crate::json::spec_str_field;
use crate::json::spec_u32_field;

verus! {

/// The account's profile banner art.
#[derive(Debug)]
pub struct ProfileBanner {
    pub small: String,
    pub large: String,
    pub wide: String,
    pub id: String,
}

/// The account-profile payload of one account.
#[derive(Debug)]
pub struct AccountData {
    pub puuid: String,
    pub region: AccountRegion,
    pub account_level: u32,
    pub name: String,
    pub tag: String,
    pub card: ProfileBanner,
    pub last_update: String,
    pub last_update_raw: u32,
}

impl ValorantAPIData for AccountData {

}

/// Parse a lowercase region code back to the region it names.
///
/// Succeeds exactly on the four codes the API uses, and returns the
/// region whose code the input is.
pub fn region_from_text(s: &str) -> (r: Option<AccountRegion>)
    ensures
        r is Some <==> (s@ == "eu"@ || s@ == "na"@ || s@ == "kr"@ || s@ == "as"@),
        r matches Some(region) ==> region_text(region) == s@,
{
    proof {
        reveal_strlit("eu");
        reveal_strlit("na");
        reveal_strlit("kr");
        reveal_strlit("as");
    }
    if s.unicode_len() != 2 {
        return None;
    }
    let c0 = s.get_char(0);
    let c1 = s.get_char(1);
    if c0 == 'e' && c1 == 'u' {
        proof {
            assert(s@ =~= "eu"@);
        }
        Some(AccountRegion::EU)
    } else if c0 == 'n' && c1 == 'a' {
        proof {
            assert(s@ =~= "na"@);
        }
        Some(AccountRegion::NA)
    } else if c0 == 'k' && c1 == 'r' {
        proof {
            assert(s@ =~= "kr"@);
        }
        Some(AccountRegion::KR)
    } else if c0 == 'a' && c1 == 's' {
        proof {
            assert(s@ =~= "as"@);
        }
        Some(AccountRegion::AS)
    } else {
        proof {
            assert(s@ != "eu"@ && s@ != "na"@ && s@ != "kr"@ && s@ != "as"@);
        }
        None
    }
}

/// A JSON object holds a well-formed profile banner: all four fields
/// present as strings.
pub open spec fn banner_wf(v: serde_json::Value) -> bool {
    &&& spec_str_field(v, "small"@) is Some
    &&& spec_str_field(v, "large"@) is Some
    &&& spec_str_field(v, "wide"@) is Some
    &&& spec_str_field(v, "id"@) is Some
}

/// `b` is the profile banner read from the JSON object `v`.
pub open spec fn banner_of(v: serde_json::Value, b: ProfileBanner) -> bool {
    &&& spec_str_field(v, "small"@) == Some(b.small@)
    &&& spec_str_field(v, "large"@) == Some(b.large@)
    &&& spec_str_field(v, "wide"@) == Some(b.wide@)
    &&& spec_str_field(v, "id"@) == Some(b.id@)
}

/// A JSON object holds a well-formed account-profile payload; its
/// `region` field must be one of the four region codes.
pub open spec fn account_data_wf(v: serde_json::Value) -> bool {
    &&& spec_str_field(v, "puuid"@) is Some
    &&& spec_str_field(v, "region"@) matches Some(code) && (code == "eu"@ || code == "na"@ || code
        == "kr"@ || code == "as"@)
    &&& spec_u32_field(v, "account_level"@) is Some
    &&& spec_str_field(v, "name"@) is Some
    &&& spec_str_field(v, "tag"@) is Some
    &&& json_field_of(v, "card"@) matches Some(f) && banner_wf(f)
    &&& spec_str_field(v, "last_update"@) is Some
    &&& spec_u32_field(v, "last_update_raw"@) is Some
}

/// `a` is the account-profile payload read from the JSON object `v`; its
/// region is the one whose code the `region` field holds.
pub open spec fn account_data_of(v: serde_json::Value, a: AccountData) -> bool {
    &&& spec_str_field(v, "puuid"@) == Some(a.puuid@)
    &&& spec_str_field(v, "region"@) == Some(region_text(a.region))
    &&& spec_u32_field(v, "account_level"@) == Some(a.account_level)
    &&& spec_str_field(v, "name"@) == Some(a.name@)
    &&& spec_str_field(v, "tag"@) == Some(a.tag@)
    &&& json_field_of(v, "card"@) matches Some(f) && banner_of(f, a.card)
    &&& spec_str_field(v, "last_update"@) == Some(a.last_update@)
    &&& spec_u32_field(v, "last_update_raw"@) == Some(a.last_update_raw)
}

/// A response document holds a well-formed account-profile `data` field.
pub open spec fn account_payload_wf(doc: serde_json::Value) -> bool {
    json_field_of(doc, "data"@) matches Some(f) && account_data_wf(f)
}

/// `a` is the account-profile payload read from the `data` field of
/// `doc`.
pub open spec fn account_payload_of(doc: serde_json::Value, a: AccountData) -> bool {
    json_field_of(doc, "data"@) matches Some(f) && account_data_of(f, a)
}

/// The profile banner read from a JSON object.
fn decode_profile_banner(v: &serde_json::Value) -> (r: Option<ProfileBanner>)
    ensures
        r is Some <==> banner_wf(*v),
        r matches Some(b) ==> banner_of(*v, b),
{
    let small = match get_str_field(v, "small") {
        Some(s) => s,
        None => {
            return None;
        },
    };
    let large = match get_str_field(v, "large") {
        Some(s) => s,
        None => {
            return None;
        },
    };
    let wide = match get_str_field(v, "wide") {
        Some(s) => s,
        None => {
            return None;
        },
    };
    let id = match get_str_field(v, "id") {
        Some(s) => s,
        None => {
            return None;
        },
    };
    Some(ProfileBanner { small, large, wide, id })
}

/// The full account-profile payload read from a JSON object. The
/// `region` field goes through [`region_from_text`]: an unknown code
/// makes the whole payload ill-formed.
pub(crate) fn decode_account_data(v: &serde_json::Value) -> (r: Option<AccountData>)
    ensures
        r is Some <==> account_data_wf(*v),
        r matches Some(a) ==> account_data_of(*v, a),
{
    let puuid = match get_str_field(v, "puuid") {
        Some(s) => s,
        None => {
            return None;
        },
    };
    let region_code = match get_str_field(v, "region") {
        Some(s) => s,
        None => {
            return None;
        },
    };
    let region = match region_from_text(region_code.as_str()) {
        Some(region) => region,
        None => {
            return None;
        },
    };
    let account_level = match get_u32_field(v, "account_level") {
        Some(n) => n,
        None => {
            return None;
        },
    };
    let name = match get_str_field(v, "name") {
        Some(s) => s,
        None => {
            return None;
        },
    };
    let tag = match get_str_field(v, "tag") {
        Some(s) => s,
        None => {
            return None;
        },
    };
    let card = match json_get(v, "card") {
        Some(f) => match decode_profile_banner(f) {
            Some(c) => c,
            None => {
                return None;
            },
        },
        None => {
            return None;
        },
    };
    let last_update = match get_str_field(v, "last_update") {
        Some(s) => s,
        None => {
            return None;
        },
    };
    let last_update_raw = match get_u32_field(v, "last_update_raw") {
        Some(n) => n,
        None => {
            return None;
        },
    };
    Some(
        AccountData {
            puuid,
            region,
            account_level,
            name,
            tag,
            card,
            last_update,
            last_update_raw,
        },
    )
}

/// Decode a response body into an account-profile envelope.
///
/// The body must be well-formed JSON with a numeric `status`; the
/// envelope variant is then selected from whether the body held a
/// well-formed `data` payload or a well-formed `errors` list: a payload
/// without errors is a success carrying the payload, a present error
/// list is a failure carrying it verbatim, and a body with neither is a
/// malformed envelope. The contract states this selection rule over the
/// body itself.
pub fn decode_account_response(body: &str) -> (r: Result<ApiResponse<AccountData>, DecodeError>)
    ensures
        json_doc_of(body@) is None ==> r == Err::<ApiResponse<AccountData>, DecodeError>(
            DecodeError::MalformedEnvelope,
        ),
        json_doc_of(body@) matches Some(doc) ==> {
            &&& spec_status_of(doc) is None ==> r == Err::<ApiResponse<AccountData>, DecodeError>(
                DecodeError::MalformedEnvelope,
            )
            &&& spec_status_of(doc) matches Some(status) ==> {
                &&& (account_payload_wf(doc) && !errors_field_wf(doc)) <==> (r matches Ok(env)
                    && env is Success)
                &&& errors_field_wf(doc) <==> (r matches Ok(env) && env is Failure)
                &&& (!account_payload_wf(doc) && !errors_field_wf(doc)) <==> r == Err::<
                    ApiResponse<AccountData>,
                    DecodeError,
                >(DecodeError::MalformedEnvelope)
                &&& r matches Ok(ApiResponse::Success { status: st, data: d }) ==> st == status
                    && account_payload_of(doc, d)
                &&& r matches Ok(ApiResponse::Failure { status: st, errors: es }) ==> st == status
                    && errors_field_of(doc, es@)
            }
        },
{
    let v = match json_from_str(body) {
        Some(v) => v,
        None => {
            return Err(DecodeError::MalformedEnvelope);
        },
    };
    let status = match decode_status(&v) {
        Some(s) => s,
        None => {
            return Err(DecodeError::MalformedEnvelope);
        },
    };
    let data = match json_get(&v, "data") {
        Some(f) => decode_account_data(f),
        None => None,
    };
    let errors = decode_errors(&v);
    envelope_from_parts(status, data, errors)
}


/// Render the profile banner as a JSON object: the mirror of
/// [`decode_profile_banner`].
fn encode_profile_banner(b: &ProfileBanner) -> (v: serde_json::Value)
    ensures
        banner_wf(v),
        banner_of(v, *b),
{
    proof {
        reveal_strlit("small");
        reveal_strlit("large");
        reveal_strlit("wide");
        reveal_strlit("id");
        lemma_texts_differ_at("small"@, "large"@, 0);
        lemma_texts_differ_at("small"@, "wide"@, 0);
        lemma_texts_differ_at("small"@, "id"@, 0);
        lemma_texts_differ_at("large"@, "wide"@, 0);
        lemma_texts_differ_at("large"@, "id"@, 0);
        lemma_texts_differ_at("wide"@, "id"@, 0);
    }
    let mut pairs: Vec<(String, serde_json::Value)> = Vec::new();
    pairs.push((String::from_str("small"), json_string_value(b.small.clone())));
    pairs.push((String::from_str("large"), json_string_value(b.large.clone())));
    pairs.push((String::from_str("wide"), json_string_value(b.wide.clone())));
    pairs.push((String::from_str("id"), json_string_value(b.id.clone())));
    proof {
        assert(pairs@[0].0@ == "small"@);
        assert(pairs@[1].0@ == "large"@);
        assert(pairs@[2].0@ == "wide"@);
        assert(pairs@[3].0@ == "id"@);
    }
    json_object_from_pairs(pairs)
}

/// Render the full account-profile payload as a JSON object, its region
/// as the lowercase code: the mirror of [`decode_account_data`].
pub(crate) fn encode_account_data(a: &AccountData) -> (v: serde_json::Value)
    ensures
        account_data_wf(v),
        account_data_of(v, *a),
{
    proof {
        reveal_strlit("puuid");
        reveal_strlit("region");
        reveal_strlit("account_level");
        reveal_strlit("name");
        reveal_strlit("tag");
        reveal_strlit("card");
        reveal_strlit("last_update");
        reveal_strlit("last_update_raw");
        lemma_texts_differ_at("puuid"@, "region"@, 0);
        lemma_texts_differ_at("puuid"@, "account_level"@, 0);
        lemma_texts_differ_at("puuid"@, "name"@, 0);
        lemma_texts_differ_at("puuid"@, "tag"@, 0);
        lemma_texts_differ_at("puuid"@, "card"@, 0);
        lemma_texts_differ_at("puuid"@, "last_update"@, 0);
        lemma_texts_differ_at("puuid"@, "last_update_raw"@, 0);
        lemma_texts_differ_at("region"@, "account_level"@, 0);
        lemma_texts_differ_at("region"@, "name"@, 0);
        lemma_texts_differ_at("region"@, "tag"@, 0);
        lemma_texts_differ_at("region"@, "card"@, 0);
        lemma_texts_differ_at("region"@, "last_update"@, 0);
        lemma_texts_differ_at("region"@, "last_update_raw"@, 0);
        lemma_texts_differ_at("account_level"@, "name"@, 0);
        lemma_texts_differ_at("account_level"@, "tag"@, 0);
        lemma_texts_differ_at("account_level"@, "card"@, 0);
        lemma_texts_differ_at("account_level"@, "last_update"@, 0);
        lemma_texts_differ_at("account_level"@, "last_update_raw"@, 0);
        lemma_texts_differ_at("name"@, "tag"@, 0);
        lemma_texts_differ_at("name"@, "card"@, 0);
        lemma_texts_differ_at("name"@, "last_update"@, 0);
        lemma_texts_differ_at("name"@, "last_update_raw"@, 0);
        lemma_texts_differ_at("tag"@, "card"@, 0);
        lemma_texts_differ_at("tag"@, "last_update"@, 0);
        lemma_texts_differ_at("tag"@, "last_update_raw"@, 0);
        lemma_texts_differ_at("card"@, "last_update"@, 0);
        lemma_texts_differ_at("card"@, "last_update_raw"@, 0);
        lemma_texts_differ_in_len("last_update"@, "last_update_raw"@);
    }
    let card = encode_profile_banner(&a.card);
    let region_code = a.region.to_value();
    let mut pairs: Vec<(String, serde_json::Value)> = Vec::new();
    pairs.push((String::from_str("puuid"), json_string_value(a.puuid.clone())));
    pairs.push((String::from_str("region"), json_string_value(region_code)));
    pairs.push((String::from_str("account_level"), json_u64_value(a.account_level as u64)));
    pairs.push((String::from_str("name"), json_string_value(a.name.clone())));
    pairs.push((String::from_str("tag"), json_string_value(a.tag.clone())));
    pairs.push((String::from_str("card"), card));
    pairs.push((String::from_str("last_update"), json_string_value(a.last_update.clone())));
    pairs.push((String::from_str("last_update_raw"), json_u64_value(a.last_update_raw as u64)));
    proof {
        assert(pairs@[0].0@ == "puuid"@);
        assert(pairs@[1].0@ == "region"@);
        assert(pairs@[2].0@ == "account_level"@);
        assert(pairs@[3].0@ == "name"@);
        assert(pairs@[4].0@ == "tag"@);
        assert(pairs@[5].0@ == "card"@);
        assert(pairs@[6].0@ == "last_update"@);
        assert(pairs@[7].0@ == "last_update_raw"@);
    }
    json_object_from_pairs(pairs)
}

/// Render an account-profile envelope back to a JSON response body: the
/// mirror of [`decode_account_response`]. Only the fields of the
/// populated variant are emitted: `status` and `data` for a success,
/// `status` and `errors` for a failure. The contract pins the document
/// the text renders; that the text parses back to that document is
/// checked by the crate's tests, not assumed.
pub fn encode_account_response(env: &ApiResponse<AccountData>) -> (r: String)
    ensures
        env matches ApiResponse::Success { status, data } ==> (exists|doc: serde_json::Value|
            {
                &&& r@ == #[trigger] json_text_of(doc)
                &&& spec_status_of(doc) == Some(*status)
                &&& account_payload_wf(doc)
                &&& account_payload_of(doc, *data)
                &&& !errors_field_wf(doc)
            }),
        env matches ApiResponse::Failure { status, errors } ==> (exists|doc: serde_json::Value|
            {
                &&& r@ == #[trigger] json_text_of(doc)
                &&& spec_status_of(doc) == Some(*status)
                &&& errors_field_wf(doc)
                &&& errors_field_of(doc, errors@)
                &&& !account_payload_wf(doc)
            }),
{
    match env {
        ApiResponse::Success { status, data } => {
            proof {
            reveal_strlit("status");
            reveal_strlit("data");
            reveal_strlit("errors");
            lemma_texts_differ_at("status"@, "data"@, 0);
            lemma_texts_differ_at("status"@, "errors"@, 0);
            lemma_texts_differ_at("data"@, "errors"@, 0);
            }
            let payload = encode_account_data(data);
            let mut pairs: Vec<(String, serde_json::Value)> = Vec::new();
            pairs.push((String::from_str("status"), json_u64_value(*status as u64)));
            pairs.push((String::from_str("data"), payload));
            proof {
            assert(pairs@[0].0@ == "status"@);
            assert(pairs@[1].0@ == "data"@);
            }
            let doc = json_object_from_pairs(pairs);
            let r = json_to_text(&doc);
            proof {
                assert(json_field_of(doc, "errors"@) is None);
            }
            r
        },
        ApiResponse::Failure { status, errors } => {
            proof {
            reveal_strlit("status");
            reveal_strlit("errors");
            reveal_strlit("data");
            lemma_texts_differ_at("status"@, "errors"@, 0);
            lemma_texts_differ_at("status"@, "data"@, 0);
            lemma_texts_differ_at("errors"@, "data"@, 0);
            }
            let error_vals = encode_api_errors(errors);
            let mut pairs: Vec<(String, serde_json::Value)> = Vec::new();
            pairs.push((String::from_str("status"), json_u64_value(*status as u64)));
            pairs.push((String::from_str("errors"), json_array_value(error_vals)));
            proof {
            assert(pairs@[0].0@ == "status"@);
            assert(pairs@[1].0@ == "errors"@);
            }
            let doc = json_object_from_pairs(pairs);
            let r = json_to_text(&doc);
            proof {
                assert(json_field_of(doc, "data"@) is None);
            }
            r
        },
    }
}

} // verus!
