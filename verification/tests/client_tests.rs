use valorant_api::region_from_text;
use valorant_api::AccountRegion;
use valorant_api::EpisodeAndAct;
use valorant_api::ValorantApiType;
use valorant_api::ValorantClient;

#[test]
fn region_codes() {
    assert_eq!(AccountRegion::EU.to_value(), "eu");
    assert_eq!(AccountRegion::NA.to_value(), "na");
    assert_eq!(AccountRegion::KR.to_value(), "kr");
    assert_eq!(AccountRegion::AS.to_value(), "as");
}

#[test]
fn region_round_trip() {
    for region in [AccountRegion::EU, AccountRegion::NA, AccountRegion::KR, AccountRegion::AS] {
        assert_eq!(region_from_text(&region.to_value()), Some(region));
    }
    assert_eq!(region_from_text("xx"), None);
    assert_eq!(region_from_text("europe"), None);
    assert_eq!(region_from_text(""), None);
}

#[test]
fn mmr_url() {
    let api_type = ValorantApiType::MMRData {
        region: AccountRegion::EU,
        name: "NitroSniper",
        tag: "NERD",
        filter: None,
    };
    assert_eq!(api_type.to_url(), "v2/mmr/eu/NitroSniper/NERD");
}

#[test]
fn mmr_url_ignores_filter() {
    let api_type = ValorantApiType::MMRData {
        region: AccountRegion::NA,
        name: "mads",
        tag: "ana",
        filter: Some(EpisodeAndAct::parse("e5a2").unwrap()),
    };
    assert_eq!(api_type.to_url(), "v2/mmr/na/mads/ana");
}

#[test]
fn account_url() {
    let api_type = ValorantApiType::AccountData { name: "NitroSniper", tag: "NERD" };
    assert_eq!(api_type.to_url(), "v1/account/NitroSniper/NERD");
}

#[test]
fn default_client_request_url() {
    let client = ValorantClient::new();
    let url = client.request_url(&ValorantApiType::AccountData { name: "mads", tag: "ana" });
    assert_eq!(url, "https://api.henrikdev.xyz/valorant/v1/account/mads/ana");
}

#[test]
fn changed_endpoint_request_url() {
    let client = ValorantClient::new().change_api_endpoint("http://localhost:8080");
    let url = client.request_url(&ValorantApiType::MMRData {
        region: AccountRegion::KR,
        name: "a",
        tag: "b",
        filter: None,
    });
    assert_eq!(url, "http://localhost:8080/v2/mmr/kr/a/b");
}

#[test]
fn default_client_matches_new() {
    let by_default = ValorantClient::default();
    let by_new = ValorantClient::new();
    let api_type = ValorantApiType::AccountData { name: "n", tag: "t" };
    assert_eq!(by_default.request_url(&api_type), by_new.request_url(&api_type));
}
