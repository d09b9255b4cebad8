use valorant_api::decode_account_response;
use valorant_api::decode_mmr_response;
use valorant_api::encode_account_response;
use valorant_api::encode_mmr_response;
use valorant_api::AccountData;
use valorant_api::AccountRegion;
use valorant_api::ProfileBanner;
use valorant_api::envelope_from_parts;
use valorant_api::ApiError;
use valorant_api::ApiResponse;
use valorant_api::DecodeError;
use valorant_api::EpisodeAndAct;
use valorant_api::MMRData;
use valorant_api::CurrentActData;
use valorant_api::HighestRank;
use valorant_api::RankImages;

fn sample_mmr_data() -> MMRData {
    MMRData {
        puuid: "b44adaae-ab83-5001-a296-89ea0de0bce3".to_string(),
        name: "NitroSniper".to_string(),
        tag: "NERD".to_string(),
        current_data: CurrentActData {
            current_tier: 16,
            current_tier_patched: "Platinum 2".to_string(),
            images: RankImages {
                small: "s".to_string(),
                large: "l".to_string(),
                triangle_down: "d".to_string(),
                triangle_up: "u".to_string(),
            },
            ranking_in_tier: 47,
            mmr_change_to_last_game: -11,
            elo: 1347,
            games_needed_for_rating: 0,
            old: false,
        },
        highest_rank: HighestRank {
            old: true,
            tier: 18,
            patched_tier: "Diamond 1".to_string(),
            season: EpisodeAndAct::parse("e5a3").unwrap(),
        },
    }
}

fn sample_error() -> ApiError {
    ApiError { message: "Not found".to_string(), code: 0, details: "null".to_string() }
}

#[test]
fn get_account_data_404() {
    let response_404 = r#"{
        "status": 404,
        "errors": [
        {
            "message": "Not found",
            "code": 0,
            "details": "null"
        }
        ]
    }"#;

    let result: ApiResponse<MMRData> = decode_mmr_response(response_404).unwrap();
    match result {
        ApiResponse::Failure { status, errors } => {
            assert_eq!(status, 404);
            assert_eq!(errors.len(), 1);
            assert_eq!(errors[0].message, "Not found");
            assert_eq!(errors[0].code, 0);
            assert_eq!(errors[0].details, "null");
        },
        ApiResponse::Success { .. } => panic!("expected a failure envelope"),
    }
}

#[test]
fn deserialize_response() {
    let response = r#"{
        "status": 200,
        "data": {
            "name": "NitroSniper",
            "tag": "NERD",
            "puuid": "b44adaae-ab83-5001-a296-89ea0de0bce3",
            "current_data": {
                "currenttier": 16,
                "currenttierpatched": "Platinum 2",
                "images": {
                    "small": "https://media.valorant-api.com/competitivetiers/03621f52-342b-cf4e-4f86-9350a49c6d04/16/smallicon.png",
                    "large": "https://media.valorant-api.com/competitivetiers/03621f52-342b-cf4e-4f86-9350a49c6d04/16/largeicon.png",
                    "triangle_down": "https://media.valorant-api.com/competitivetiers/03621f52-342b-cf4e-4f86-9350a49c6d04/16/ranktriangledownicon.png",
                    "triangle_up": "https://media.valorant-api.com/competitivetiers/03621f52-342b-cf4e-4f86-9350a49c6d04/16/ranktriangleupicon.png"
                },
                "ranking_in_tier": 47,
                "mmr_change_to_last_game": -11,
                "elo": 1347,
                "games_needed_for_rating": 0,
                "old": false
            },
            "highest_rank": {
                "old": false,
                "tier": 18,
                "patched_tier": "Diamond 1",
                "season": "e5a3"
            }
        }
    }"#;
    let result = decode_mmr_response(response).unwrap();
    match result {
        ApiResponse::Success { status, data } => {
            assert_eq!(status, 200);
            assert_eq!(data.name, "NitroSniper");
            assert_eq!(data.tag, "NERD");
            assert_eq!(data.current_data.current_tier, 16);
            assert_eq!(data.current_data.mmr_change_to_last_game, -11);
            assert_eq!(data.current_data.elo, 1347);
            assert_eq!(data.highest_rank.tier, 18);
            assert_eq!(data.highest_rank.season.episode(), 5);
            assert_eq!(data.highest_rank.season.act(), 3);
        },
        ApiResponse::Failure { .. } => panic!("expected a success envelope"),
    }
}

#[test]
fn lib_deserialize_response() {
    let response_200 = r#"{
        "status": 200,
        "data": {
            "puuid": "b44adaae-ab83-5001-a296-89ea0de0bce3",
            "region": "eu",
            "account_level": 125,
            "name": "NitroSniper",
            "tag": "NERD",
            "card": {
                "small": "https://media.valorant-api.com/playercards/bb6ae873-43ec-efb4-3ea6-93ac00a82d4e/smallart.png",
                "large": "https://media.valorant-api.com/playercards/bb6ae873-43ec-efb4-3ea6-93ac00a82d4e/largeart.png",
                "wide": "https://media.valorant-api.com/playercards/bb6ae873-43ec-efb4-3ea6-93ac00a82d4e/wideart.png",
                "id": "bb6ae873-43ec-efb4-3ea6-93ac00a82d4e"
            },
            "last_update": "12 minutes ago",
            "last_update_raw": 1676749780
        }
    }"#;

    let result = decode_account_response(response_200).unwrap();
    assert!(matches!(result, ApiResponse::Success { status: 200, .. }));
}

#[test]
fn deserialize_response_na() {
    let response_200 = r#"{
        "status": 200,
        "data": {
            "puuid": "f14bab04-d739-564b-9704-0c0add689aa5",
            "region": "na",
            "account_level": 76,
            "name": "mads",
            "tag": "ana",
            "card": {
                "small": "https://media.valorant-api.com/playercards/eba5be7e-4ec7-753b-8678-fa88da1e46ab/smallart.png",
                "large": "https://media.valorant-api.com/playercards/eba5be7e-4ec7-753b-8678-fa88da1e46ab/largeart.png",
                "wide": "https://media.valorant-api.com/playercards/eba5be7e-4ec7-753b-8678-fa88da1e46ab/wideart.png",
                "id": "eba5be7e-4ec7-753b-8678-fa88da1e46ab"
            },
            "last_update": "Now",
            "last_update_raw": 1676761988
        }

    }"#;

    let result = decode_account_response(response_200).unwrap();
    assert!(matches!(result, ApiResponse::Success { status: 200, .. }));
}

#[test]
fn deserialize_response_br() {
    let response_200 = r#"{
        "status": 200,
        "data": {
            "puuid": "8c5b5846-87e1-54ce-8bc9-38ceb3c5629b",
            "region": "na",
            "account_level": 23,
            "name": "anoca",
            "tag": "3945",
            "card": {
                "small": "https://media.valorant-api.com/playercards/bdc0c02c-441c-8ebc-ec5e-27bff0888ae0/smallart.png",
                "large": "https://media.valorant-api.com/playercards/bdc0c02c-441c-8ebc-ec5e-27bff0888ae0/largeart.png",
                "wide": "https://media.valorant-api.com/playercards/bdc0c02c-441c-8ebc-ec5e-27bff0888ae0/wideart.png",
                "id": "bdc0c02c-441c-8ebc-ec5e-27bff0888ae0"
            },
            "last_update": "Now",
            "last_update_raw": 1676762616
        }
    }"#;

    let result = decode_account_response(response_200).unwrap();
    assert!(matches!(result, ApiResponse::Success { status: 200, .. }));
}

#[test]
fn envelope_with_data_and_no_errors_is_success() {
    let r = envelope_from_parts::<MMRData>(200, Some(sample_mmr_data()), None);
    match r.unwrap() {
        ApiResponse::Success { status, data } => {
            assert_eq!(status, 200);
            assert_eq!(data.puuid, "b44adaae-ab83-5001-a296-89ea0de0bce3");
        },
        ApiResponse::Failure { .. } => panic!("expected a success envelope"),
    }
}

#[test]
fn envelope_with_errors_is_failure() {
    let r = envelope_from_parts::<MMRData>(404, None, Some(vec![sample_error()]));
    match r.unwrap() {
        ApiResponse::Failure { status, errors } => {
            assert_eq!(status, 404);
            assert_eq!(errors.len(), 1);
            assert_eq!(errors[0].message, "Not found");
        },
        ApiResponse::Success { .. } => panic!("expected a failure envelope"),
    }
}

#[test]
fn envelope_with_both_fields_is_failure() {
    let r = envelope_from_parts::<MMRData>(200, Some(sample_mmr_data()), Some(vec![sample_error()]));
    assert!(matches!(r.unwrap(), ApiResponse::Failure { status: 200, .. }));
}

#[test]
fn envelope_with_neither_field_is_malformed() {
    let r = envelope_from_parts::<MMRData>(200, None, None);
    assert_eq!(r.unwrap_err(), DecodeError::MalformedEnvelope);
}

#[test]
fn body_without_data_or_errors_is_malformed() {
    assert_eq!(decode_mmr_response(r#"{"status": 200}"#).unwrap_err(), DecodeError::MalformedEnvelope);
    assert_eq!(decode_account_response(r#"{"status": 200}"#).unwrap_err(), DecodeError::MalformedEnvelope);
}

#[test]
fn body_that_is_not_json_is_malformed() {
    assert_eq!(decode_mmr_response("not json at all").unwrap_err(), DecodeError::MalformedEnvelope);
    assert_eq!(decode_account_response("{\"status\":").unwrap_err(), DecodeError::MalformedEnvelope);
}

#[test]
fn body_without_numeric_status_is_malformed() {
    assert_eq!(
        decode_mmr_response(r#"{"status": "ok", "errors": []}"#).unwrap_err(),
        DecodeError::MalformedEnvelope
    );
    assert_eq!(
        decode_mmr_response(r#"{"errors": []}"#).unwrap_err(),
        DecodeError::MalformedEnvelope
    );
}

#[test]
fn ill_formed_data_without_errors_is_malformed() {
    let body = r#"{"status": 200, "data": {"name": "only a name"}}"#;
    assert_eq!(decode_mmr_response(body).unwrap_err(), DecodeError::MalformedEnvelope);
    assert_eq!(decode_account_response(body).unwrap_err(), DecodeError::MalformedEnvelope);
}

#[test]
fn data_with_invalid_season_token_is_malformed() {
    let body = r#"{
        "status": 200,
        "data": {
            "name": "n", "tag": "t", "puuid": "p",
            "current_data": {
                "currenttier": 1, "currenttierpatched": "Iron 1",
                "images": {"small": "s", "large": "l", "triangle_down": "d", "triangle_up": "u"},
                "ranking_in_tier": 0, "mmr_change_to_last_game": 0, "elo": 0,
                "games_needed_for_rating": 0, "old": false
            },
            "highest_rank": {"old": false, "tier": 3, "patched_tier": "Bronze 1", "season": "e5a4"}
        }
    }"#;
    assert_eq!(decode_mmr_response(body).unwrap_err(), DecodeError::MalformedEnvelope);
}

#[test]
fn empty_errors_array_is_failure() {
    let body = r#"{"status": 500, "errors": []}"#;
    match decode_mmr_response(body).unwrap() {
        ApiResponse::Failure { status, errors } => {
            assert_eq!(status, 500);
            assert!(errors.is_empty());
        },
        ApiResponse::Success { .. } => panic!("expected a failure envelope"),
    }
}

#[test]
fn ill_formed_errors_array_is_malformed() {
    let body = r#"{"status": 500, "errors": [{"message": "m"}]}"#;
    assert_eq!(decode_mmr_response(body).unwrap_err(), DecodeError::MalformedEnvelope);
    let body = r#"{"status": 500, "errors": 7}"#;
    assert_eq!(decode_mmr_response(body).unwrap_err(), DecodeError::MalformedEnvelope);
}

#[test]
fn errors_keep_their_order() {
    let body = r#"{"status": 429, "errors": [
        {"message": "first", "code": 1, "details": "null"},
        {"message": "second", "code": 2, "details": "why"}
    ]}"#;
    match decode_account_response(body).unwrap() {
        ApiResponse::Failure { status, errors } => {
            assert_eq!(status, 429);
            assert_eq!(errors.len(), 2);
            assert_eq!(errors[0].message, "first");
            assert_eq!(errors[0].code, 1);
            assert_eq!(errors[1].message, "second");
            assert_eq!(errors[1].details, "why");
        },
        ApiResponse::Success { .. } => panic!("expected a failure envelope"),
    }
}

fn sample_account_data() -> AccountData {
    AccountData {
        puuid: "f14bab04-d739-564b-9704-0c0add689aa5".to_string(),
        region: AccountRegion::NA,
        account_level: 76,
        name: "mads".to_string(),
        tag: "ana".to_string(),
        card: ProfileBanner {
            small: "s".to_string(),
            large: "l".to_string(),
            wide: "w".to_string(),
            id: "eba5be7e-4ec7-753b-8678-fa88da1e46ab".to_string(),
        },
        last_update: "Now".to_string(),
        last_update_raw: 1676761988,
    }
}

#[test]
fn encode_then_decode_mmr_success() {
    let env = ApiResponse::Success { status: 200, data: sample_mmr_data() };
    let body = encode_mmr_response(&env);
    match decode_mmr_response(&body).unwrap() {
        ApiResponse::Success { status, data } => {
            assert_eq!(status, 200);
            assert_eq!(data.puuid, "b44adaae-ab83-5001-a296-89ea0de0bce3");
            assert_eq!(data.name, "NitroSniper");
            assert_eq!(data.tag, "NERD");
            assert_eq!(data.current_data.current_tier, 16);
            assert_eq!(data.current_data.current_tier_patched, "Platinum 2");
            assert_eq!(data.current_data.images.triangle_down, "d");
            assert_eq!(data.current_data.ranking_in_tier, 47);
            assert_eq!(data.current_data.mmr_change_to_last_game, -11);
            assert_eq!(data.current_data.elo, 1347);
            assert_eq!(data.current_data.games_needed_for_rating, 0);
            assert!(!data.current_data.old);
            assert!(data.highest_rank.old);
            assert_eq!(data.highest_rank.tier, 18);
            assert_eq!(data.highest_rank.patched_tier, "Diamond 1");
            assert_eq!(data.highest_rank.season.episode(), 5);
            assert_eq!(data.highest_rank.season.act(), 3);
        },
        ApiResponse::Failure { .. } => panic!("expected a success envelope"),
    }
}

#[test]
fn encode_then_decode_mmr_failure() {
    let errors = vec![
        sample_error(),
        ApiError { message: "slow down".to_string(), code: 429, details: "why".to_string() },
    ];
    let env = ApiResponse::<MMRData>::Failure { status: 404, errors };
    let body = encode_mmr_response(&env);
    match decode_mmr_response(&body).unwrap() {
        ApiResponse::Failure { status, errors } => {
            assert_eq!(status, 404);
            assert_eq!(errors.len(), 2);
            assert_eq!(errors[0].message, "Not found");
            assert_eq!(errors[0].code, 0);
            assert_eq!(errors[0].details, "null");
            assert_eq!(errors[1].message, "slow down");
            assert_eq!(errors[1].code, 429);
            assert_eq!(errors[1].details, "why");
        },
        ApiResponse::Success { .. } => panic!("expected a failure envelope"),
    }
}

#[test]
fn encode_then_decode_account_success() {
    let env = ApiResponse::Success { status: 200, data: sample_account_data() };
    let body = encode_account_response(&env);
    match decode_account_response(&body).unwrap() {
        ApiResponse::Success { status, data } => {
            assert_eq!(status, 200);
            assert_eq!(data.puuid, "f14bab04-d739-564b-9704-0c0add689aa5");
            assert_eq!(data.region.to_value(), "na");
            assert_eq!(data.account_level, 76);
            assert_eq!(data.name, "mads");
            assert_eq!(data.tag, "ana");
            assert_eq!(data.card.id, "eba5be7e-4ec7-753b-8678-fa88da1e46ab");
            assert_eq!(data.last_update, "Now");
            assert_eq!(data.last_update_raw, 1676761988);
        },
        ApiResponse::Failure { .. } => panic!("expected a success envelope"),
    }
}

#[test]
fn encode_then_decode_account_failure() {
    let env = ApiResponse::<AccountData>::Failure { status: 500, errors: vec![sample_error()] };
    let body = encode_account_response(&env);
    match decode_account_response(&body).unwrap() {
        ApiResponse::Failure { status, errors } => {
            assert_eq!(status, 500);
            assert_eq!(errors.len(), 1);
            assert_eq!(errors[0].message, "Not found");
        },
        ApiResponse::Success { .. } => panic!("expected a failure envelope"),
    }
}

#[test]
fn encoded_failure_emits_no_data_field() {
    let env = ApiResponse::<MMRData>::Failure { status: 404, errors: vec![sample_error()] };
    let body = encode_mmr_response(&env);
    assert!(!body.contains("\"data\""));
    let env = ApiResponse::Success { status: 200, data: sample_mmr_data() };
    let body = encode_mmr_response(&env);
    assert!(!body.contains("\"errors\""));
}
