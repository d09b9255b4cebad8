use valorant_api::EpisodeAndAct;
use valorant_api::SeasonError;

#[test]
fn edge_cases() {
    let result = EpisodeAndAct::parse("e5a5");
    assert!(result.is_err());

    let result = EpisodeAndAct::parse("e5a-1");
    assert!(result.is_err());

    let result = EpisodeAndAct::parse("e5a1");
    assert!(result.is_ok());

    let result = EpisodeAndAct::parse("e5a3");
    assert!(result.is_ok());

    let result = EpisodeAndAct::parse("e5a2");
    assert!(result.is_ok());

    let result = EpisodeAndAct::parse("e5a0");
    assert!(result.is_err());

    let result = EpisodeAndAct::parse("sdfa");
    assert!(result.is_err());
}

#[test]
fn round_trip_all_valid_tokens() {
    for episode in 0u32..=9 {
        for act in 1u32..=3 {
            let text = format!("e{episode}a{act}");
            let token = EpisodeAndAct::parse(&text).unwrap();
            assert_eq!(token.episode(), episode);
            assert_eq!(token.act(), act);
            assert_eq!(token.to_value(), text);
            let again = EpisodeAndAct::parse(&token.to_value()).unwrap();
            assert_eq!(again, token);
        }
    }
}

#[test]
fn wrong_length_is_invalid_length() {
    for text in ["", "e", "e5a", "e5a-1", "e5a11", "e10a1"] {
        match EpisodeAndAct::parse(text) {
            Err(SeasonError::InvalidLength(raw)) => assert_eq!(raw, text),
            _ => panic!("expected InvalidLength for {text:?}"),
        }
    }
}

#[test]
fn wrong_markers_are_invalid_format() {
    for text in ["sdfa", "x5a1", "e5b1", "a5e1", "5ea1"] {
        match EpisodeAndAct::parse(text) {
            Err(SeasonError::InvalidFormat(raw)) => assert_eq!(raw, text),
            _ => panic!("expected InvalidFormat for {text:?}"),
        }
    }
}

#[test]
fn non_digit_positions_are_invalid_format() {
    for text in ["exa1", "e5ax", "e a1", "e5a "] {
        match EpisodeAndAct::parse(text) {
            Err(SeasonError::InvalidFormat(raw)) => assert_eq!(raw, text),
            _ => panic!("expected InvalidFormat for {text:?}"),
        }
    }
}

#[test]
fn act_out_of_range_is_invalid_format() {
    for text in ["e5a0", "e5a4", "e5a5", "e0a9"] {
        match EpisodeAndAct::parse(text) {
            Err(SeasonError::InvalidFormat(raw)) => assert_eq!(raw, text),
            _ => panic!("expected InvalidFormat for {text:?}"),
        }
    }
}

#[test]
fn parse_scenarios() {
    assert!(EpisodeAndAct::parse("e5a5").is_err());
    let token = EpisodeAndAct::parse("e5a1").unwrap();
    assert_eq!(token.episode(), 5);
    assert_eq!(token.act(), 1);
}

#[test]
fn season_error_carries_raw_text() {
    let err = EpisodeAndAct::parse("way too long").unwrap_err();
    assert_eq!(err.raw(), "way too long");
    let err = EpisodeAndAct::parse("e9a7").unwrap_err();
    assert_eq!(err.raw(), "e9a7");
}
