use rustyspoty::RustyError;

#[test]
fn invalid_input_keeps_the_message() {
    match RustyError::invalid_input("Maximum of 20 IDs.") {
        RustyError::InvalidInput(msg) => assert_eq!(msg, "Maximum of 20 IDs."),
        other => panic!("{:?}", other),
    }
}

#[test]
fn describe_names_each_kind() {
    assert_eq!(
        RustyError::TokenAuthentication("bad".to_string()).describe(),
        "token authentication error: bad"
    );
    assert_eq!(
        RustyError::SpotifyRateLimited(5).describe(),
        "rate limited by Spotify API, retry after 5 seconds"
    );
    assert_eq!(
        RustyError::Unexpected("x".to_string()).describe(),
        "an unexpected error occurred: x"
    );
    assert_eq!(RustyError::invalid_input("m").describe(), "input/output error: m");
}

#[test]
fn describe_prints_the_outside_errors() {
    let json = serde_json::from_str::<serde_json::Value>("{").unwrap_err();
    let text = json.to_string();
    assert!(!text.is_empty());
    assert_eq!(RustyError::from(json).describe(), format!("failed to parse data: {}", text));
    let net = reqwest::Client::new().get("not a url").build().unwrap_err();
    let text = net.to_string();
    assert!(!text.is_empty());
    assert_eq!(RustyError::from(net).describe(), format!("network error: {}", text));
}

#[test]
fn from_wraps_the_outside_errors() {
    let json = serde_json::from_str::<serde_json::Value>("{").unwrap_err();
    assert!(matches!(RustyError::from(json), RustyError::ParseJson(_)));
    let net = reqwest::Client::new().get("not a url").build().unwrap_err();
    assert!(matches!(RustyError::from(net), RustyError::Network(_)));
}
