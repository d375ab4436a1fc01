use rustyspoty::models::auth::ClientCredsAuthResponse;
use rustyspoty::token_manager::{SpotifyTokenManager, TokenStep};
use rustyspoty::RustyError;
use std::time::{Duration, SystemTime, UNIX_EPOCH};

fn manager() -> SpotifyTokenManager {
    SpotifyTokenManager::new("id".to_string(), "secret".to_string())
}

fn grant(token: &str, expires_in: u64) -> ClientCredsAuthResponse {
    ClientCredsAuthResponse {
        access_token: token.to_string(),
        token_type: "Bearer".to_string(),
        expires_in,
    }
}

fn transport_error() -> reqwest::Error {
    reqwest::Client::new().get("not a url").build().unwrap_err()
}

#[test]
fn fresh_manager_has_no_valid_token() {
    let m = manager();
    assert!(!m.is_token_valid_at(0));
    assert!(!m.is_token_valid_at(u64::MAX));
    assert!(!m.is_token_valid());
}

#[test]
fn fresh_manager_asks_for_a_refresh_with_the_credentials() {
    let m = manager();
    match m.get_valid_token_at(1_000) {
        TokenStep::Refresh(form) => {
            assert_eq!(form.grant_type, "client_credentials");
            assert_eq!(form.client_id, "id");
            assert_eq!(form.client_secret, "secret");
        }
        other => panic!("{:?}", other),
    }
    assert!(matches!(m.get_valid_token(), TokenStep::Refresh(_)));
}

#[test]
fn token_is_valid_until_sixty_seconds_before_its_end() {
    let mut m = manager();
    m.accept_token_at(grant("tok", 3600), 1_000);
    assert!(m.is_token_valid_at(1_000));
    assert!(m.is_token_valid_at(4_539));
    assert!(!m.is_token_valid_at(4_540));
    assert!(!m.is_token_valid_at(4_600));
}

#[test]
fn one_refresh_then_none_then_one_more() {
    let mut m = manager();
    let mut refreshes = 0;
    for now in [1_000u64, 1_001, 2_000, 4_539, 4_540, 4_541] {
        match m.get_valid_token_at(now) {
            TokenStep::Ready(token) => assert_eq!(token, format!("tok{}", refreshes)),
            TokenStep::Refresh(_) => {
                refreshes += 1;
                m.accept_token_at(grant(&format!("tok{}", refreshes), 3600), now);
            }
        }
    }
    assert_eq!(refreshes, 2);
}

#[test]
fn short_lived_token_is_never_valid() {
    let mut m = manager();
    m.accept_token_at(grant("tok", 60), 1_000);
    assert!(!m.is_token_valid_at(1_000));
    m.accept_token_at(grant("tok", 10), 5);
    assert!(!m.is_token_valid_at(0));
    m.accept_token_at(grant("tok", 61), 1_000);
    assert!(m.is_token_valid_at(1_000));
    assert!(!m.is_token_valid_at(1_001));
}

#[test]
fn huge_lifetime_does_not_overflow() {
    let mut m = manager();
    m.accept_token_at(grant("tok", u64::MAX), u64::MAX);
    assert!(m.is_token_valid_at(u64::MAX));
}

#[test]
fn real_clock_token_is_valid_after_accept() {
    let mut m = manager();
    m.accept_token(grant("tok", 3600));
    assert!(m.is_token_valid());
    match m.get_valid_token() {
        TokenStep::Ready(token) => assert_eq!(token, "tok"),
        other => panic!("{:?}", other),
    }
    assert!(SpotifyTokenManager::unix_now() > 1_600_000_000);
}

#[test]
fn success_reply_hands_on_its_body() {
    for status in [200u16, 201, 299] {
        let out = SpotifyTokenManager::check_token_reply(status, Ok("{}".to_string()));
        assert_eq!(out.unwrap(), "{}");
    }
}

#[test]
fn rejection_carries_the_body() {
    for status in [199u16, 300, 400, 401, 500] {
        let out = SpotifyTokenManager::check_token_reply(status, Ok("invalid_client".to_string()));
        match out {
            Err(RustyError::TokenAuthentication(msg)) => assert_eq!(msg, "invalid_client"),
            other => panic!("{:?}", other),
        }
    }
}

#[test]
fn rejection_without_readable_body_says_unknown_error() {
    let out = SpotifyTokenManager::check_token_reply(401, Err(transport_error()));
    match out {
        Err(RustyError::TokenAuthentication(msg)) => assert_eq!(msg, "Unknown error"),
        other => panic!("{:?}", other),
    }
}

#[test]
fn success_without_readable_body_is_a_network_error() {
    let out = SpotifyTokenManager::check_token_reply(200, Err(transport_error()));
    assert!(matches!(out, Err(RustyError::Network(_))));
}

#[test]
fn seconds_since_epoch_takes_the_whole_seconds() {
    assert_eq!(SpotifyTokenManager::seconds_since_epoch(Ok(Duration::from_millis(2_999))), 2);
    assert_eq!(SpotifyTokenManager::seconds_since_epoch(Ok(Duration::from_secs(0))), 0);
    assert_eq!(
        SpotifyTokenManager::seconds_since_epoch(Ok(Duration::new(u64::MAX, 999_999_999))),
        u64::MAX
    );
}

#[test]
fn seconds_since_epoch_is_zero_for_a_clock_before_the_epoch() {
    let before = UNIX_EPOCH - Duration::from_secs(5);
    let reading = before.duration_since(UNIX_EPOCH);
    assert!(reading.is_err());
    assert_eq!(SpotifyTokenManager::seconds_since_epoch(reading), 0);
    let after = UNIX_EPOCH + Duration::from_secs(5);
    assert_eq!(SpotifyTokenManager::seconds_since_epoch(after.duration_since(UNIX_EPOCH)), 5);
    assert!(SystemTime::now() > after);
}
