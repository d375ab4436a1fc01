use rustyspoty::client_creds::{Phase, SpotifyClientCredentials};
use rustyspoty::query::{to_query_string, QueryValue};
use rustyspoty::RustyError;

fn client() -> SpotifyClientCredentials {
    SpotifyClientCredentials::new("id".to_string(), "secret".to_string())
}

#[test]
fn paths_of_the_single_endpoints() {
    let c = client();
    assert_eq!(c.get_album("1").path(), "/albums/1");
    assert_eq!(c.get_album_tracks("1").path(), "/albums/1/tracks");
    assert_eq!(c.get_artist("2").path(), "/artists/2");
    assert_eq!(c.get_artist_albums("2").path(), "/artists/2/albums");
    assert_eq!(c.get_related_artists("2").path(), "/artists/2/related-artists");
    assert_eq!(c.get_genre_seeds().path(), "/recommendations/available-genre-seeds");
    assert_eq!(c.get_track("3").path(), "/tracks/3");
    assert_eq!(c.get_playlist("4").path(), "/playlists/4");
    assert!(matches!(c.get_album("1").phase(), Phase::Idle));
}

#[test]
fn top_tracks_with_and_without_market() {
    let c = client();
    assert_eq!(c.get_artist_top_tracks("2", None).path(), "/artists/2/top-tracks");
    assert_eq!(
        c.get_artist_top_tracks("2", Some("US")).path(),
        "/artists/2/top-tracks?market=US"
    );
}

#[test]
fn new_releases_bring_limit_and_offset_into_range() {
    let c = client();
    let path = |l, o| c.get_new_album_releases(l, o).path().clone();
    assert_eq!(path(None, None), "/browse/new-releases?limit=20&offset=0");
    assert_eq!(path(Some(10), Some(5)), "/browse/new-releases?limit=10&offset=5");
    assert_eq!(path(Some(0), Some(-1)), "/browse/new-releases?limit=1&offset=0");
    assert_eq!(path(Some(51), Some(i32::MAX)), "/browse/new-releases?limit=50&offset=2147483647");
    assert_eq!(path(Some(i32::MIN), Some(i32::MIN)), "/browse/new-releases?limit=1&offset=0");
    assert_eq!(path(Some(1), None), "/browse/new-releases?limit=1&offset=0");
    assert_eq!(path(Some(50), None), "/browse/new-releases?limit=50&offset=0");
}

#[test]
fn recommendations_need_one_to_five_seeds() {
    let c = client();
    match c.get_recommendations(0, 0, 0, &[]) {
        Err(RustyError::InvalidInput(msg)) => {
            assert_eq!(msg, "At least one seed (artist, genre, or track) is required.")
        }
        other => panic!("{:?}", other),
    }
    match c.get_recommendations(2, 2, 2, &[]) {
        Err(RustyError::InvalidInput(msg)) => {
            assert_eq!(msg, "No more than 5 seeds in total are allowed.")
        }
        other => panic!("{:?}", other),
    }
    assert!(c.get_recommendations(usize::MAX, usize::MAX, 1, &[]).is_err());
    assert!(c.get_recommendations(0, 1, 0, &[]).is_ok());
    assert!(c.get_recommendations(2, 2, 1, &[]).is_ok());
}

#[test]
fn recommendations_path_holds_the_query() {
    let c = client();
    let params = vec![
        ("limit".to_string(), QueryValue::Number("10".to_string())),
        (
            "seed_genres".to_string(),
            QueryValue::Array(vec![Some("acoustic".to_string()), Some("afrobeat".to_string())]),
        ),
    ];
    let r = c.get_recommendations(0, 2, 0, &params).unwrap();
    assert_eq!(r.path(), "/recommendations?limit=10&seed_genres=acoustic,afrobeat");
}

#[test]
fn query_string_shows_each_kind_of_value() {
    let params = vec![
        ("limit".to_string(), QueryValue::Number("10".to_string())),
        (
            "seed_genres".to_string(),
            QueryValue::Array(vec![Some("acoustic".to_string()), Some("afrobeat".to_string())]),
        ),
        ("market".to_string(), QueryValue::Text("US".to_string())),
        ("min_energy".to_string(), QueryValue::Number("0.4".to_string())),
    ];
    assert_eq!(
        to_query_string(&params),
        "limit=10&seed_genres=acoustic,afrobeat&market=US&min_energy=0.4"
    );
}

#[test]
fn query_string_leaves_out_what_cannot_be_shown() {
    let params = vec![
        ("a".to_string(), QueryValue::Other),
        ("b".to_string(), QueryValue::Bool(true)),
        ("c".to_string(), QueryValue::Other),
        ("d".to_string(), QueryValue::Bool(false)),
        ("e".to_string(), QueryValue::Array(vec![None, Some("x".to_string()), None])),
        ("f".to_string(), QueryValue::Array(vec![])),
    ];
    assert_eq!(to_query_string(&params), "b=true&d=false&e=x&f=");
    assert_eq!(to_query_string(&[]), "");
    assert_eq!(to_query_string(&[("a".to_string(), QueryValue::Other)]), "");
}
