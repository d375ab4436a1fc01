use rustyspoty::services::{extract_spotify_id_from_url, pick_kind_and_id, playlist_url, track_url};

fn pair(kind: &str, id: &str) -> Option<(String, String)> {
    Some((kind.to_string(), id.to_string()))
}

#[test]
fn extract_reads_track_and_playlist_links() {
    assert_eq!(
        extract_spotify_id_from_url("https://open.spotify.com/track/12345"),
        pair("track", "12345")
    );
    assert_eq!(
        extract_spotify_id_from_url("https://open.spotify.com/playlist/37i9dQZF1DXcBWIGoYBM5M?si=abc"),
        pair("playlist", "37i9dQZF1DXcBWIGoYBM5M")
    );
    assert_eq!(
        extract_spotify_id_from_url("see spotify.com/track/a-b and spotify.com/playlist/zz"),
        pair("track", "a")
    );
}

#[test]
fn extract_refuses_other_links() {
    assert_eq!(extract_spotify_id_from_url("https://open.spotify.com/album/12345"), None);
    assert_eq!(extract_spotify_id_from_url("https://open.spotify.com/track/"), None);
    assert_eq!(extract_spotify_id_from_url("https://open.spotifyXcom/track/1"), None);
    assert_eq!(extract_spotify_id_from_url(""), None);
    assert_eq!(extract_spotify_id_from_url("spotify.com/track/12345"), pair("track", "12345"));
}

#[test]
fn pick_takes_the_first_and_second_group() {
    let groups = Some(vec![
        Some("whole".to_string()),
        Some("track".to_string()),
        Some("1".to_string()),
    ]);
    assert_eq!(pick_kind_and_id(groups), pair("track", "1"));
    assert_eq!(pick_kind_and_id(None), None);
    assert_eq!(pick_kind_and_id(Some(vec![])), None);
    assert_eq!(pick_kind_and_id(Some(vec![Some("w".to_string()), Some("k".to_string())])), None);
    assert_eq!(
        pick_kind_and_id(Some(vec![Some("w".to_string()), None, Some("1".to_string())])),
        None
    );
    assert_eq!(
        pick_kind_and_id(Some(vec![Some("w".to_string()), Some("k".to_string()), None])),
        None
    );
}

#[test]
fn addresses_of_single_objects() {
    assert_eq!(playlist_url("p1"), "https://api.spotify.com/v1/playlists/p1");
    assert_eq!(track_url("t1"), "https://api.spotify.com/v1/tracks/t1");
}
