use rustyspoty::bulk::{
    batch_path_string, check_count, combine, item_key_string, join, plan, CatalogItem, Collection,
};
use rustyspoty::client_creds::{Action, Event, Now, SpotifyClientCredentials};
use rustyspoty::models::artist::Artist;
use rustyspoty::models::{ExternalUrls, Followers};
use rustyspoty::RustyError;
use serde_json::Value;

fn client() -> SpotifyClientCredentials {
    SpotifyClientCredentials::new("id".to_string(), "secret".to_string())
}

fn ids(list: &[&str]) -> Vec<String> {
    list.iter().map(|s| s.to_string()).collect()
}

fn text(s: &str) -> Value {
    Value::String(s.to_string())
}

fn artist(id: &str) -> Artist {
    Artist {
        id: id.to_string(),
        name: format!("name of {}", id),
        images: vec![],
        external_urls: ExternalUrls { spotify: String::new() },
        followers: Followers { total: 0 },
        genres: vec![],
        kind: "artist".to_string(),
        uri: String::new(),
        popularity: 0,
    }
}

fn invalid_input(r: Result<Vec<Option<Value>>, RustyError>) -> String {
    match r {
        Err(RustyError::InvalidInput(msg)) => msg,
        other => panic!("{:?}", other),
    }
}

#[test]
fn empty_list_is_invalid_input() {
    let c = client();
    assert_eq!(
        invalid_input(c.get_several_albums(&[])),
        "Please provide at least 1 album ID."
    );
    assert_eq!(
        invalid_input(c.get_several_artists(&[])),
        "Please provide at least 1 artist ID."
    );
    assert_eq!(
        invalid_input(c.get_several_tracks(&[], Some("US"))),
        "Please provide at least 1 track ID."
    );
}

#[test]
fn too_long_list_is_invalid_input() {
    let c = client();
    let twenty_one: Vec<String> = (0..21).map(|i| i.to_string()).collect();
    let fifty_one: Vec<String> = (0..51).map(|i| i.to_string()).collect();
    assert_eq!(invalid_input(c.get_several_albums(&twenty_one)), "Maximum of 20 IDs.");
    assert_eq!(invalid_input(c.get_several_tracks(&twenty_one, None)), "Maximum of 20 IDs.");
    assert_eq!(invalid_input(c.get_several_artists(&fifty_one)), "Maximum of 50 IDs.");
    assert!(c.get_several_albums(&twenty_one[..20]).is_ok());
    assert!(c.get_several_artists(&fifty_one[..50]).is_ok());
    assert!(c.get_several_artists(&twenty_one).is_ok());
}

#[test]
fn check_count_bounds() {
    assert!(check_count(Collection::Albums, 1).is_ok());
    assert!(check_count(Collection::Albums, 20).is_ok());
    assert!(check_count(Collection::Albums, 21).is_err());
    assert!(check_count(Collection::Artists, 50).is_ok());
    assert!(check_count(Collection::Artists, 51).is_err());
    assert!(check_count(Collection::Tracks, 0).is_err());
}

#[test]
fn keys_and_paths() {
    assert_eq!(item_key_string(Collection::Albums, "a1", None), "/albums/a1");
    assert_eq!(item_key_string(Collection::Artists, "a1", None), "/artists/a1");
    assert_eq!(item_key_string(Collection::Tracks, "t1", Some("US")), "/tracks/t1&market=US");
    assert_eq!(
        batch_path_string(Collection::Albums, &ids(&["a", "b", "c"]), None),
        "/albums?ids=a,b,c"
    );
    assert_eq!(
        batch_path_string(Collection::Tracks, &ids(&["a", "b"]), Some("DE")),
        "/tracks?ids=a,b&market=DE"
    );
    assert_eq!(batch_path_string(Collection::Artists, &ids(&["x"]), None), "/artists?ids=x");
}

#[test]
fn join_puts_the_separator_between() {
    assert_eq!(join(&[], ","), "");
    assert_eq!(join(&ids(&["a"]), ","), "a");
    assert_eq!(join(&ids(&["a", "b", "c"]), ","), "a,b,c");
    assert_eq!(join(&ids(&["", ""]), "&"), "&");
    assert_eq!(join(&ids(&["a", "b", "c"]), ","), ids(&["a", "b", "c"]).join(","));
}

#[test]
fn lookup_finds_what_is_cached_per_identifier() {
    let mut c = client();
    c.update_cache_at("/artists/A".to_string(), text("a"), 0);
    let found = c.get_several_at(Collection::Artists, &ids(&["A", "B"]), None, 5).unwrap();
    assert_eq!(found, vec![Some(text("a")), None]);
    let found = c
        .get_several_at(Collection::Artists, &ids(&["B", "A", "A"]), None, 5)
        .unwrap();
    assert_eq!(found, vec![None, Some(text("a")), Some(text("a"))]);
    let found = c
        .get_several_at(Collection::Artists, &ids(&["A"]), None, 600_000_000_000)
        .unwrap();
    assert_eq!(found, vec![None]);
}

#[test]
fn bulk_of_cached_and_uncached_fetches_only_the_uncached() {
    let mut c = client();
    let now: u128 = 7;
    c.update_cache_at("/artists/A".to_string(), text("a"), 0);
    let wanted = ids(&["A", "B"]);
    let found = c.get_several_at(Collection::Artists, &wanted, None, now).unwrap();
    let decoded: Vec<Option<Artist>> =
        found.into_iter().map(|v| v.map(|_| artist("A"))).collect();
    let p = plan(Collection::Artists, &wanted, decoded, None);
    assert_eq!(p.to_fetch, ids(&["B"]));
    assert_eq!(p.cached.len(), 1);
    assert_eq!(p.cached[0].id, "A");
    let mut request = p.request.expect("one request for what is missing");
    assert_eq!(request.path(), "/artists?ids=B");
    let clock = Now { cache: now, unix: 1_000 };
    let mut sends = 0;
    let mut action = c.advance_at(&mut request, Event::Start, clock);
    loop {
        action = match action {
            Action::Authorize(_) => c.advance_at(
                &mut request,
                Event::Reply(rustyspoty::client_creds::HttpReply {
                    status: 200,
                    retry_after: None,
                    body: Ok("{}".to_string()),
                }),
                clock,
            ),
            Action::ParseGrant(_) => c.advance_at(
                &mut request,
                Event::Grant(Ok(rustyspoty::models::auth::ClientCredsAuthResponse {
                    access_token: "tok".to_string(),
                    token_type: "Bearer".to_string(),
                    expires_in: 3600,
                })),
                clock,
            ),
            Action::Send { url, .. } => {
                sends += 1;
                assert_eq!(url, "https://api.spotify.com/v1/artists?ids=B");
                c.advance_at(
                    &mut request,
                    Event::Reply(rustyspoty::client_creds::HttpReply {
                        status: 200,
                        retry_after: None,
                        body: Ok("{}".to_string()),
                    }),
                    clock,
                )
            }
            Action::ParseBody(_) => {
                c.advance_at(&mut request, Event::Body(Ok(text("batch"))), clock)
            }
            Action::Done => break,
            other => panic!("{:?}", other),
        };
    }
    assert_eq!(sends, 1);
    let fetched = vec![artist("B")];
    c.store_fetched_at(Collection::Artists, None, &fetched, &[text("b")], now);
    let all = combine(p.cached, fetched);
    let got: Vec<&str> = all.iter().map(|a| a.id.as_str()).collect();
    assert_eq!(got, vec!["A", "B"]);
    assert_eq!(c.check_cache_at("/artists/B", now), Some(text("b")));
    assert_eq!(c.check_cache_at("/artists/A", now), Some(text("a")));
    let found = c.get_several_at(Collection::Artists, &wanted, None, now + 1).unwrap();
    assert_eq!(found, vec![Some(text("a")), Some(text("b"))]);
}

#[test]
fn bulk_of_cached_only_makes_no_request() {
    let wanted = ids(&["A", "B"]);
    let p = plan(Collection::Artists, &wanted, vec![Some(artist("A")), Some(artist("B"))], None);
    assert!(p.request.is_none());
    assert!(p.to_fetch.is_empty());
    assert_eq!(p.cached.len(), 2);
    assert_eq!(p.cached[0].id, "A");
    assert_eq!(p.cached[1].id, "B");
}

#[test]
fn bulk_of_uncached_only_fetches_all() {
    let wanted = ids(&["A", "B", "C"]);
    let p = plan::<Artist>(Collection::Tracks, &wanted, vec![None, None, None], Some("US"));
    assert_eq!(p.to_fetch, wanted);
    assert!(p.cached.is_empty());
    assert_eq!(p.request.unwrap().path(), "/tracks?ids=A,B,C&market=US");
}

#[test]
fn plan_counts_a_missing_answer_as_a_miss() {
    let wanted = ids(&["A", "B", "C"]);
    let p = plan(Collection::Albums, &wanted, vec![None, Some(artist("B"))], None);
    assert_eq!(p.to_fetch, ids(&["A", "C"]));
    assert_eq!(p.cached.len(), 1);
    assert_eq!(p.request.unwrap().path(), "/albums?ids=A,C");
}

#[test]
fn store_fetched_caches_each_under_its_own_key() {
    let mut c = client();
    let fetched = vec![artist("X"), artist("Y"), artist("X")];
    c.store_fetched_at(
        Collection::Tracks,
        Some("US"),
        &fetched,
        &[text("x1"), text("y"), text("x2")],
        100,
    );
    assert_eq!(c.check_cache_at("/tracks/X&market=US", 100), Some(text("x2")));
    assert_eq!(c.check_cache_at("/tracks/Y&market=US", 100), Some(text("y")));
    assert_eq!(c.check_cache_at("/tracks/X", 100), None);
    assert_eq!(c.check_cache_at("/tracks/Y&market=US", 600_000_000_100), None);
}

#[test]
fn store_fetched_leaves_out_objects_without_a_value() {
    let mut c = client();
    let fetched = vec![artist("X"), artist("Y")];
    c.store_fetched_at(Collection::Artists, None, &fetched, &[text("x")], 0);
    assert_eq!(c.check_cache_at("/artists/X", 0), Some(text("x")));
    assert_eq!(c.check_cache_at("/artists/Y", 0), None);
}

#[test]
fn single_request_and_bulk_share_their_keys() {
    let c = client();
    assert_eq!(c.get_album("a1").path(), &item_key_string(Collection::Albums, "a1", None));
    assert_eq!(c.get_artist("a1").path(), &item_key_string(Collection::Artists, "a1", None));
    assert_eq!(c.get_track("a1").path(), &item_key_string(Collection::Tracks, "a1", None));
}

#[test]
fn catalog_items_give_their_id() {
    assert_eq!(artist("Z").id(), "Z");
}

#[test]
fn combine_puts_cached_first() {
    assert_eq!(combine(vec![1, 2], vec![3]), vec![1, 2, 3]);
    assert_eq!(combine(Vec::<u8>::new(), vec![3]), vec![3]);
    assert_eq!(combine(vec![1], Vec::new()), vec![1]);
}
