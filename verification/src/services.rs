//! Helpers that stand apart from the client: addresses of single objects,
//! and the reading of links that users share.

use regex::Regex;
use vstd::prelude::*;
use vstd::string::*;

verus! {

/// The groups that the regular expression `pattern` captures at its
/// leftmost match in `text`, the whole match first; a group that took no
/// part in the match is `None`. There is no value where `pattern` is no
/// regular expression or matches nowhere.
pub uninterp spec fn regex_captures(pattern: Seq<char>, text: Seq<char>) -> Option<
    Seq<Option<Seq<char>>>,
>;

/// Captured groups as contracts see them.
pub open spec fn groups_view(groups: Option<Vec<Option<String>>>) -> Option<
    Seq<Option<Seq<char>>>,
> {
    match groups {
        Some(list) => Some(
            list@.map_values(
                |g: Option<String>|
                    match g {
                        Some(s) => Some(s@),
                        None => None,
                    },
            ),
        ),
        None => None,
    }
}

/// Calls `Regex::new` and `Regex::captures` of the regex crate and copies
/// out the text of each group. `regex_captures` names the result.
#[verifier::external_body]
fn captures(pattern: &str, text: &str) -> (groups: Option<Vec<Option<String>>>)
    ensures
        groups_view(groups) == regex_captures(pattern@, text@),
{
    let re = Regex::new(pattern).ok()?;
    let caps = re.captures(text)?;
    Some(caps.iter().map(|m| m.map(|m| m.as_str().to_string())).collect())
}

/// The two groups of a link: the kind of object and its identifier. Both
/// have to be there.
pub open spec fn kind_and_id(groups: Option<Seq<Option<Seq<char>>>>) -> Option<
    (Seq<char>, Seq<char>),
> {
    match groups {
        Some(list) => if list.len() > 2 && list[1] is Some && list[2] is Some {
            Some((list[1]->0, list[2]->0))
        } else {
            None
        },
        None => None,
    }
}

/// A pair of strings as contracts see it.
pub open spec fn pair_view(pair: Option<(String, String)>) -> Option<(Seq<char>, Seq<char>)> {
    match pair {
        Some((a, b)) => Some((a@, b@)),
        None => None,
    }
}

/// Picks the kind and the identifier out of the groups that the pattern of
/// links captured: the first and the second group, where there was a match
/// and both took part in it.
pub fn pick_kind_and_id(groups: Option<Vec<Option<String>>>) -> (found: Option<(String, String)>)
    ensures
        pair_view(found) == kind_and_id(groups_view(groups)),
{
    match groups {
        Some(list) => {
            if list.len() > 2 {
                match (&list[1], &list[2]) {
                    (Some(kind), Some(id)) => Some((kind.clone(), id.clone())),
                    _ => None,
                }
            } else {
                None
            }
        },
        None => None,
    }
}

/// The pattern of the links that are understood: `spotify.com/`, then
/// `playlist` or `track`, a slash, and an identifier of letters and digits.
pub open spec fn link_pattern() -> Seq<char> {
    "spotify\\.com/(playlist|track)/([a-zA-Z0-9]+)"@
}

/// Reads the kind of object, `playlist` or `track`, and its identifier off a
/// Spotify link; nothing where `url` holds no such link.
pub fn extract_spotify_id_from_url(url: &str) -> (found: Option<(String, String)>)
    ensures
        pair_view(found) == kind_and_id(regex_captures(link_pattern(), url@)),
{
    pick_kind_and_id(captures("spotify\\.com/(playlist|track)/([a-zA-Z0-9]+)", url))
}

/// The address of one playlist on the catalog API.
pub fn playlist_url(playlist_id: &str) -> (url: String)
    ensures
        url@ == "https://api.spotify.com/v1/playlists/"@ + playlist_id@,
{
    String::from_str("https://api.spotify.com/v1/playlists/").concat(playlist_id)
}

/// The address of one track on the catalog API.
pub fn track_url(id: &str) -> (url: String)
    ensures
        url@ == "https://api.spotify.com/v1/tracks/"@ + id@,
{
    String::from_str("https://api.spotify.com/v1/tracks/").concat(id)
}

} // verus!
