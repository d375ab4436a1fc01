//! The requests of the single endpoints: for each, the path that is asked
//! for, which is also the key under which the answer is cached.

use crate::bulk::{count_error, item_key, lookups, market_view, texts, Collection};
use crate::client_creds::{Phase, Request, RequestState, SpotifyClientCredentials};
use crate::error::{ErrorView, RustyError};
use crate::query::{query_string, to_query_string, QueryValue};
use crate::text::{decimal, push_decimal};
use serde_json::Value;
use vstd::prelude::*;
use vstd::string::*;

verus! {

/// A request for `path` that has not begun.
pub open spec fn fresh_request(path: Seq<char>) -> RequestState {
    RequestState { path, phase: Phase::Idle }
}

/// The number of releases per page that is asked for: 20 where none is
/// given, and otherwise the given number brought into 1 to 50.
pub open spec fn page_limit(limit: Option<i32>) -> nat {
    match limit {
        None => 20,
        Some(n) => if n < 1 {
            1
        } else if n > 50 {
            50
        } else {
            n as nat
        },
    }
}

/// The position of the first release that is asked for: 0 where none is
/// given or the given one is negative.
pub open spec fn page_offset(offset: Option<i32>) -> nat {
    match offset {
        None => 0,
        Some(n) => if n < 0 {
            0
        } else {
            n as nat
        },
    }
}

/// The path of the new releases.
pub open spec fn new_releases_path(limit: Option<i32>, offset: Option<i32>) -> Seq<char> {
    "/browse/new-releases?limit="@ + decimal(page_limit(limit)) + "&offset="@ + decimal(
        page_offset(offset),
    )
}

/// The path of an artist's top tracks, for a market where one is given.
pub open spec fn top_tracks_path(artist_id: Seq<char>, market: Option<Seq<char>>) -> Seq<char> {
    "/artists/"@ + artist_id + "/top-tracks"@ + match market {
        Some(m) => "?market="@ + m,
        None => Seq::empty(),
    }
}

/// The error for a recommendation request with `total` seeds, if their
/// number breaks a bound: there must be at least one and at most five.
pub open spec fn seed_error(total: nat) -> Option<ErrorView> {
    if total == 0 {
        Some(ErrorView::InvalidInput("At least one seed (artist, genre, or track) is required."@))
    } else if total > 5 {
        Some(ErrorView::InvalidInput("No more than 5 seeds in total are allowed."@))
    } else {
        None
    }
}

fn request_of(head: &str, id: &str, tail: &str) -> (request: Request)
    ensures
        request@ == fresh_request(head@ + id@ + tail@),
{
    let mut path = String::from_str(head);
    path.append(id);
    path.append(tail);
    Request::new(path)
}

/// Holds the number of seeds of a recommendation request to its bounds: at
/// least one and at most five, over artists, genres and tracks together.
pub fn check_seed_count(seed_artists: usize, seed_genres: usize, seed_tracks: usize) -> (r: Result<
    (),
    RustyError,
>)
    ensures
        match r {
            Ok(_) => seed_error((seed_artists + seed_genres + seed_tracks) as nat) is None,
            Err(e) => seed_error((seed_artists + seed_genres + seed_tracks) as nat) == Some(e@),
        },
{
    let none = seed_artists == 0 && seed_genres == 0 && seed_tracks == 0;
    let too_many = seed_artists > 5 || seed_genres > 5 || seed_tracks > 5 || seed_artists
        + seed_genres + seed_tracks > 5;
    if none {
        Err(
            RustyError::InvalidInput(
                String::from_str("At least one seed (artist, genre, or track) is required."),
            ),
        )
    } else if too_many {
        Err(RustyError::InvalidInput(String::from_str("No more than 5 seeds in total are allowed.")))
    } else {
        Ok(())
    }
}

impl SpotifyClientCredentials {
    /// The request for one album.
    pub fn get_album(&self, album_id: &str) -> (request: Request)
        ensures
            request@ == fresh_request("/albums/"@ + album_id@),
    {
        let request = request_of("/albums/", album_id, "");
        proof {
            reveal_strlit("");
        }
        request
    }

    /// The request for the tracks of an album.
    pub fn get_album_tracks(&self, album_id: &str) -> (request: Request)
        ensures
            request@ == fresh_request("/albums/"@ + album_id@ + "/tracks"@),
    {
        request_of("/albums/", album_id, "/tracks")
    }

    /// The request for a page of the new releases. Without a limit it asks
    /// for 20; a limit is brought into 1 to 50, and a negative offset to 0.
    pub fn get_new_album_releases(&self, limit: Option<i32>, offset: Option<i32>) -> (request:
        Request)
        ensures
            request@ == fresh_request(new_releases_path(limit, offset)),
    {
        let limit_n: u64 = match limit {
            None => 20,
            Some(n) => if n < 1 {
                1
            } else if n > 50 {
                50
            } else {
                n as u64
            },
        };
        let offset_n: u64 = match offset {
            None => 0,
            Some(n) => if n < 0 {
                0
            } else {
                n as u64
            },
        };
        let mut path = String::from_str("/browse/new-releases?limit=");
        push_decimal(&mut path, limit_n);
        path.append("&offset=");
        push_decimal(&mut path, offset_n);
        Request::new(path)
    }

    /// The request for one artist.
    pub fn get_artist(&self, artist_id: &str) -> (request: Request)
        ensures
            request@ == fresh_request("/artists/"@ + artist_id@),
    {
        let request = request_of("/artists/", artist_id, "");
        proof {
            reveal_strlit("");
        }
        request
    }

    /// The request for the albums of an artist.
    pub fn get_artist_albums(&self, artist_id: &str) -> (request: Request)
        ensures
            request@ == fresh_request("/artists/"@ + artist_id@ + "/albums"@),
    {
        request_of("/artists/", artist_id, "/albums")
    }

    /// The request for the top tracks of an artist, in `market` where one is
    /// given.
    pub fn get_artist_top_tracks(&self, artist_id: &str, market: Option<&str>) -> (request: Request)
        ensures
            request@ == fresh_request(top_tracks_path(artist_id@, market_view(market))),
    {
        let mut path = String::from_str("/artists/");
        path.append(artist_id);
        path.append("/top-tracks");
        match market {
            Some(m) => {
                path.append("?market=");
                path.append(m);
            },
            None => {},
        }
        assert(path@ =~= top_tracks_path(artist_id@, market_view(market)));
        Request::new(path)
    }

    /// The request for the artists that are related to an artist.
    pub fn get_related_artists(&self, artist_id: &str) -> (request: Request)
        ensures
            request@ == fresh_request("/artists/"@ + artist_id@ + "/related-artists"@),
    {
        request_of("/artists/", artist_id, "/related-artists")
    }

    /// The request for the genres that recommendations can be seeded with.
    pub fn get_genre_seeds(&self) -> (request: Request)
        ensures
            request@ == fresh_request("/recommendations/available-genre-seeds"@),
    {
        Request::new(String::from_str("/recommendations/available-genre-seeds"))
    }

    /// The request for one track.
    pub fn get_track(&self, track_id: &str) -> (request: Request)
        ensures
            request@ == fresh_request("/tracks/"@ + track_id@),
    {
        let request = request_of("/tracks/", track_id, "");
        proof {
            reveal_strlit("");
        }
        request
    }

    /// The request for one playlist.
    pub fn get_playlist(&self, playlist_id: &str) -> (request: Request)
        ensures
            request@ == fresh_request("/playlists/"@ + playlist_id@),
    {
        let request = request_of("/playlists/", playlist_id, "");
        proof {
            reveal_strlit("");
        }
        request
    }

    /// The request for recommendations. The seeds are counted over artists,
    /// genres and tracks together: without any, and with more than five, the
    /// request is refused. `params` are the members of the request as a
    /// JSON object, and become the query.
    pub fn get_recommendations(
        &self,
        seed_artists: usize,
        seed_genres: usize,
        seed_tracks: usize,
        params: &[(String, QueryValue)],
    ) -> (r: Result<Request, RustyError>)
        ensures
            match r {
                Ok(request) => seed_error((seed_artists + seed_genres + seed_tracks) as nat)
                    is None && request@ == fresh_request(
                    "/recommendations?"@ + query_string(params@),
                ),
                Err(e) => seed_error((seed_artists + seed_genres + seed_tracks) as nat) == Some(e@),
            },
    {
        match check_seed_count(seed_artists, seed_genres, seed_tracks) {
            Err(e) => {
                return Err(e);
            },
            Ok(_) => {},
        }
        let mut path = String::from_str("/recommendations?");
        path.append(to_query_string(params).as_str());
        Ok(Request::new(path))
    }

    /// The first step of a request for several albums, at most 20: see
    /// `get_several_at`.
    pub fn get_several_albums(&self, album_ids: &[String]) -> (r: Result<
        Vec<Option<Value>>,
        RustyError,
    >)
        ensures
            match r {
                Ok(found) => count_error(Collection::Albums, album_ids@.len()) is None
                    && exists|now: nat|
                    found@ == #[trigger] lookups(
                        self@.cache,
                        Collection::Albums,
                        texts(album_ids@),
                        None,
                        now,
                    ),
                Err(e) => count_error(Collection::Albums, album_ids@.len()) == Some(e@),
            },
    {
        let now = self.now().cache;
        self.get_several_at(Collection::Albums, album_ids, None, now)
    }

    /// The first step of a request for several artists, at most 50: see
    /// `get_several_at`.
    pub fn get_several_artists(&self, artist_ids: &[String]) -> (r: Result<
        Vec<Option<Value>>,
        RustyError,
    >)
        ensures
            match r {
                Ok(found) => count_error(Collection::Artists, artist_ids@.len()) is None
                    && exists|now: nat|
                    found@ == #[trigger] lookups(
                        self@.cache,
                        Collection::Artists,
                        texts(artist_ids@),
                        None,
                        now,
                    ),
                Err(e) => count_error(Collection::Artists, artist_ids@.len()) == Some(e@),
            },
    {
        let now = self.now().cache;
        self.get_several_at(Collection::Artists, artist_ids, None, now)
    }

    /// The first step of a request for several tracks, at most 20, in
    /// `market` where one is given: see `get_several_at`.
    pub fn get_several_tracks(&self, track_ids: &[String], market: Option<&str>) -> (r: Result<
        Vec<Option<Value>>,
        RustyError,
    >)
        ensures
            match r {
                Ok(found) => count_error(Collection::Tracks, track_ids@.len()) is None
                    && exists|now: nat|
                    found@ == #[trigger] lookups(
                        self@.cache,
                        Collection::Tracks,
                        texts(track_ids@),
                        market_view(market),
                        now,
                    ),
                Err(e) => count_error(Collection::Tracks, track_ids@.len()) == Some(e@),
            },
    {
        let now = self.now().cache;
        self.get_several_at(Collection::Tracks, track_ids, market, now)
    }
}

/// The key under which one album, artist or track is cached is the path of
/// the request for it alone: what either request stores, the other finds.
pub proof fn lemma_item_key_is_the_single_path(id: Seq<char>)
    ensures
        item_key(Collection::Albums, id, None) == "/albums/"@ + id,
        item_key(Collection::Artists, id, None) == "/artists/"@ + id,
        item_key(Collection::Tracks, id, None) == "/tracks/"@ + id,
{
    reveal_strlit("/");
    reveal_strlit("albums");
    reveal_strlit("artists");
    reveal_strlit("tracks");
    reveal_strlit("/albums/");
    reveal_strlit("/artists/");
    reveal_strlit("/tracks/");
}

} // verus!
