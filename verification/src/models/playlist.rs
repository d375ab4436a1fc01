//! Playlists.

use super::track::Track;
use super::{ExternalUrls, Followers, SpotifyImage, User};
use vstd::prelude::*;

verus! {

/// A playlist with its tracks.
#[derive(Debug, Clone)]
pub struct Playlist {
    pub id: String,
    pub name: String,
    pub description: Option<String>,
    pub tracks: PlaylistTracks,
    pub owner: User,
    pub images: Vec<SpotifyImage>,
    pub followers: Followers,
    pub external_urls: ExternalUrls,
}

/// The tracks of a playlist, and how many there are in all.
#[derive(Debug, Clone)]
pub struct PlaylistTracks {
    pub items: Vec<PlaylistTrackItem>,
    pub total: u32,
}

/// One entry of a playlist.
#[derive(Debug, Clone)]
pub struct PlaylistTrackItem {
    pub track: Track,
}

} // verus!
