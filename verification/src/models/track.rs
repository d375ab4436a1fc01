//! Tracks.

use super::album::SimplifiedAlbum;
use super::artist::SimplifiedArtist;
use super::ExternalUrls;
use vstd::prelude::*;

verus! {

/// A track in full.
#[derive(Debug, Clone)]
pub struct Track {
    pub album: SimplifiedAlbum,
    pub id: String,
    pub name: String,
    pub artists: Vec<SimplifiedArtist>,
    pub duration_ms: u64,
    pub preview_url: Option<String>,
    pub external_urls: ExternalUrls,
}

/// A track as it appears inside an album.
#[derive(Debug, Clone)]
pub struct SimplifiedTrack {
    pub artists: Vec<SimplifiedArtist>,
    pub disc_number: u32,
    pub duration_ms: u64,
    pub explicit: bool,
    pub external_urls: ExternalUrls,
    pub href: String,
    pub id: String,
    pub name: String,
    pub preview_url: Option<String>,
    pub track_number: u32,
}

/// The answer to a request for several tracks.
#[derive(Debug, Clone)]
pub struct TracksResponse {
    pub tracks: Vec<Track>,
}

} // verus!
