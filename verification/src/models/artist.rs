//! Artists.

use super::{ExternalUrls, Followers, SpotifyImage};
use vstd::prelude::*;

verus! {

/// An artist in full.
#[derive(Debug, Clone)]
pub struct Artist {
    pub id: String,
    pub name: String,
    pub images: Vec<SpotifyImage>,
    pub external_urls: ExternalUrls,
    pub followers: Followers,
    pub genres: Vec<String>,
    pub kind: String,
    pub uri: String,
    pub popularity: u32,
}

/// The answer to a request for several artists.
#[derive(Debug, Clone)]
pub struct Artists {
    pub artists: Vec<Artist>,
}

/// An artist as it appears inside an album or a track.
#[derive(Debug, Clone)]
pub struct SimplifiedArtist {
    pub id: String,
    pub name: String,
    pub external_urls: ExternalUrls,
    pub href: Option<String>,
}

} // verus!
