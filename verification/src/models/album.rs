//! Albums.

use super::artist::SimplifiedArtist;
use super::page::Page;
use super::track::SimplifiedTrack;
use super::{ExternalUrls, SpotifyCopyright, SpotifyImage};
use vstd::prelude::*;

verus! {

/// An album in full.
#[derive(Debug, Clone)]
pub struct Album {
    pub album_type: String,
    pub total_tracks: i32,
    pub available_markets: Option<Vec<String>>,
    pub external_urls: ExternalUrls,
    pub href: String,
    pub id: String,
    pub images: Vec<SpotifyImage>,
    pub name: String,
    pub release_date: String,
    pub release_date_precision: String,
    pub kind: String,
    pub uri: String,
    pub artists: Vec<SimplifiedArtist>,
    pub tracks: Page<SimplifiedTrack>,
    pub copyrights: Vec<SpotifyCopyright>,
    pub genres: Vec<String>,
    pub popularity: u32,
    pub label: Option<String>,
}

/// An album as it appears inside a track or a list of releases.
#[derive(Debug, Clone)]
pub struct SimplifiedAlbum {
    pub album_type: String,
    pub total_tracks: i32,
    pub available_markets: Vec<String>,
    pub external_urls: ExternalUrls,
    pub href: String,
    pub id: String,
    pub images: Vec<SpotifyImage>,
    pub name: String,
    pub release_date: String,
    pub release_date_precision: String,
    pub kind: String,
    pub uri: String,
    pub artists: Vec<SimplifiedArtist>,
}

/// The answer to a request for several albums.
#[derive(Debug, Clone)]
pub struct Albums {
    pub albums: Vec<Album>,
}

/// The answer to a request for the new releases.
#[derive(Debug, Clone)]
pub struct NewAlbums {
    pub albums: Page<SimplifiedAlbum>,
}

} // verus!
