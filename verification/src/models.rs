//! The shapes of what the API sends and takes.

use vstd::prelude::*;

pub mod album;
pub mod artist;
pub mod auth;
pub mod page;
pub mod playlist;
pub mod recommendations;
pub mod track;
pub mod user;

pub use self::user::User;

verus! {

/// A cover or profile picture; the API leaves out the size of some.
#[derive(Debug, Clone)]
pub struct SpotifyImage {
    pub url: String,
    pub height: Option<u32>,
    pub width: Option<u32>,
}

/// How many users follow an artist or a playlist.
#[derive(Debug, Clone)]
pub struct Followers {
    pub total: u32,
}

/// Where an object can be opened in the Spotify client.
#[derive(Debug, Clone)]
pub struct ExternalUrls {
    pub spotify: String,
}

/// A copyright statement of an album. `kind` is `C` for the copyright and
/// `P` for the performance copyright.
#[derive(Debug, Clone)]
pub struct SpotifyCopyright {
    pub text: String,
    pub kind: String,
}

} // verus!
