//! Authenticated, cached requests against the Spotify Web API, written without
//! any I/O of its own: the cache, the token lifecycle and the request pipeline
//! decide, and the caller performs the network calls they ask for.

pub mod auth_code_pkce;
pub mod bulk;
pub mod cache;
pub mod client_creds;
pub mod endpoints;
pub mod error;
pub mod laws;
pub mod models;
pub mod query;
pub mod services;
pub mod text;
pub mod token_manager;

pub use crate::auth_code_pkce::SpotifyOAuth;
pub use crate::cache::Cache;
pub use crate::client_creds::SpotifyClientCredentials;
pub use crate::error::{RustyError, RustyResult};
pub use crate::services::extract_spotify_id_from_url;
pub use crate::token_manager::SpotifyTokenManager;
