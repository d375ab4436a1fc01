//! Recommendations.

use super::track::Track;
use vstd::prelude::*;

verus! {

/// The genres that a recommendation request can be seeded with.
#[derive(Debug, Clone)]
pub struct GenreSeedsResponse {
    pub genres: Vec<String>,
}

/// What became of one seed of a recommendation request.
#[allow(non_snake_case)]
#[derive(Debug, Clone)]
pub struct Seed {
    pub afterFilteringSize: i32,
    pub afterRelinkingSize: i32,
    pub href: Option<String>,
    pub id: String,
    pub initialPoolSize: i32,
    pub kind: String,
}

/// The answer to a recommendation request.
#[derive(Debug, Clone)]
pub struct RecommendationsResponse {
    pub seeds: Vec<Seed>,
    pub tracks: Vec<Track>,
}

} // verus!
