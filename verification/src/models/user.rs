//! Users.

use super::ExternalUrls;
use vstd::prelude::*;

verus! {

/// The public profile of a user.
#[derive(Debug, Clone)]
pub struct User {
    pub id: String,
    pub display_name: Option<String>,
    pub external_urls: ExternalUrls,
    pub kind: String,
}

} // verus!
