//! Paged lists.

use vstd::prelude::*;

verus! {

/// One page of a list that is paged by offset.
#[derive(Clone, Debug, PartialEq, Eq, Default)]
pub struct Page<T> {
    pub href: String,
    pub items: Vec<T>,
    pub limit: u32,
    pub next: Option<String>,
    pub offset: u32,
    pub previous: Option<String>,
    pub total: u32,
}

/// One page of a list that is paged by cursor.
#[derive(Clone, Debug, PartialEq, Eq, Default)]
pub struct CursorBasedPage<T> {
    pub href: String,
    pub items: Vec<T>,
    pub limit: u32,
    pub next: Option<String>,
    pub cursors: Option<Cursor>,
    pub total: Option<u32>,
}

/// The position after which the next page of a cursor-paged list starts.
#[derive(Clone, Debug, PartialEq, Eq, Default)]
pub struct Cursor {
    pub after: Option<String>,
}

} // verus!
