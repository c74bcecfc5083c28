//! Response shapes returned by the platform's endpoints.

pub mod group;
pub mod user;

use vstd::prelude::*;

verus! {

/// Represents a sorting order for API endpoints that can use it.
#[derive(Debug, Copy, Clone, PartialEq, Eq)]
pub enum SortOrder {
    Ascending,
    Descending,
}

/// Represents a page of data for paginated endpoints.
#[derive(Debug, Clone, PartialEq, Eq)]
pub struct Page<T> {
    pub previous_page_cursor: Option<String>,
    pub next_page_cursor: Option<String>,
    pub data: Vec<T>,
}

/// Convenience struct used for endpoints whose response wraps a list in a
/// single `data` field.
#[derive(Debug, Clone, PartialEq, Eq)]
pub struct DataWrapper<T> {
    pub data: Vec<T>,
}

} // verus!
