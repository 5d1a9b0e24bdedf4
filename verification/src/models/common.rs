//! Values shared by all records: instants, JSON documents and list filters.

use vstd::prelude::*;

verus! {

/// An instant in UTC: whole seconds since the Unix epoch and the
/// nanoseconds within that second.
#[derive(Debug, Clone, Copy, PartialEq, Eq)]
pub struct Timestamp {
    pub secs: i64,
    pub nanos: u32,
}

/// A JSON document, as stored in the title and description columns
/// (bilingual objects such as `{"en": ..., "es": ...}`). Numbers are kept as
/// their decimal text.
#[derive(Debug, PartialEq, Eq)]
pub enum JsonValue {
    Null,
    Bool(bool),
    Number(String),
    String(String),
    Array(Vec<JsonValue>),
    Object(Vec<(String, JsonValue)>),
}

/// Query parameters of the list endpoints.
#[derive(Debug, Clone, PartialEq, Eq)]
pub struct PaginationAndFilters {
    pub page: Option<u64>,
    pub limit: Option<u64>,
    pub search: Option<String>,
    pub role: Option<String>,
    pub tag: Option<String>,
}

impl PaginationAndFilters {
    /// No filter at all: every field is absent.
    pub fn none() -> (f: PaginationAndFilters)
        ensures
            f.page is None,
            f.limit is None,
            f.search is None,
            f.role is None,
            f.tag is None,
    {
        PaginationAndFilters { page: None, limit: None, search: None, role: None, tag: None }
    }
}

} // verus!
