//! Reference links.

use vstd::prelude::*;
use crate::models::common::{JsonValue, Timestamp};

verus! {

/// A reference link.
#[derive(Debug, PartialEq, Eq)]
pub struct Reference {
    pub id: u128,
    pub title: JsonValue,
    pub url: String,
    pub description: Option<JsonValue>,
    pub kind: String,
    pub created_at: Timestamp,
    pub updated_at: Timestamp,
}

/// Body of a request that creates a reference.
#[derive(Debug, PartialEq, Eq)]
pub struct CreateReference {
    pub title: JsonValue,
    pub url: String,
    pub description: Option<JsonValue>,
    pub kind: String,
}

/// Body of a request that edits a reference; absent fields stay as they are.
#[derive(Debug, PartialEq, Eq)]
pub struct UpdateReference {
    pub title: Option<JsonValue>,
    pub url: Option<String>,
    pub description: Option<JsonValue>,
    pub kind: Option<String>,
}

} // verus!
