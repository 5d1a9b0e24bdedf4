//! Blog posts.

use vstd::prelude::*;
use crate::models::common::{JsonValue, Timestamp};

verus! {

/// A blog post.
#[derive(Debug, PartialEq, Eq)]
pub struct Post {
    pub id: u128,
    pub title: JsonValue,
    pub content: String,
    pub image_url: Option<String>,
    pub tags: Option<Vec<String>>,
    pub author_id: Option<u128>,
    pub published_at: Option<Timestamp>,
    pub created_at: Timestamp,
    pub updated_at: Timestamp,
}

/// A post without its content, as listed on the blog page.
#[derive(Debug, PartialEq, Eq)]
pub struct PostSummary {
    pub id: u128,
    pub title: JsonValue,
    pub image_url: Option<String>,
    pub tags: Option<Vec<String>>,
    pub author_id: Option<u128>,
    pub published_at: Option<Timestamp>,
}

/// Body of a request that creates a post.
#[derive(Debug, PartialEq, Eq)]
pub struct CreatePost {
    pub title: JsonValue,
    pub content: String,
    pub image_url: Option<String>,
    pub tags: Option<Vec<String>>,
    pub published_at: Option<Timestamp>,
}

/// Body of a request that edits a post; absent fields stay as they are.
#[derive(Debug, PartialEq, Eq)]
pub struct UpdatePost {
    pub title: Option<JsonValue>,
    pub content: Option<String>,
    pub image_url: Option<String>,
    pub tags: Option<Vec<String>>,
    pub published_at: Option<Timestamp>,
}

} // verus!
