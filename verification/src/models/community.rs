//! Discussion threads and their comments.

use vstd::prelude::*;
use crate::models::common::Timestamp;

verus! {

/// A discussion thread.
#[derive(Debug, Clone, PartialEq, Eq)]
pub struct Thread {
    pub id: u128,
    pub author_id: u128,
    pub title: String,
    pub content: String,
    pub tags: Option<Vec<String>>,
    pub likes_count: Option<i32>,
    pub created_at: Timestamp,
    pub updated_at: Timestamp,
}

/// A comment on a thread.
#[derive(Debug, Clone, PartialEq, Eq)]
pub struct Comment {
    pub id: u128,
    pub thread_id: u128,
    pub author_id: u128,
    pub content: String,
    pub likes_count: Option<i32>,
    pub created_at: Timestamp,
    pub updated_at: Timestamp,
}

/// Body of a request that opens a thread.
#[derive(Debug, Clone, PartialEq, Eq)]
pub struct CreateThreadRequest {
    pub title: String,
    pub content: String,
    pub tags: Option<Vec<String>>,
}

/// Body of a request that edits a thread; absent fields stay as they are.
#[derive(Debug, Clone, PartialEq, Eq)]
pub struct UpdateThreadRequest {
    pub title: Option<String>,
    pub content: Option<String>,
    pub tags: Option<Vec<String>>,
}

/// Body of a request that adds a comment.
#[derive(Debug, Clone, PartialEq, Eq)]
pub struct CreateCommentRequest {
    pub content: String,
}

/// Body of a request that edits a comment.
#[derive(Debug, Clone, PartialEq, Eq)]
pub struct UpdateComment {
    pub content: String,
}

/// A thread together with its comments, oldest first.
#[derive(Debug, Clone, PartialEq, Eq)]
pub struct ThreadWithComments {
    pub thread: Thread,
    pub comments: Vec<Comment>,
}

} // verus!
