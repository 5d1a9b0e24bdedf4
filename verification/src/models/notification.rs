//! Stored notifications.

use vstd::prelude::*;
use crate::models::common::Timestamp;

verus! {

/// A notification stored for a user.
#[derive(Debug, Clone, PartialEq, Eq)]
pub struct Notification {
    pub id: u128,
    pub user_id: u128,
    pub kind: String,
    pub title: String,
    pub content: Option<String>,
    pub is_read: Option<bool>,
    pub created_at: Timestamp,
}

/// Body of a request that stores a notification.
#[derive(Debug, Clone, PartialEq, Eq)]
pub struct CreateNotification {
    pub user_id: u128,
    pub kind: String,
    pub title: String,
    pub content: Option<String>,
}

} // verus!
