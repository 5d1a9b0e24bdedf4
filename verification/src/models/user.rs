//! Users and their statistics.

use vstd::prelude::*;
use crate::models::common::Timestamp;

verus! {

/// A registered or guest user.
#[derive(Debug, Clone, PartialEq, Eq)]
pub struct User {
    pub id: u128,
    pub email: String,
    pub google_id: Option<String>,
    pub is_guest: bool,
    pub name: String,
    pub avatar_url: Option<String>,
    pub password_hash: Option<String>,
    pub preferred_language: Option<String>,
    pub theme: Option<String>,
    pub role: String,
    pub created_at: Timestamp,
    pub updated_at: Timestamp,
}

/// The data from which a user account is created.
#[derive(Debug, Clone, PartialEq, Eq)]
pub struct CreateUser {
    pub email: String,
    pub name: String,
    pub google_id: Option<String>,
    pub avatar_url: Option<String>,
    pub password_hash: Option<String>,
}

/// Body of a request that changes a user's preferences.
#[derive(Debug, Clone, PartialEq, Eq)]
pub struct UpdateUser {
    pub preferred_language: Option<String>,
    pub theme: Option<String>,
}

/// Body of a request that changes a user's role.
#[derive(Debug, Clone, PartialEq, Eq)]
pub struct UserRoleUpdate {
    pub role: String,
}

/// Statistics of one user.
#[derive(Debug, Clone, Copy, PartialEq, Eq)]
pub struct UserStats {
    pub completed_courses: i64,
    pub community_contributions: i64,
}

/// Statistics of the whole platform.
#[derive(Debug, Clone, Copy, PartialEq, Eq)]
pub struct AdminStats {
    pub total_users: i64,
    pub active_students: i64,
    pub total_courses: i64,
    pub total_posts: i64,
    pub total_threads: i64,
}

} // verus!
