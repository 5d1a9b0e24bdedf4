//! Accounts: preferences, roles and statistics.

use vstd::prelude::*;
use crate::models::common::Timestamp;
use crate::models::user::{AdminStats, UpdateUser, User, UserRoleUpdate, UserStats};

verus! {

/// The account after a preference change: language and theme are replaced
/// where the request gives them, the edit time is recorded, and every other
/// field is kept.
pub open spec fn user_after_update(u: User, req: UpdateUser, now: Timestamp) -> User {
    User {
        preferred_language: match req.preferred_language {
            Some(l) => Some(l),
            None => u.preferred_language,
        },
        theme: match req.theme {
            Some(t) => Some(t),
            None => u.theme,
        },
        updated_at: now,
        ..u
    }
}

/// Applies a preference change to an account.
pub fn apply_user_update(u: User, req: UpdateUser, now: Timestamp) -> (r: User)
    ensures
        r == user_after_update(u, req, now),
{
    let mut u = u;
    if let Some(l) = req.preferred_language {
        u.preferred_language = Some(l);
    }
    if let Some(t) = req.theme {
        u.theme = Some(t);
    }
    u.updated_at = now;
    u
}

/// Changing preferences is idempotent: the same change applied twice has
/// the effect of applying it once.
pub proof fn lemma_user_update_idempotent(u: User, req: UpdateUser, now: Timestamp)
    ensures
        user_after_update(user_after_update(u, req, now), req, now) == user_after_update(u, req, now),
{
}

/// What a preference change does: a preference the change gives becomes
/// that value, one it leaves out keeps its value, and the edit time is
/// recorded.
pub proof fn lemma_user_update_fields(u: User, req: UpdateUser, now: Timestamp)
    ensures
        ({
            let r = user_after_update(u, req, now);
            &&& (req.preferred_language matches Some(v) ==> r.preferred_language == Some(v))
            &&& (req.preferred_language is None ==> r.preferred_language == u.preferred_language)
            &&& (req.theme matches Some(v) ==> r.theme == Some(v))
            &&& (req.theme is None ==> r.theme == u.theme)
            &&& r.name == u.name
            &&& r.created_at == u.created_at
            &&& r.updated_at == now
        }),
{
}

/// A preference change never touches the identity, the email or the role
/// of the account.
pub proof fn lemma_user_update_keeps_identity(u: User, req: UpdateUser, now: Timestamp)
    ensures
        user_after_update(u, req, now).id == u.id,
        user_after_update(u, req, now).email == u.email,
        user_after_update(u, req, now).role == u.role,
        user_after_update(u, req, now).is_guest == u.is_guest,
{
}

/// The account after a role change.
pub fn apply_role_update(u: User, req: UserRoleUpdate, now: Timestamp) -> (r: User)
    ensures
        r == (User { role: req.role, updated_at: now, ..u }),
{
    User { role: req.role, updated_at: now, ..u }
}

/// The statistics of a user from the number of certifications and of
/// threads of the user (each count read as a signed 64-bit number).
pub fn user_stats(certifications: u64, threads: u64) -> (s: UserStats)
    ensures
        s.completed_courses == certifications as i64,
        s.community_contributions == threads as i64,
{
    UserStats {
        completed_courses: #[verifier::truncate] (certifications as i64),
        community_contributions: #[verifier::truncate] (threads as i64),
    }
}

/// The statistics of the platform from the counts of users, non-guest
/// users, courses, posts and threads (each read as a signed 64-bit number).
pub fn admin_stats(users: u64, non_guests: u64, courses: u64, posts: u64, threads: u64) -> (s:
    AdminStats)
    ensures
        s.total_users == users as i64,
        s.active_students == non_guests as i64,
        s.total_courses == courses as i64,
        s.total_posts == posts as i64,
        s.total_threads == threads as i64,
{
    AdminStats {
        total_users: #[verifier::truncate] (users as i64),
        active_students: #[verifier::truncate] (non_guests as i64),
        total_courses: #[verifier::truncate] (courses as i64),
        total_posts: #[verifier::truncate] (posts as i64),
        total_threads: #[verifier::truncate] (threads as i64),
    }
}

} // verus!
