//! The errors that the platform answers a request with.

use vstd::prelude::*;

verus! {

/// An error answer. Each variant carries the message shown to the client.
#[derive(Debug, Clone, PartialEq, Eq)]
pub enum AppError {
    /// The requested record does not exist (HTTP 404).
    NotFound(String),
    /// The caller may not perform the action (HTTP 403).
    Forbidden(String),
    /// The caller could not be authenticated (HTTP 401).
    AuthError(String),
    /// The request body is malformed (HTTP 400).
    ValidationError(String),
    /// Something failed on the server side (HTTP 500).
    InternalServerError(String),
}

/// Which kind of record a lookup or a deletion is about.
#[derive(Debug, Clone, Copy, PartialEq, Eq)]
pub enum RecordKind {
    Thread,
    Comment,
    Course,
    Module,
    Chapter,
    Post,
    User,
    Reference,
    Notification,
}

/// The text of the "not found" message for a record kind.
pub open spec fn not_found_text(kind: RecordKind) -> Seq<char> {
    match kind {
        RecordKind::Thread => "Thread not found"@,
        RecordKind::Comment => "Comment not found"@,
        RecordKind::Course => "Course not found"@,
        RecordKind::Module => "Module not found"@,
        RecordKind::Chapter => "Chapter not found"@,
        RecordKind::Post => "Post not found"@,
        RecordKind::User => "User not found"@,
        RecordKind::Reference => "Reference not found"@,
        RecordKind::Notification => "Notification not found"@,
    }
}

/// Whether `e` is the "not found" answer for `kind`.
pub open spec fn is_not_found(e: AppError, kind: RecordKind) -> bool {
    e matches AppError::NotFound(m) && m@ == not_found_text(kind)
}

/// The "not found" answer for a record kind.
pub fn not_found(kind: RecordKind) -> (e: AppError)
    ensures
        is_not_found(e, kind),
{
    let msg = match kind {
        RecordKind::Thread => "Thread not found",
        RecordKind::Comment => "Comment not found",
        RecordKind::Course => "Course not found",
        RecordKind::Module => "Module not found",
        RecordKind::Chapter => "Chapter not found",
        RecordKind::Post => "Post not found",
        RecordKind::User => "User not found",
        RecordKind::Reference => "Reference not found",
        RecordKind::Notification => "Notification not found",
    };
    AppError::NotFound(String::from_str(msg))
}

/// A looked-up record, or the "not found" answer for its kind when the
/// lookup found nothing.
pub fn found_or_not_found<T>(found: Option<T>, kind: RecordKind) -> (r: Result<T, AppError>)
    ensures
        found matches Some(v) ==> r == Ok::<T, AppError>(v),
        found is None ==> (r matches Err(e) && is_not_found(e, kind)),
{
    match found {
        Some(v) => Ok(v),
        None => Err(not_found(kind)),
    }
}

/// The outcome of a deletion that affected `rows_affected` rows: success
/// when at least one row went away, otherwise "not found".
pub fn deleted_or_not_found(rows_affected: u64, kind: RecordKind) -> (r: Result<(), AppError>)
    ensures
        rows_affected > 0 ==> r is Ok,
        rows_affected == 0 ==> (r matches Err(e) && is_not_found(e, kind)),
{
    if rows_affected == 0 {
        Err(not_found(kind))
    } else {
        Ok(())
    }
}

} // verus!
