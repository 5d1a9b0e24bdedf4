//! Discussion threads: who may change what, who is told about it, and likes.

use vstd::prelude::*;
use crate::error::AppError;
use crate::models::common::Timestamp;
use crate::models::community::{
    Comment, CreateThreadRequest, Thread, ThreadWithComments, UpdateComment, UpdateThreadRequest,
};
use crate::notification::{receives, NotificationEvent, NotificationMessage};
use crate::text::str_eq;

verus! {

/// A change that can be asked of a thread or a comment.
#[derive(Debug, Clone, Copy, PartialEq, Eq)]
pub enum Change {
    Update,
    Delete,
}

/// The refusal when someone other than the author changes a thread.
pub open spec fn thread_refusal(change: Change) -> Seq<char> {
    match change {
        Change::Update => "Only the author can update this thread"@,
        Change::Delete => "Only the author can delete this thread"@,
    }
}

/// Only the author of a thread may update or delete it.
pub fn authorize_thread_change(thread: &Thread, user_id: u128, change: Change) -> (r: Result<
    (),
    AppError,
>)
    ensures
        r is Ok <==> thread.author_id == user_id,
        r matches Err(e) ==> (e matches AppError::Forbidden(m) && m@ == thread_refusal(change)),
{
    if thread.author_id != user_id {
        let m = match change {
            Change::Update => "Only the author can update this thread",
            Change::Delete => "Only the author can delete this thread",
        };
        return Err(AppError::Forbidden(String::from_str(m)));
    }
    Ok(())
}

/// Whether a user with this role may edit or delete comments of others.
pub open spec fn is_moderating_role(role: Seq<char>) -> bool {
    role == "MODERATOR"@ || role == "ADMIN"@
}

/// The refusal when someone may not change a comment.
pub open spec fn comment_refusal(change: Change) -> Seq<char> {
    match change {
        Change::Update => "Not authorized to edit this comment"@,
        Change::Delete => "Not authorized to delete this comment"@,
    }
}

/// A comment may be edited or deleted by its author, by a moderator and by
/// an administrator.
pub fn authorize_comment_change(comment: &Comment, user_id: u128, role: &str, change: Change) -> (r:
    Result<(), AppError>)
    ensures
        r is Ok <==> (comment.author_id == user_id || is_moderating_role(role@)),
        r matches Err(e) ==> (e matches AppError::Forbidden(m) && m@ == comment_refusal(change)),
{
    if comment.author_id != user_id && !str_eq(role, "MODERATOR") && !str_eq(role, "ADMIN") {
        let m = match change {
            Change::Update => "Not authorized to edit this comment",
            Change::Delete => "Not authorized to delete this comment",
        };
        return Err(AppError::Forbidden(String::from_str(m)));
    }
    Ok(())
}

/// The live event announcing a new thread, sent to everyone.
pub fn new_thread_message(thread: &Thread) -> (msg: NotificationMessage)
    ensures
        msg.user_id is None,
        msg.event == (NotificationEvent::NewThread { thread_id: thread.id }),
{
    NotificationMessage { user_id: None, event: NotificationEvent::NewThread { thread_id: thread.id } }
}

/// The live event telling the author of a thread about a new comment; there
/// is none when the author commented on their own thread.
pub fn reply_message(thread: &Thread, commenter_id: u128, comment: &Comment) -> (msg: Option<
    NotificationMessage,
>)
    ensures
        thread.author_id == commenter_id ==> msg is None,
        thread.author_id != commenter_id ==> msg == Some(
            NotificationMessage {
                user_id: Some(thread.author_id),
                event: NotificationEvent::NewReply { thread_id: thread.id, comment_id: comment.id },
            },
        ),
{
    if thread.author_id != commenter_id {
        Some(
            NotificationMessage {
                user_id: Some(thread.author_id),
                event: NotificationEvent::NewReply { thread_id: thread.id, comment_id: comment.id },
            },
        )
    } else {
        None
    }
}

/// The reply event for a comment by someone else reaches the thread's
/// author and not the commenter.
pub proof fn lemma_reply_reaches_author_only(thread: Thread, commenter_id: u128, comment: Comment)
    requires
        thread.author_id != commenter_id,
    ensures
        ({
            let msg = NotificationMessage {
                user_id: Some(thread.author_id),
                event: NotificationEvent::NewReply { thread_id: thread.id, comment_id: comment.id },
            };
            receives(msg, thread.author_id) && !receives(msg, commenter_id)
        }),
{
}

/// The event of a new thread reaches every user.
pub proof fn lemma_new_thread_reaches_everyone(thread: Thread, user: u128)
    ensures
        receives(
            NotificationMessage { user_id: None, event: NotificationEvent::NewThread { thread_id: thread.id } },
            user,
        ),
{
}

/// A thread with its comments, in the order given.
pub fn thread_with_comments(thread: Thread, comments: Vec<Comment>) -> (r: ThreadWithComments)
    ensures
        r.thread == thread,
        r.comments@ == comments@,
{
    ThreadWithComments { thread, comments }
}

/// A newly opened thread: no likes yet, created and edited now.
pub fn new_thread(id: u128, author_id: u128, req: CreateThreadRequest, now: Timestamp) -> (t: Thread)
    ensures
        t.id == id,
        t.author_id == author_id,
        t.title == req.title,
        t.content == req.content,
        t.tags == req.tags,
        t.likes_count == Some(0i32),
        t.created_at == now,
        t.updated_at == now,
{
    Thread {
        id,
        author_id,
        title: req.title,
        content: req.content,
        tags: req.tags,
        likes_count: Some(0),
        created_at: now,
        updated_at: now,
    }
}

/// A newly added comment: no likes yet, created and edited now.
pub fn new_comment(id: u128, thread_id: u128, author_id: u128, content: String, now: Timestamp) -> (c:
    Comment)
    ensures
        c.id == id,
        c.thread_id == thread_id,
        c.author_id == author_id,
        c.content == content,
        c.likes_count == Some(0i32),
        c.created_at == now,
        c.updated_at == now,
{
    Comment { id, thread_id, author_id, content, likes_count: Some(0), created_at: now, updated_at: now }
}

/// The thread after an edit (see `apply_thread_update`).
pub open spec fn thread_after_update(x: Thread, req: UpdateThreadRequest, now: Timestamp) -> Thread {
    Thread {
        title: match req.title { Some(v) => v, None => x.title },
        content: match req.content { Some(v) => v, None => x.content },
        tags: match req.tags { Some(v) => Some(v), None => x.tags },
        updated_at: now,
        ..x
    }
}

/// The thread after an edit: title, content and tags are replaced where
/// the request gives them, the edit time is recorded, and every other field
/// is kept.
pub fn apply_thread_update(t: Thread, req: UpdateThreadRequest, now: Timestamp) -> (r: Thread)
    ensures
        r == thread_after_update(t, req, now),
{
    let mut t = t;
    if let Some(x) = req.title {
        t.title = x;
    }
    if let Some(x) = req.content {
        t.content = x;
    }
    if let Some(x) = req.tags {
        t.tags = Some(x);
    }
    t.updated_at = now;
    t
}

/// What a thread edit does to each field: a field the edit gives becomes
/// that value (the new content replaces the old one, and so on), a field it
/// leaves out keeps its value, author, likes and creation time are never
/// touched, and the edit time is recorded.
pub proof fn lemma_thread_update_fields(x: Thread, req: UpdateThreadRequest, now: Timestamp)
    ensures
        ({
            let r = thread_after_update(x, req, now);
            &&& (req.title matches Some(v) ==> r.title == v)
            &&& (req.title is None ==> r.title == x.title)
            &&& (req.content matches Some(v) ==> r.content == v)
            &&& (req.content is None ==> r.content == x.content)
            &&& (req.tags matches Some(v) ==> r.tags == Some(v))
            &&& (req.tags is None ==> r.tags == x.tags)
            &&& r.id == x.id
            &&& r.author_id == x.author_id
            &&& r.likes_count == x.likes_count
            &&& r.created_at == x.created_at
            &&& r.updated_at == now
        }),
{
}

/// Editing is idempotent: applying the same edit twice has the effect of
/// applying it once.
pub proof fn lemma_thread_update_idempotent(x: Thread, req: UpdateThreadRequest, now: Timestamp)
    ensures
        thread_after_update(thread_after_update(x, req, now), req, now) == thread_after_update(x, req, now),
{
}

/// An edit that gives no field only records the edit time.
pub proof fn lemma_thread_empty_update(x: Thread, req: UpdateThreadRequest, now: Timestamp)
    requires
        req.title is None && req.content is None && req.tags is None,
    ensures
        thread_after_update(x, req, now) == (Thread { updated_at: now, ..x }),
{
}

/// The comment after an edit: new content and edit time.
pub fn apply_comment_update(c: Comment, req: UpdateComment, now: Timestamp) -> (r: Comment)
    ensures
        r == (Comment { content: req.content, updated_at: now, ..c }),
        r.content == req.content,
        r.updated_at == now,
        r.id == c.id && r.thread_id == c.thread_id && r.author_id == c.author_id,
        r.likes_count == c.likes_count && r.created_at == c.created_at,
{
    Comment { content: req.content, updated_at: now, ..c }
}

// ---------------------------------------------------------------------------
// Likes
// ---------------------------------------------------------------------------

/// The counter a toggle starts from: the stored value, or 0 when unset.
pub open spec fn base_count(count: Option<i32>) -> int {
    match count {
        Some(c) => c as int,
        None => 0,
    }
}

/// Whether a toggle stays within the counter's range.
pub open spec fn toggle_in_range(liked: bool, count: Option<i32>) -> bool {
    if liked {
        base_count(count) - 1 >= i32::MIN
    } else {
        base_count(count) + 1 <= i32::MAX
    }
}

/// The effect of toggling a like: an existing like is removed and the
/// counter goes down by one; otherwise a like is added and the counter goes
/// up by one.
pub open spec fn toggled(liked: bool, count: Option<i32>) -> (bool, int) {
    if liked {
        (false, base_count(count) - 1)
    } else {
        (true, base_count(count) + 1)
    }
}

/// Toggles a like: returns whether the pair is liked afterwards and the new
/// value of the counter.
pub fn toggle_like(liked: bool, count: Option<i32>) -> (r: (bool, i32))
    requires
        toggle_in_range(liked, count),
    ensures
        r.0 == toggled(liked, count).0,
        r.1 as int == toggled(liked, count).1,
{
    let c: i32 = match count {
        Some(v) => v,
        None => 0,
    };
    if liked {
        (false, c - 1)
    } else {
        (true, c + 1)
    }
}

/// Toggling a like twice, starting from a stored counter, restores both the
/// like and the counter.
pub proof fn lemma_toggle_twice_restores(liked: bool, count: i32)
    requires
        toggle_in_range(liked, Some(count)),
    ensures
        ({
            let (l1, c1) = toggled(liked, Some(count));
            toggle_in_range(l1, Some(c1 as i32)) && toggled(l1, Some(c1 as i32)) == (liked, count as int)
        }),
{
}

/// Each toggle moves the counter by exactly one, up when a like is added and
/// down when one is removed.
pub proof fn lemma_toggle_moves_counter_by_one(liked: bool, count: Option<i32>)
    ensures
        toggled(liked, count).0 != liked,
        toggled(liked, count).0 ==> toggled(liked, count).1 == base_count(count) + 1,
        !toggled(liked, count).0 ==> toggled(liked, count).1 == base_count(count) - 1,
{
}

/// The counter keeps counting the likers. When it equals the number of
/// users who like an item, toggling one user's like adds or removes that
/// user, and the new counter equals the number of likers afterwards.
pub proof fn lemma_toggle_keeps_count(likers: Set<u128>, user: u128, count: i32)
    requires
        likers.finite(),
        count == likers.len(),
        toggle_in_range(likers.contains(user), Some(count)),
    ensures
        ({
            let (now_liked, c) = toggled(likers.contains(user), Some(count));
            let after = if now_liked {
                likers.insert(user)
            } else {
                likers.remove(user)
            };
            &&& after.contains(user) == now_liked
            &&& c == after.len()
        }),
{
}

} // verus!
