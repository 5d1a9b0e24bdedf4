//! Live events pushed to connected users, and stored notifications.

use vstd::prelude::*;
use crate::models::common::Timestamp;
use crate::models::notification::{CreateNotification, Notification};

verus! {

/// An event pushed over the live notification stream.
#[derive(Debug, Clone, PartialEq, Eq)]
pub enum NotificationEvent {
    /// A comment was added to a thread.
    NewReply { thread_id: u128, comment_id: u128 },
    /// A thread was opened.
    NewThread { thread_id: u128 },
    /// A user earned the certification of a course.
    AchievementUnlocked { course_id: u128 },
    /// A message from the platform.
    SystemAlert { message: String },
}

/// An event together with its audience.
#[derive(Debug, Clone, PartialEq, Eq)]
pub struct NotificationMessage {
    /// The one user the event is for; `None` sends it to everyone.
    pub user_id: Option<u128>,
    pub event: NotificationEvent,
}

/// Whether a connected user receives a message: a message without a target
/// goes to everyone, a targeted one only to its target.
pub open spec fn receives(msg: NotificationMessage, user: u128) -> bool {
    match msg.user_id {
        None => true,
        Some(target) => target == user,
    }
}

/// Decides whether the live stream of `user` carries `msg`.
pub fn delivers_to(msg: &NotificationMessage, user: u128) -> (r: bool)
    ensures
        r == receives(*msg, user),
{
    match msg.user_id {
        Some(target) => target == user,
        None => true,
    }
}

/// A targeted message reaches its target and no one else.
pub proof fn lemma_targeted_message_reaches_only_target(msg: NotificationMessage, target: u128, other: u128)
    requires
        msg.user_id == Some(target),
        other != target,
    ensures
        receives(msg, target),
        !receives(msg, other),
{
}

/// A message without a target reaches every user.
pub proof fn lemma_broadcast_reaches_everyone(msg: NotificationMessage, user: u128)
    requires
        msg.user_id is None,
    ensures
        receives(msg, user),
{
}

/// A newly stored notification: unread, created now.
pub fn new_notification(id: u128, req: CreateNotification, now: Timestamp) -> (n: Notification)
    ensures
        n.id == id,
        n.user_id == req.user_id,
        n.kind == req.kind,
        n.title == req.title,
        n.content == req.content,
        n.is_read == Some(false),
        n.created_at == now,
{
    Notification {
        id,
        user_id: req.user_id,
        kind: req.kind,
        title: req.title,
        content: req.content,
        is_read: Some(false),
        created_at: now,
    }
}

/// A notification once read; everything else is kept.
pub fn mark_read(n: Notification) -> (r: Notification)
    ensures
        r == (Notification { is_read: Some(true), ..n }),
{
    Notification { is_read: Some(true), ..n }
}

/// Whether a looked-up notification may be marked read by `user`: only the
/// user it belongs to may.
pub fn owned_notification(found: Option<Notification>, user: u128) -> (r: Option<Notification>)
    ensures
        r == (match found {
            Some(n) => if n.user_id == user { Some(n) } else { None },
            None => None,
        }),
{
    match found {
        Some(n) => {
            if n.user_id == user {
                Some(n)
            } else {
                None
            }
        },
        None => None,
    }
}

} // verus!
