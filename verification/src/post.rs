//! Blog posts: list entries and editing.

use vstd::prelude::*;
use crate::models::common::Timestamp;
use crate::models::post::{CreatePost, Post, PostSummary, UpdatePost};

verus! {

/// The list entry of a post: everything but its content and timestamps.
pub fn post_summary(p: Post) -> (s: PostSummary)
    ensures
        s.id == p.id,
        s.title == p.title,
        s.image_url == p.image_url,
        s.tags == p.tags,
        s.author_id == p.author_id,
        s.published_at == p.published_at,
{
    PostSummary {
        id: p.id,
        title: p.title,
        image_url: p.image_url,
        tags: p.tags,
        author_id: p.author_id,
        published_at: p.published_at,
    }
}

/// A newly written post of an author.
pub fn new_post(id: u128, author_id: u128, req: CreatePost, now: Timestamp) -> (p: Post)
    ensures
        p.id == id,
        p.title == req.title,
        p.content == req.content,
        p.image_url == req.image_url,
        p.tags == req.tags,
        p.author_id == Some(author_id),
        p.published_at == req.published_at,
        p.created_at == now,
        p.updated_at == now,
{
    Post {
        id,
        title: req.title,
        content: req.content,
        image_url: req.image_url,
        tags: req.tags,
        author_id: Some(author_id),
        published_at: req.published_at,
        created_at: now,
        updated_at: now,
    }
}

/// The post after an edit (see `apply_post_update`).
pub open spec fn post_after_update(x: Post, req: UpdatePost, now: Timestamp) -> Post {
    Post {
        title: match req.title { Some(v) => v, None => x.title },
        content: match req.content { Some(v) => v, None => x.content },
        published_at: match req.published_at { Some(v) => Some(v), None => x.published_at },
        updated_at: now,
        ..x
    }
}

/// The post after an edit: title, content and publication time are
/// replaced where the request gives them, the edit time is recorded, and
/// every other field is kept.
pub fn apply_post_update(p: Post, req: UpdatePost, now: Timestamp) -> (r: Post)
    ensures
        r == post_after_update(p, req, now),
{
    let mut p = p;
    if let Some(t) = req.title {
        p.title = t;
    }
    if let Some(c) = req.content {
        p.content = c;
    }
    if let Some(t) = req.published_at {
        p.published_at = Some(t);
    }
    p.updated_at = now;
    p
}

/// What a post edit does to each field: a field the edit gives becomes that
/// value, a field it leaves out keeps its value, image, tags, author and
/// creation time are never touched, and the edit time is recorded.
pub proof fn lemma_post_update_fields(x: Post, req: UpdatePost, now: Timestamp)
    ensures
        ({
            let r = post_after_update(x, req, now);
            &&& (req.title matches Some(v) ==> r.title == v)
            &&& (req.title is None ==> r.title == x.title)
            &&& (req.content matches Some(v) ==> r.content == v)
            &&& (req.content is None ==> r.content == x.content)
            &&& (req.published_at matches Some(v) ==> r.published_at == Some(v))
            &&& (req.published_at is None ==> r.published_at == x.published_at)
            &&& r.id == x.id
            &&& r.image_url == x.image_url
            &&& r.tags == x.tags
            &&& r.author_id == x.author_id
            &&& r.created_at == x.created_at
            &&& r.updated_at == now
        }),
{
}

/// Editing is idempotent: applying the same edit twice has the effect of
/// applying it once.
pub proof fn lemma_post_update_idempotent(x: Post, req: UpdatePost, now: Timestamp)
    ensures
        post_after_update(post_after_update(x, req, now), req, now) == post_after_update(x, req, now),
{
}

/// An edit that gives no field only records the edit time.
pub proof fn lemma_post_empty_update(x: Post, req: UpdatePost, now: Timestamp)
    requires
        req.title is None && req.content is None && req.image_url is None && req.tags is None && req.published_at is None,
    ensures
        post_after_update(x, req, now) == (Post { updated_at: now, ..x }),
{
}

} // verus!
