//! Reference links and contact inquiries: new records and edits.

use vstd::prelude::*;
use crate::models::common::Timestamp;
use crate::models::contact::{Inquiry, SubmitInquiryRequest};
use crate::models::reference::{CreateReference, Reference, UpdateReference};

verus! {

/// A newly added reference.
pub fn new_reference(id: u128, req: CreateReference, now: Timestamp) -> (r: Reference)
    ensures
        r.id == id,
        r.title == req.title,
        r.url == req.url,
        r.description == req.description,
        r.kind == req.kind,
        r.created_at == now,
        r.updated_at == now,
{
    Reference {
        id,
        title: req.title,
        url: req.url,
        description: req.description,
        kind: req.kind,
        created_at: now,
        updated_at: now,
    }
}

/// The reference after an edit (see `apply_reference_update`).
pub open spec fn reference_after_update(x: Reference, req: UpdateReference, now: Timestamp) -> Reference {
    Reference {
        title: match req.title { Some(v) => v, None => x.title },
        url: match req.url { Some(v) => v, None => x.url },
        description: match req.description { Some(v) => Some(v), None => x.description },
        kind: match req.kind { Some(v) => v, None => x.kind },
        updated_at: now,
        ..x
    }
}

/// The reference after an edit: title, address, description and type are
/// replaced where the request gives them, the edit time is recorded, and
/// every other field is kept.
pub fn apply_reference_update(r: Reference, req: UpdateReference, now: Timestamp) -> (out: Reference)
    ensures
        out == reference_after_update(r, req, now),
{
    let mut r = r;
    if let Some(t) = req.title {
        r.title = t;
    }
    if let Some(u) = req.url {
        r.url = u;
    }
    if let Some(d) = req.description {
        r.description = Some(d);
    }
    if let Some(k) = req.kind {
        r.kind = k;
    }
    r.updated_at = now;
    r
}

/// What a reference edit does to each field: a field the edit gives becomes
/// that value, a field it leaves out keeps its value, id and creation time
/// are never touched, and the edit time is recorded.
pub proof fn lemma_reference_update_fields(x: Reference, req: UpdateReference, now: Timestamp)
    ensures
        ({
            let r = reference_after_update(x, req, now);
            &&& (req.title matches Some(v) ==> r.title == v)
            &&& (req.title is None ==> r.title == x.title)
            &&& (req.url matches Some(v) ==> r.url == v)
            &&& (req.url is None ==> r.url == x.url)
            &&& (req.description matches Some(v) ==> r.description == Some(v))
            &&& (req.description is None ==> r.description == x.description)
            &&& (req.kind matches Some(v) ==> r.kind == v)
            &&& (req.kind is None ==> r.kind == x.kind)
            &&& r.id == x.id
            &&& r.created_at == x.created_at
            &&& r.updated_at == now
        }),
{
}

/// Editing is idempotent: applying the same edit twice has the effect of
/// applying it once.
pub proof fn lemma_reference_update_idempotent(x: Reference, req: UpdateReference, now: Timestamp)
    ensures
        reference_after_update(reference_after_update(x, req, now), req, now) == reference_after_update(x, req, now),
{
}

/// An edit that gives no field only records the edit time.
pub proof fn lemma_reference_empty_update(x: Reference, req: UpdateReference, now: Timestamp)
    requires
        req.title is None && req.url is None && req.description is None && req.kind is None,
    ensures
        reference_after_update(x, req, now) == (Reference { updated_at: now, ..x }),
{
}

/// A stored contact inquiry.
pub fn new_inquiry(id: u128, req: SubmitInquiryRequest, now: Timestamp) -> (i: Inquiry)
    ensures
        i == (Inquiry {
            id,
            name: req.name,
            email: req.email,
            kind: req.kind,
            message: req.message,
            created_at: now,
        }),
{
    Inquiry { id, name: req.name, email: req.email, kind: req.kind, message: req.message, created_at: now }
}

} // verus!
