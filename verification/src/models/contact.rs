//! Contact inquiries.

use vstd::prelude::*;
use crate::models::common::Timestamp;

verus! {

/// A stored contact inquiry.
#[derive(Debug, Clone, PartialEq, Eq)]
pub struct Inquiry {
    pub id: u128,
    pub name: String,
    pub email: String,
    /// The kind of inquiry (architecture, training, ...).
    pub kind: String,
    pub message: String,
    pub created_at: Timestamp,
}

/// Body of a contact form submission.
#[derive(Debug, Clone, PartialEq, Eq)]
pub struct SubmitInquiryRequest {
    pub name: String,
    pub email: String,
    /// The kind of inquiry (architecture, training, ...).
    pub kind: String,
    pub message: String,
}

} // verus!
