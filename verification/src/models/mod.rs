//! The records and request bodies of the platform, as plain values.

pub mod common;
pub mod community;
pub mod contact;
pub mod course;
pub mod notification;
pub mod post;
pub mod progress;
pub mod reference;
pub mod user;
