//! Core rules of the RustEdu learning platform backend: identifiers,
//! request validation, course structure and prerequisites, progress and
//! certification, community threads and comments, notifications,
//! authentication helpers and the seeding of course content.

pub mod ids;
pub mod error;
pub mod models;
pub mod text;
pub mod course;
pub mod notification;
pub mod community;
pub mod progress;
pub mod auth;
pub mod validation;
pub mod handlers;
pub mod sql;
pub mod seed;
pub mod post;
pub mod user;
pub mod reference;
