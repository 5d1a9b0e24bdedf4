//! The answers of the endpoints that compute them without storage.

pub mod ai;
pub mod auth;
pub mod sandbox;
pub mod upload;
