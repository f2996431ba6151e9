//! Core of a desktop client for a remote social platform: a login state
//! machine with per-account cookie persistence, and a read-through cache for
//! location metadata with synthetic sentinel entries.
//!
//! The crate holds the decision logic only. Network and file transfer live in
//! the surrounding application, which hands every remote reply to this crate
//! as a status code and a body.

pub mod api;
pub mod auth;
pub mod cookies;
pub mod errors;
pub mod json;
pub mod kvlist;
pub mod session;
pub mod text;
pub mod world;
