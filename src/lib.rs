//! Core of a shortlink service: an immutable table from short keys to target
//! URLs, with a root key also served at `/`, and the reply to each request.

pub mod handler;
pub mod table;
