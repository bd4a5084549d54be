//! Request authentication for an HTTP API: password hashing, signed and
//! expiring access tokens, the authentication gate in front of protected routes, and the
//! login and registration use cases.

pub mod common;
pub mod config;
pub mod constants;
pub mod middleware;
pub mod models;
pub mod modules;
pub mod text;
