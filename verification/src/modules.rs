//! The use cases, one module per area.

pub mod auth;
