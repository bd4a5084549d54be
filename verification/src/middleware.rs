//! What stands between a request and the routes.

pub mod authentication;
