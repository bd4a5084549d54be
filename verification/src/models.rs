//! What the credential store holds, and how it behaves.

pub mod store;
pub mod user;
