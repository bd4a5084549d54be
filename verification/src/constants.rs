//! Values fixed for the whole process.

use vstd::prelude::*;

verus! {

/// Liveness check; exempt from the authentication gate.
pub const ROUTE_PING: &'static str = "/api/ping";

/// Registration; exempt from the authentication gate.
pub const ROUTE_SIGNUP: &'static str = "/api/auth/signup";

/// Login; exempt from the authentication gate.
pub const ROUTE_LOGIN: &'static str = "/api/auth/login";

/// Default number of items per page.
pub const DEFAULT_PER_PAGE: i64 = 10;

/// Default page number.
pub const DEFAULT_PAGE_NUM: i64 = 1;

pub const EMPTY_STR: &'static str = "";

/// Name of the header that carries the bearer token.
pub const AUTHORIZATION: &'static str = "Authorization";

/// The one message every rejected request gets, whatever the cause.
pub const MESSAGE_INVALID_TOKEN: &'static str = "Invalid token, please login again";

/// Method of a pre-flight request, which the authentication gate lets through.
pub const METHOD_OPTIONS: &'static str = "OPTIONS";

} // verus!
