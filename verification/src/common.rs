//! Shapes shared by every response.

use vstd::prelude::*;

verus! {

/// A failed use case: an HTTP status in decimal and a message for the client.
#[derive(Debug, Clone, PartialEq, Eq)]
pub struct ErrorResponse {
    pub status: String,
    pub message: String,
}

/// What specifications say of an [`ErrorResponse`].
pub struct ErrorView {
    pub status: Seq<char>,
    pub message: Seq<char>,
}

impl View for ErrorResponse {
    type V = ErrorView;

    open spec fn view(&self) -> ErrorView {
        ErrorView { status: self.status@, message: self.message@ }
    }
}

/// Status of a request that was not authenticated.
pub const STATUS_UNAUTHORIZED: &'static str = "401";

/// Status of a registration for a username that is taken.
pub const STATUS_CONFLICT: &'static str = "400";

/// Status of a fault that the client did not cause.
pub const STATUS_INTERNAL: &'static str = "500";

/// Message of a login with a wrong username or password.
pub const MESSAGE_UNAUTHORIZED: &'static str = "Unauthorize";

/// Message of a registration for a username that is taken.
pub const MESSAGE_USER_EXISTS: &'static str = "User exist";

/// Bad credentials: the same error for an unknown user and a wrong password.
pub open spec fn unauthorized() -> ErrorView {
    ErrorView { status: STATUS_UNAUTHORIZED@, message: MESSAGE_UNAUTHORIZED@ }
}

/// A token that is malformed, wrongly signed or expired: one error for all.
pub open spec fn invalid_token() -> ErrorView {
    ErrorView { status: STATUS_UNAUTHORIZED@, message: crate::constants::MESSAGE_INVALID_TOKEN@ }
}

/// The username is already registered.
pub open spec fn conflict() -> ErrorView {
    ErrorView { status: STATUS_CONFLICT@, message: MESSAGE_USER_EXISTS@ }
}

/// A fault of the store, the hasher or the signer, with its text.
pub open spec fn internal(message: Seq<char>) -> ErrorView {
    ErrorView { status: STATUS_INTERNAL@, message }
}

/// What specifications say of a use case's result.
pub open spec fn outcome_view(r: Result<String, ErrorResponse>) -> Result<Seq<char>, ErrorView> {
    match r {
        Ok(text) => Ok(text@),
        Err(e) => Err(e@),
    }
}

impl ErrorResponse {
    pub fn unauthorized() -> (e: ErrorResponse)
        ensures
            e@ == unauthorized(),
    {
        ErrorResponse {
            status: STATUS_UNAUTHORIZED.to_owned(),
            message: MESSAGE_UNAUTHORIZED.to_owned(),
        }
    }

    pub fn invalid_token() -> (e: ErrorResponse)
        ensures
            e@ == invalid_token(),
    {
        ErrorResponse {
            status: STATUS_UNAUTHORIZED.to_owned(),
            message: crate::constants::MESSAGE_INVALID_TOKEN.to_owned(),
        }
    }

    pub fn conflict() -> (e: ErrorResponse)
        ensures
            e@ == conflict(),
    {
        ErrorResponse {
            status: STATUS_CONFLICT.to_owned(),
            message: MESSAGE_USER_EXISTS.to_owned(),
        }
    }

    pub fn internal(message: String) -> (e: ErrorResponse)
        ensures
            e@ == internal(message@),
    {
        ErrorResponse { status: STATUS_INTERNAL.to_owned(), message }
    }
}

/// The envelope of every response body.
#[derive(Debug, Clone, PartialEq, Eq)]
pub struct ResponseBody<T> {
    pub success: bool,
    pub message: String,
    pub data: T,
}

impl<T> ResponseBody<T> {
    pub fn new(message: &str, data: T, success: bool) -> (body: ResponseBody<T>)
        ensures
            body.message@ == message@,
            body.data == data,
            body.success == success,
    {
        ResponseBody { message: message.to_owned(), data, success }
    }
}

/// One page of a listing.
#[derive(Debug, Clone, PartialEq, Eq)]
pub struct Page<T> {
    pub message: String,
    pub data: Vec<T>,
    pub page_num: i64,
    pub page_size: i64,
    pub total_elements: i64,
}

impl<T> Page<T> {
    pub fn new(
        message: &str,
        data: Vec<T>,
        page_num: i64,
        page_size: i64,
        total_elements: i64,
    ) -> (page: Page<T>)
        ensures
            page.message@ == message@,
            page.data == data,
            page.page_num == page_num,
            page.page_size == page_size,
            page.total_elements == total_elements,
    {
        Page { message: message.to_owned(), data, page_num, page_size, total_elements }
    }
}

} // verus!
