//! What the routes answer, from the results of the use cases.

use crate::common::{ErrorResponse, ResponseBody};
use crate::constants::EMPTY_STR;
use crate::modules::auth::dto::LoginResponse;
use vstd::prelude::*;

verus! {

/// The answer to a login request.
#[derive(Clone, Debug, PartialEq, Eq)]
pub enum LoginReply {
    /// Success: the body carries the token.
    Granted { body: ResponseBody<LoginResponse> },
    /// Failure: the error's status and a body with its message and no data.
    Refused { status: String, body: ResponseBody<String> },
}

/// The answer to a login request, from the result of the use case.
pub fn login(result: Result<String, ErrorResponse>) -> (reply: LoginReply)
    ensures
        match result {
            Ok(jwt) => reply matches LoginReply::Granted { body } && body.success && body.message@
                == EMPTY_STR@ && body.data.access_token@ == jwt@,
            Err(e) => reply matches LoginReply::Refused { status, body } && status@ == e.status@
                && !body.success && body.message@ == e.message@ && body.data@ == EMPTY_STR@,
        },
{
    match result {
        Ok(jwt) => LoginReply::Granted {
            body: ResponseBody::new(EMPTY_STR, LoginResponse { access_token: jwt }, true),
        },
        Err(e) => LoginReply::Refused {
            body: ResponseBody::new(e.message.as_str(), EMPTY_STR.to_owned(), false),
            status: e.status,
        },
    }
}

/// The body of the answer to a registration request, from the result of the
/// use case: the new id as its data, or the error's message and no data.
pub fn create(result: Result<String, ErrorResponse>) -> (body: ResponseBody<String>)
    ensures
        match result {
            Ok(id) => body.success && body.message@ == EMPTY_STR@ && body.data@ == id@,
            Err(e) => !body.success && body.message@ == e.message@ && body.data@ == EMPTY_STR@,
        },
{
    match result {
        Ok(id) => ResponseBody::new(EMPTY_STR, id, true),
        Err(e) => ResponseBody::new(e.message.as_str(), EMPTY_STR.to_owned(), false),
    }
}

} // verus!
