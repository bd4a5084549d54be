//! The authentication gate: which requests reach a route, and as whom.

use crate::common::{ErrorResponse, ResponseBody};
use crate::constants::{
    EMPTY_STR, MESSAGE_INVALID_TOKEN, METHOD_OPTIONS, ROUTE_LOGIN, ROUTE_PING, ROUTE_SIGNUP,
};
use crate::modules::auth::token::{current_subject, hs256_claims, unix_now, verify};
use crate::text::{chars_of, same_text, starts_with, trim_bounds, trimmed};
use vstd::prelude::*;

verus! {

/// The authentication gate. It keeps nothing between requests.
pub struct Authentication;

/// What the authentication gate decides for one request.
#[derive(Clone, Debug, PartialEq, Eq)]
pub enum Admission {
    /// The request goes on to its route. `subject` names the user whose
    /// token it carried; an exempt request has none.
    Pass { subject: Option<String> },
    /// The request ends here, with the body of [`Authentication::rejection`].
    Reject,
}

/// What specifications say of an [`Admission`].
pub enum AdmissionView {
    Pass { subject: Option<Seq<char>> },
    Reject,
}

impl View for Admission {
    type V = AdmissionView;

    open spec fn view(&self) -> AdmissionView {
        match self {
            Admission::Pass { subject: Some(s) } => AdmissionView::Pass { subject: Some(s@) },
            Admission::Pass { subject: None } => AdmissionView::Pass { subject: None },
            Admission::Reject => AdmissionView::Reject,
        }
    }
}

/// What specifications say of a header that may be absent.
pub open spec fn header_view(header: Option<&str>) -> Option<Seq<char>> {
    match header {
        Some(value) => Some(value@),
        None => None,
    }
}

/// Whether `path` lies under one of the routes that need no token.
pub open spec fn is_bypassed(path: Seq<char>) -> bool {
    ||| ROUTE_PING@.is_prefix_of(path)
    ||| ROUTE_SIGNUP@.is_prefix_of(path)
    ||| ROUTE_LOGIN@.is_prefix_of(path)
}

/// Whether a request passes without a look at its headers: a pre-flight
/// request, or one to a bypassed route.
pub open spec fn is_exempt(method: Seq<char>, path: Seq<char>) -> bool {
    method == METHOD_OPTIONS@ || is_bypassed(path)
}

/// Whether a header value begins with `Bearer` in any mix of upper and lower
/// case, followed by one space.
pub open spec fn has_bearer_scheme(header: Seq<char>) -> bool {
    &&& header.len() >= 7
    &&& (header[0] == 'b' || header[0] == 'B')
    &&& (header[1] == 'e' || header[1] == 'E')
    &&& (header[2] == 'a' || header[2] == 'A')
    &&& (header[3] == 'r' || header[3] == 'R')
    &&& (header[4] == 'e' || header[4] == 'E')
    &&& (header[5] == 'r' || header[5] == 'R')
    &&& header[6] == ' '
}

/// The token that a header value carries: what follows the scheme, trimmed.
pub open spec fn bearer_token(header: Seq<char>) -> Option<Seq<char>> {
    if has_bearer_scheme(header) {
        Some(trimmed(header.skip(7)))
    } else {
        None
    }
}

/// The authentication gate's decision for a request that is not exempt, from its
/// `Authorization` header and what its token decodes to.
pub open spec fn admission_by_token(
    claims: Option<(Seq<char>, usize, usize)>,
    now: usize,
) -> AdmissionView {
    match current_subject(claims, now) {
        Ok(subject) => AdmissionView::Pass { subject: Some(subject) },
        Err(_) => AdmissionView::Reject,
    }
}

/// The authentication gate's decision at `now`.
pub open spec fn admission(
    method: Seq<char>,
    path: Seq<char>,
    authorization: Option<Seq<char>>,
    secret: Seq<char>,
    now: usize,
) -> AdmissionView {
    if is_exempt(method, path) {
        AdmissionView::Pass { subject: None }
    } else {
        match authorization {
            Some(header) => match bearer_token(header) {
                Some(token) => admission_by_token(hs256_claims(token, secret), now),
                None => AdmissionView::Reject,
            },
            None => AdmissionView::Reject,
        }
    }
}

/// A request to the login route passes, whatever its method and headers.
pub proof fn lemma_login_route_passes(
    method: Seq<char>,
    rest: Seq<char>,
    authorization: Option<Seq<char>>,
    secret: Seq<char>,
    now: usize,
)
    ensures
        admission(method, ROUTE_LOGIN@ + rest, authorization, secret, now) == (AdmissionView::Pass {
            subject: None,
        }),
{
    let path = ROUTE_LOGIN@ + rest;
    assert(path.subrange(0, ROUTE_LOGIN@.len() as int) =~= ROUTE_LOGIN@);
}

/// A request that is not exempt is rejected when it has no `Authorization`
/// header, when the header carries no bearer token, and when the token does
/// not decode or has expired.
pub proof fn lemma_unauthenticated_is_rejected(
    method: Seq<char>,
    path: Seq<char>,
    authorization: Option<Seq<char>>,
    secret: Seq<char>,
    now: usize,
)
    requires
        !is_exempt(method, path),
        authorization matches Some(header) ==> (bearer_token(header) matches Some(token) ==> (
        hs256_claims(token, secret) matches Some(claims) ==> now >= claims.2)),
    ensures
        admission(method, path, authorization, secret, now) == AdmissionView::Reject,
{
}

/// A request passes exactly when it is exempt or carries a token that
/// verifies at `now`; the subject it passes as is the token's.
pub proof fn lemma_pass_needs_exemption_or_token(
    method: Seq<char>,
    path: Seq<char>,
    authorization: Option<Seq<char>>,
    secret: Seq<char>,
    now: usize,
)
    ensures
        admission(method, path, authorization, secret, now) is Pass <==> is_exempt(method, path) || (
        authorization matches Some(header) && bearer_token(header) matches Some(token)
            && hs256_claims(token, secret) matches Some(c) && now < c.2),
        !is_exempt(method, path) ==> (admission(method, path, authorization, secret, now)
            matches AdmissionView::Pass { subject } ==> authorization matches Some(header)
            && bearer_token(header) matches Some(token) && hs256_claims(token, secret) matches Some(
            claims,
        ) && subject == Some(claims.0)),
{
}

/// The token that the value of an `Authorization` header carries, if it
/// carries one.
pub fn bearer_token_of(header: &str) -> (token: Option<String>)
    ensures
        match token {
            Some(t) => bearer_token(header@) == Some(t@),
            None => bearer_token(header@) is None,
        },
{
    let chars = chars_of(header);
    if chars.len() < 7 {
        return None;
    }
    let scheme = (chars[0] == 'b' || chars[0] == 'B') && (chars[1] == 'e' || chars[1] == 'E') && (
    chars[2] == 'a' || chars[2] == 'A') && (chars[3] == 'r' || chars[3] == 'R') && (chars[4] == 'e'
        || chars[4] == 'E') && (chars[5] == 'r' || chars[5] == 'R') && chars[6] == ' ';
    if !scheme {
        return None;
    }
    let (start, end) = trim_bounds(&chars, 7);
    Some(header.substring_char(start, end).to_owned())
}

impl Authentication {
    /// Whether a request passes without a look at its headers.
    pub fn exempt(method: &str, path: &str) -> (exempt: bool)
        ensures
            exempt == is_exempt(method@, path@),
    {
        if same_text(&chars_of(method), &chars_of(METHOD_OPTIONS)) {
            return true;
        }
        let path = chars_of(path);
        starts_with(&path, &chars_of(ROUTE_PING)) || starts_with(&path, &chars_of(ROUTE_SIGNUP))
            || starts_with(&path, &chars_of(ROUTE_LOGIN))
    }

    /// The decision for a request that is not exempt, once its token has
    /// been verified or found wanting.
    pub fn admission_of(verified: Result<String, ErrorResponse>) -> (admission: Admission)
        ensures
            admission@ == match verified {
                Ok(subject) => AdmissionView::Pass { subject: Some(subject@) },
                Err(_) => AdmissionView::Reject,
            },
    {
        match verified {
            Ok(subject) => Admission::Pass { subject: Some(subject) },
            Err(_) => Admission::Reject,
        }
    }

    /// The authentication gate's decision at `now` for a request with this method, path and
    /// `Authorization` header, under the signing secret.
    pub fn check(
        method: &str,
        path: &str,
        authorization: Option<&str>,
        jwt_secret: &str,
        now: usize,
    ) -> (admission: Admission)
        ensures
            admission@ == self::admission(
                method@,
                path@,
                header_view(authorization),
                jwt_secret@,
                now,
            ),
    {
        if Self::exempt(method, path) {
            return Admission::Pass { subject: None };
        }
        match authorization {
            Some(header) => match bearer_token_of(header) {
                Some(token) => Self::admission_of(verify(token.as_str(), now, jwt_secret)),
                None => Admission::Reject,
            },
            None => Admission::Reject,
        }
    }

    /// The authentication gate's decision now. It is the decision of [`Authentication::check`]
    /// at the time that the clock gave.
    pub fn call(method: &str, path: &str, authorization: Option<&str>, jwt_secret: &str) -> (admission:
        Admission)
        ensures
            exists|now: usize|
                admission@ == #[trigger] self::admission(
                    method@,
                    path@,
                    header_view(authorization),
                    jwt_secret@,
                    now,
                ),
    {
        Self::check(method, path, authorization, jwt_secret, unix_now())
    }

    /// The body that every rejected request gets: no success, the one fixed
    /// message, and no data.
    pub fn rejection() -> (body: ResponseBody<String>)
        ensures
            !body.success,
            body.message@ == MESSAGE_INVALID_TOKEN@,
            body.data@ == EMPTY_STR@,
    {
        ResponseBody::new(MESSAGE_INVALID_TOKEN, EMPTY_STR.to_owned(), false)
    }
}

} // verus!
