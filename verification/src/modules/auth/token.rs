//! The token service: signed, expiring access tokens that name a subject.

use crate::common::{internal, invalid_token, outcome_view, ErrorResponse, ErrorView};
use crate::modules::auth::dto::{ClaimsView, TokenClaims};
use jsonwebtoken::{DecodingKey, EncodingKey, Header, Validation};
use vstd::prelude::*;

verus! {

/// Message of the error for claims that cannot be built or signed.
pub const MESSAGE_NOT_ISSUED: &'static str = "Token could not be issued";

/// The compact token that carries the claims `sub`, `iat` and `exp` under
/// the default header, signed with HMAC-SHA-256 under `secret`; `None` where
/// the signer fails.
pub uninterp spec fn hs256_token(sub: Seq<char>, iat: usize, exp: usize, secret: Seq<char>)
    -> Option<Seq<char>>;

/// The claims `(sub, iat, exp)` of a token that is well formed and signed
/// with HMAC-SHA-256 under `secret`; `None` for every other string. No clock
/// is read: whether the token has expired is not part of it.
pub uninterp spec fn hs256_claims(token: Seq<char>, secret: Seq<char>) -> Option<
    (Seq<char>, usize, usize),
>;

/// `jsonwebtoken::encode` with `Header::default()`, the three claims as a
/// JSON object and `EncodingKey::from_secret` on the secret's bytes. The
/// token depends on the four arguments alone. Decoding it under the same
/// secret gives the same three claims back: the signature is computed again
/// and compared, and the claims are read from the payload that was written.
#[verifier::external_body]
fn sign_claims(sub: &str, iat: usize, exp: usize, secret: &str) -> (token: Option<String>)
    ensures
        match token {
            Some(t) => hs256_token(sub@, iat, exp, secret@) == Some(t@),
            None => hs256_token(sub@, iat, exp, secret@) is None,
        },
        token matches Some(t) ==> hs256_claims(t@, secret@) == Some((sub@, iat, exp)),
{
    let mut claims = serde_json::Map::new();
    claims.insert("exp".to_owned(), serde_json::Value::from(exp));
    claims.insert("iat".to_owned(), serde_json::Value::from(iat));
    claims.insert("sub".to_owned(), serde_json::Value::from(sub));
    let key = EncodingKey::from_secret(secret.as_bytes());
    jsonwebtoken::encode(&Header::default(), &claims, &key).ok()
}

/// `jsonwebtoken::decode` with `DecodingKey::from_secret` on the secret's
/// bytes and the default validation without its check of `exp` against the
/// clock, so that the result depends on the two arguments alone. The claims
/// come back where the token has three parts, an HS256 header, the right
/// signature, and a payload with a string `sub` and whole numbers `iat` and
/// `exp`; `None` otherwise.
#[verifier::external_body]
fn read_claims(token: &str, secret: &str) -> (claims: Option<TokenClaims>)
    ensures
        match claims {
            Some(c) => hs256_claims(token@, secret@) == Some((c.sub@, c.iat, c.exp)),
            None => hs256_claims(token@, secret@) is None,
        },
{
    let mut validation = Validation::default();
    validation.validate_exp = false;
    let key = DecodingKey::from_secret(secret.as_bytes());
    let claims = jsonwebtoken::decode::<serde_json::Value>(token, &key, &validation).ok()?.claims;
    let sub = claims.get("sub")?.as_str()?.to_owned();
    let iat = usize::try_from(claims.get("iat")?.as_u64()?).ok()?;
    let exp = usize::try_from(claims.get("exp")?.as_u64()?).ok()?;
    Some(TokenClaims { sub, iat, exp })
}

/// The clock: `chrono::Utc::now().timestamp()`, seconds since the epoch.
/// Nothing is claimed of the value.
#[verifier::external_body]
pub(crate) fn unix_now() -> (now: usize) {
    chrono::Utc::now().timestamp() as usize
}

/// When a token issued at `now` for `lifetime_minutes` expires.
pub open spec fn expiry(now: usize, lifetime_minutes: i32) -> int {
    now + 60 * lifetime_minutes
}

/// The claims of a token issued to `subject` at `now`, where its expiry can
/// be represented.
pub open spec fn claims_at(subject: Seq<char>, now: usize, lifetime_minutes: i32) -> Option<
    ClaimsView,
> {
    if expiry(now, lifetime_minutes) <= usize::MAX {
        Some(ClaimsView { sub: subject, iat: now, exp: expiry(now, lifetime_minutes) as usize })
    } else {
        None
    }
}

/// The token issued to `subject` at `now`, where there is one.
pub open spec fn issued(subject: Seq<char>, now: usize, lifetime_minutes: i32, secret: Seq<char>)
    -> Option<Seq<char>> {
    match claims_at(subject, now, lifetime_minutes) {
        Some(c) => hs256_token(c.sub, c.iat, c.exp, secret),
        None => None,
    }
}

/// What verification answers at `now` for what a token decodes to: the
/// subject while the token has not expired, and one and the same error for a
/// token that does not decode and for one that has expired.
pub open spec fn current_subject(claims: Option<(Seq<char>, usize, usize)>, now: usize) -> Result<
    Seq<char>,
    ErrorView,
> {
    match claims {
        Some((sub, iat, exp)) => if now < exp {
            Ok(sub)
        } else {
            Err(invalid_token())
        },
        None => Err(invalid_token()),
    }
}

/// The claims of a token issued to `subject` at `now`: it expires
/// `lifetime_minutes` later, which is after it was issued. `None` where that
/// time cannot be represented.
pub fn claims_for(subject: &str, now: usize, lifetime_minutes: i32) -> (claims: Option<TokenClaims>)
    requires
        lifetime_minutes > 0,
    ensures
        match claims {
            Some(c) => claims_at(subject@, now, lifetime_minutes) == Some(c@) && c.exp > c.iat,
            None => claims_at(subject@, now, lifetime_minutes) is None,
        },
{
    let minutes: usize = lifetime_minutes as usize;
    match minutes.checked_mul(60) {
        Some(seconds) => match now.checked_add(seconds) {
            Some(exp) => Some(TokenClaims { sub: subject.to_owned(), iat: now, exp }),
            None => None,
        },
        None => None,
    }
}

/// Issues a token to `subject` at `now`, signed under `secret`. The token is
/// the signed form of the claims, and until it expires verification under
/// the same secret answers with `subject`.
pub fn issue(subject: &str, now: usize, lifetime_minutes: i32, secret: &str) -> (token: Result<
    String,
    ErrorResponse,
>)
    requires
        lifetime_minutes > 0,
    ensures
        outcome_view(token) == match issued(subject@, now, lifetime_minutes, secret@) {
            Some(t) => Ok::<Seq<char>, ErrorView>(t),
            None => Err(internal(MESSAGE_NOT_ISSUED@)),
        },
        token matches Ok(t) ==> forall|at: usize|
            at < expiry(now, lifetime_minutes) ==> #[trigger] current_subject(
                hs256_claims(t@, secret@),
                at,
            ) == Ok::<Seq<char>, ErrorView>(subject@),
{
    match claims_for(subject, now, lifetime_minutes) {
        Some(claims) => match sign_claims(claims.sub.as_str(), claims.iat, claims.exp, secret) {
            Some(token) => Ok(token),
            None => Err(ErrorResponse::internal(MESSAGE_NOT_ISSUED.to_owned())),
        },
        None => Err(ErrorResponse::internal(MESSAGE_NOT_ISSUED.to_owned())),
    }
}

/// What verification answers at `now` for the claims that a token decoded
/// to, or for a token that did not decode.
pub fn subject_if_current(claims: Option<TokenClaims>, now: usize) -> (subject: Result<
    String,
    ErrorResponse,
>)
    ensures
        outcome_view(subject) == current_subject(
            match claims {
                Some(c) => Some((c.sub@, c.iat, c.exp)),
                None => None,
            },
            now,
        ),
{
    match claims {
        Some(c) => if now < c.exp {
            Ok(c.sub)
        } else {
            Err(ErrorResponse::invalid_token())
        },
        None => Err(ErrorResponse::invalid_token()),
    }
}

/// Verifies `token` at `now` under `secret`: the subject where the token is
/// well formed, rightly signed and not yet expired, and the one error
/// otherwise.
pub fn verify(token: &str, now: usize, secret: &str) -> (subject: Result<String, ErrorResponse>)
    ensures
        outcome_view(subject) == current_subject(hs256_claims(token@, secret@), now),
        subject is Ok <==> (hs256_claims(token@, secret@) matches Some(c) && now < c.2),
{
    subject_if_current(read_claims(token, secret), now)
}

} // verus!
