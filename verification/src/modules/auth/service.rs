//! The use cases: registration, login, and finding out whom a token names.
//!
//! The credential store is reached by the caller. A use case takes what the
//! store answered and says what to do next.

use crate::common::{
    conflict, internal, invalid_token, outcome_view, unauthorized, ErrorResponse, ErrorView,
};
use crate::models::user::{User, UserView};
use crate::modules::auth::dto::{LoginDto, LoginView, UserDto, UserDtoView};
use crate::modules::auth::password;
use crate::modules::auth::password::{argon2_accepts, argon2_hash, HashedPassword};
use crate::modules::auth::token;
use crate::modules::auth::token::{
    current_subject, expiry, hs256_claims, issued, unix_now, MESSAGE_NOT_ISSUED,
};
use vstd::prelude::*;

verus! {

/// Message of the error for a password that could not be hashed.
pub const MESSAGE_NOT_HASHED: &'static str = "Password could not be hashed";

/// The code by which the store reports that a unique index was violated.
pub const DUPLICATE_KEY: i32 = 11000;

/// What the store answered to an insert.
#[derive(Clone, Debug, PartialEq, Eq)]
pub enum InsertOutcome {
    /// The record is stored under `id`.
    Inserted { id: String },
    /// The record is not stored. `code` is the store's error code, where it
    /// gave one, and `message` its text.
    Failed { code: Option<i32>, message: String },
}

/// What specifications say of a record that may be absent.
pub open spec fn record_view(record: Option<User>) -> Option<UserView> {
    match record {
        Some(user) => Some(user@),
        None => None,
    }
}

/// The record that registration builds for a request: the request's
/// attributes, no id yet, the salt, and the hash of the request's password
/// under that salt.
pub open spec fn entity_of(dto: UserDtoView, hash: Seq<char>, salt: Seq<char>) -> UserView {
    UserView {
        id: None,
        first_name: dto.first_name,
        last_name: dto.last_name,
        username: dto.username,
        email: dto.email,
        password: hash,
        salt_nonce: salt,
    }
}

/// Whether `entity` is a record that registration may build for `dto`: the
/// record of `dto` with a hash of its password that verifies against it.
pub open spec fn registers(dto: UserDtoView, entity: UserView) -> bool {
    &&& entity == entity_of(dto, entity.password, entity.salt_nonce)
    &&& argon2_hash(dto.password, entity.salt_nonce) == Some(entity.password)
    &&& argon2_accepts(dto.password, entity.password)
}

/// Whether a login is accepted: the user is known and the password verifies
/// against the stored hash.
pub open spec fn credentials_accepted(params: LoginView, user_db: Option<UserView>) -> bool {
    user_db matches Some(user) && argon2_accepts(params.password, user.password)
}

/// What a login at `now` answers once the credentials have been judged:
/// a token for the subject, or the one error for every refusal.
pub open spec fn grant_outcome(
    is_valid: bool,
    subject: Seq<char>,
    now: usize,
    lifetime_minutes: i32,
    secret: Seq<char>,
) -> Result<Seq<char>, ErrorView> {
    if is_valid {
        match issued(subject, now, lifetime_minutes, secret) {
            Some(token) => Ok(token),
            None => Err(internal(MESSAGE_NOT_ISSUED@)),
        }
    } else {
        Err(unauthorized())
    }
}

/// What a login at `now` answers.
pub open spec fn login_outcome(
    params: LoginView,
    user_db: Option<UserView>,
    secret: Seq<char>,
    lifetime_minutes: i32,
    now: usize,
) -> Result<Seq<char>, ErrorView> {
    match user_db {
        Some(user) => grant_outcome(
            argon2_accepts(params.password, user.password),
            user.id->0,
            now,
            lifetime_minutes,
            secret,
        ),
        None => Err(unauthorized()),
    }
}

/// What registration answers to the store's reply to the insert.
pub open spec fn created_outcome(outcome: InsertOutcome) -> Result<Seq<char>, ErrorView> {
    match outcome {
        InsertOutcome::Inserted { id } => Ok(id@),
        InsertOutcome::Failed { code, message } => if code == Some(DUPLICATE_KEY) {
            Err(conflict())
        } else {
            Err(internal(message@))
        },
    }
}

/// The record to insert for a request whose username is free, from what the
/// hasher gave.
pub fn entity_for(user_dto: UserDto, hashed: Option<HashedPassword>) -> (entity: Result<
    User,
    ErrorResponse,
>)
    ensures
        match hashed {
            Some(h) => entity matches Ok(user) && user@ == entity_of(user_dto@, h.hash@, h.salt@),
            None => entity matches Err(e) && e@ == internal(MESSAGE_NOT_HASHED@),
        },
{
    match hashed {
        Some(h) => Ok(
            User {
                id: None,
                username: user_dto.username,
                email: user_dto.email,
                first_name: user_dto.first_name,
                last_name: user_dto.last_name,
                password: h.hash,
                salt_nonce: h.salt,
            },
        ),
        None => Err(ErrorResponse::internal(MESSAGE_NOT_HASHED.to_owned())),
    }
}

/// Registration, after the store was asked for the request's username.
/// `existing` is what it found. A username that is taken is a conflict, and
/// nothing is to be stored. Otherwise the answer is the record to insert,
/// which holds a fresh hash of the password and never the password; the
/// store's reply to the insert goes to [`created`].
pub fn create_user(user_dto: UserDto, existing: Option<User>) -> (entity: Result<
    User,
    ErrorResponse,
>)
    ensures
        existing is Some ==> (entity matches Err(e) && e@ == conflict()),
        existing is None ==> match entity {
            Ok(user) => registers(user_dto@, user@),
            Err(e) => e@ == internal(MESSAGE_NOT_HASHED@),
        },
{
    match existing {
        Some(_) => Err(ErrorResponse::conflict()),
        None => {
            let hashed = password::hash(user_dto.password.as_str());
            entity_for(user_dto, hashed)
        },
    }
}

/// Registration, after the store was asked to insert the record: the new
/// id, a conflict where the store found the username taken after all, and
/// the store's own text for any other failure.
pub fn created(outcome: InsertOutcome) -> (id: Result<String, ErrorResponse>)
    ensures
        outcome_view(id) == created_outcome(outcome),
{
    match outcome {
        InsertOutcome::Inserted { id } => Ok(id),
        InsertOutcome::Failed { code, message } => match code {
            Some(DUPLICATE_KEY) => Err(ErrorResponse::conflict()),
            _ => Err(ErrorResponse::internal(message)),
        },
    }
}

/// Whether the password of a login verifies against the record that the
/// store found for its username. An unknown user and a wrong password are
/// both answered with `false`.
pub fn credentials_match(params: &LoginDto, user_db: &Option<User>) -> (is_valid: bool)
    ensures
        is_valid == credentials_accepted(params@, record_view(*user_db)),
{
    match user_db {
        Some(user) => password::verify(params.password.as_str(), user.password.as_str()),
        None => false,
    }
}

/// The answer of a login at `now`, once its credentials have been judged:
/// a token for `subject` where they were valid, the one error where not.
pub fn grant(is_valid: bool, subject: &str, now: usize, jwt_expired: i32, jwt_secret: &str) -> (token:
    Result<String, ErrorResponse>)
    requires
        jwt_expired > 0,
    ensures
        outcome_view(token) == grant_outcome(is_valid, subject@, now, jwt_expired, jwt_secret@),
        token matches Ok(t) ==> is_valid && forall|at: usize|
            at < expiry(now, jwt_expired) ==> #[trigger] current_subject(
                hs256_claims(t@, jwt_secret@),
                at,
            ) == Ok::<Seq<char>, ErrorView>(subject@),
{
    if is_valid {
        token::issue(subject, now, jwt_expired, jwt_secret)
    } else {
        Err(ErrorResponse::unauthorized())
    }
}

/// Login at `now`, after the store was asked for the username. `user_db` is
/// what it found.
pub fn login_at(
    params: &LoginDto,
    jwt_secret: &str,
    jwt_expired: i32,
    user_db: &Option<User>,
    now: usize,
) -> (token: Result<String, ErrorResponse>)
    requires
        jwt_expired > 0,
        user_db matches Some(user) ==> user.id is Some,
    ensures
        outcome_view(token) == login_outcome(
            params@,
            record_view(*user_db),
            jwt_secret@,
            jwt_expired,
            now,
        ),
        token matches Ok(t) ==> credentials_accepted(params@, record_view(*user_db))
            && forall|at: usize|
            at < expiry(now, jwt_expired) ==> #[trigger] current_subject(
                hs256_claims(t@, jwt_secret@),
                at,
            ) == Ok::<Seq<char>, ErrorView>(record_view(*user_db)->0.id->0),
{
    let is_valid = credentials_match(params, user_db);
    match user_db {
        Some(user) => match &user.id {
            Some(id) => grant(is_valid, id.as_str(), now, jwt_expired, jwt_secret),
            None => Err(ErrorResponse::unauthorized()),
        },
        None => Err(ErrorResponse::unauthorized()),
    }
}

/// Login, after the store was asked for the username. `user_db` is what it
/// found. The answer is that of [`login_at`] at the time that the clock
/// gave: never a token without valid credentials, and with a token, one that
/// names the user's id.
pub fn login(params: LoginDto, jwt_secret: String, jwt_expired: i32, user_db: Option<User>) -> (token:
    Result<String, ErrorResponse>)
    requires
        jwt_expired > 0,
        user_db matches Some(user) ==> user.id is Some,
    ensures
        exists|now: usize|
            outcome_view(token) == #[trigger] login_outcome(
                params@,
                record_view(user_db),
                jwt_secret@,
                jwt_expired,
                now,
            ),
        !credentials_accepted(params@, record_view(user_db)) ==> outcome_view(token) == Err::<
            Seq<char>,
            ErrorView,
        >(unauthorized()),
        token matches Ok(t) ==> (hs256_claims(t@, jwt_secret@) matches Some(claims) && Some(
            claims.0,
        ) == record_view(user_db)->0.id),
{
    let now = unix_now();
    let token = login_at(&params, jwt_secret.as_str(), jwt_expired, &user_db, now);
    proof {
        if token is Ok {
            assert(now < expiry(now, jwt_expired));
            assert(current_subject(hs256_claims(token->Ok_0@, jwt_secret@), now) == Ok::<
                Seq<char>,
                ErrorView,
            >(record_view(user_db)->0.id->0));
        }
    }
    token
}

/// Whom `token` names, now. The answer is that of [`token::verify`] at the
/// time that the clock gave: a subject only for a token that decodes under
/// the secret, and then the one it carries.
pub fn verify_jwt(token: String, jwt_secret: String) -> (subject: Result<String, ErrorResponse>)
    ensures
        exists|now: usize|
            outcome_view(subject) == #[trigger] current_subject(
                hs256_claims(token@, jwt_secret@),
                now,
            ),
        subject matches Ok(s) ==> (hs256_claims(token@, jwt_secret@) matches Some(claims)
            && claims.0 == s@),
        subject matches Err(e) ==> e@ == invalid_token(),
{
    token::verify(token.as_str(), unix_now(), jwt_secret.as_str())
}

} // verus!
