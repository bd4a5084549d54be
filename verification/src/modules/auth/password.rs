//! The password hasher: salted one-way hashes and their verification.

use argon2::password_hash::rand_core::{OsRng, RngCore};
use argon2::password_hash::{PasswordHash, PasswordHasher, PasswordVerifier, Salt, SaltString};
use argon2::Argon2;
use vstd::prelude::*;

verus! {

/// The opaque hash that Argon2, with its default parameters, derives from a
/// password and a salt; `None` where it refuses them.
pub uninterp spec fn argon2_hash(password: Seq<char>, salt: Seq<char>) -> Option<Seq<char>>;

/// Whether Argon2 accepts a password for an opaque hash.
pub uninterp spec fn argon2_accepts(password: Seq<char>, hash: Seq<char>) -> bool;

/// An opaque hash with the salt it was derived with.
#[derive(Clone, Debug, PartialEq, Eq)]
pub struct HashedPassword {
    pub hash: String,
    pub salt: String,
}

/// Sixteen bytes from the operating system's generator, encoded as a salt:
/// `OsRng::try_fill_bytes`, then `SaltString::encode_b64`. `None` where the
/// generator fails. Nothing is claimed of the salt itself.
#[verifier::external_body]
fn fresh_salt() -> (salt: Option<String>) {
    let mut bytes = [0u8; Salt::RECOMMENDED_LENGTH];
    OsRng.try_fill_bytes(&mut bytes).ok()?;
    SaltString::encode_b64(&bytes).ok().map(|salt| salt.as_str().to_owned())
}

/// `Argon2::default().hash_password` on the password's bytes and the salt
/// that `SaltString::from_b64` reads from `salt`, written out as a string.
/// The result depends on the two arguments alone, and verifying the same
/// password against it succeeds: verification derives the hash again from the
/// salt and the parameters that the string carries and compares.
#[verifier::external_body]
fn hash_with_salt(password: &str, salt: &str) -> (hash: Option<String>)
    ensures
        match hash {
            Some(h) => argon2_hash(password@, salt@) == Some(h@),
            None => argon2_hash(password@, salt@) is None,
        },
        hash matches Some(h) ==> argon2_accepts(password@, h@),
{
    let salt = SaltString::from_b64(salt).ok()?;
    Argon2::default().hash_password(password.as_bytes(), &salt).ok().map(|hash| hash.to_string())
}

/// `PasswordHash::new` on `hash`, then `Argon2::default().verify_password`
/// on the password's bytes: true where both succeed, false where the string
/// is no hash or the password does not match.
#[verifier::external_body]
fn matches_hash(password: &str, hash: &str) -> (ok: bool)
    ensures
        ok == argon2_accepts(password@, hash@),
{
    match PasswordHash::new(hash) {
        Ok(parsed) => Argon2::default().verify_password(password.as_bytes(), &parsed).is_ok(),
        Err(_) => false,
    }
}

/// Hashes `password` under a fresh random salt. What comes back is the hash
/// of the password under the salt beside it, and verifies against the
/// password. `None` where the generator or the hasher fails.
pub fn hash(password: &str) -> (hashed: Option<HashedPassword>)
    ensures
        exists|salt: Option<Seq<char>>|
            hashed_view(hashed) == #[trigger] hashed_under(password@, salt),
        hashed matches Some(h) ==> {
            &&& argon2_hash(password@, h.salt@) == Some(h.hash@)
            &&& argon2_accepts(password@, h.hash@)
        },
{
    let salt = fresh_salt();
    let hashed = hash_under(password, salt);
    assert(hashed_view(hashed) == hashed_under(password@, salt_view(salt)));
    hashed
}

/// Whether `password` is the one that `hash` was derived from. A string that
/// is no hash at all is answered like a wrong password.
pub fn verify(password: &str, hash: &str) -> (ok: bool)
    ensures
        ok == argon2_accepts(password@, hash@),
{
    matches_hash(password, hash)
}

/// What specifications say of a salt that the generator may not have given.
pub open spec fn salt_view(salt: Option<String>) -> Option<Seq<char>> {
    match salt {
        Some(s) => Some(s@),
        None => None,
    }
}

/// What specifications say of the result of hashing: the hash and its salt.
pub open spec fn hashed_view(hashed: Option<HashedPassword>) -> Option<(Seq<char>, Seq<char>)> {
    match hashed {
        Some(h) => Some((h.hash@, h.salt@)),
        None => None,
    }
}

/// The hash of `password` and the salt it was derived with, for what the
/// generator gave: nothing without a salt, nothing where Argon2 refuses the
/// password or the salt, and else the hash under that very salt.
pub open spec fn hashed_under(password: Seq<char>, salt: Option<Seq<char>>) -> Option<
    (Seq<char>, Seq<char>),
> {
    match salt {
        Some(s) => match argon2_hash(password, s) {
            Some(h) => Some((h, s)),
            None => None,
        },
        None => None,
    }
}

/// Hashes `password` under the salt that the generator gave, if it gave one.
/// The result keeps that salt beside the hash, and the hash verifies against
/// the password.
pub fn hash_under(password: &str, salt: Option<String>) -> (hashed: Option<HashedPassword>)
    ensures
        hashed_view(hashed) == hashed_under(password@, salt_view(salt)),
        hashed matches Some(h) ==> argon2_accepts(password@, h.hash@),
{
    match salt {
        Some(salt) => match hash_with_salt(password, salt.as_str()) {
            Some(hash) => Some(HashedPassword { hash, salt }),
            None => None,
        },
        None => None,
    }
}

} // verus!
