//! What the transport layer hands to the use cases and gets back.

use vstd::prelude::*;

verus! {

/// A registration request.
#[derive(Clone, Debug, PartialEq, Eq)]
pub struct UserDto {
    pub first_name: String,
    pub last_name: String,
    pub username: String,
    pub email: String,
    pub password: String,
}

/// What specifications say of a [`UserDto`].
pub struct UserDtoView {
    pub first_name: Seq<char>,
    pub last_name: Seq<char>,
    pub username: Seq<char>,
    pub email: Seq<char>,
    pub password: Seq<char>,
}

impl View for UserDto {
    type V = UserDtoView;

    open spec fn view(&self) -> UserDtoView {
        UserDtoView {
            first_name: self.first_name@,
            last_name: self.last_name@,
            username: self.username@,
            email: self.email@,
            password: self.password@,
        }
    }
}

/// A login request.
#[derive(Clone, Debug, PartialEq, Eq)]
pub struct LoginDto {
    pub username: String,
    pub password: String,
}

/// What specifications say of a [`LoginDto`].
pub struct LoginView {
    pub username: Seq<char>,
    pub password: Seq<char>,
}

impl View for LoginDto {
    type V = LoginView;

    open spec fn view(&self) -> LoginView {
        LoginView { username: self.username@, password: self.password@ }
    }
}

/// What a token states: whom it was issued to, when, and until when it holds.
/// Times are seconds since the epoch.
#[derive(Clone, Debug, PartialEq, Eq)]
pub struct TokenClaims {
    pub sub: String,
    pub iat: usize,
    pub exp: usize,
}

/// What specifications say of [`TokenClaims`].
pub struct ClaimsView {
    pub sub: Seq<char>,
    pub iat: usize,
    pub exp: usize,
}

impl View for TokenClaims {
    type V = ClaimsView;

    open spec fn view(&self) -> ClaimsView {
        ClaimsView { sub: self.sub@, iat: self.iat, exp: self.exp }
    }
}

/// The body of a successful login.
#[derive(Clone, Debug, PartialEq, Eq)]
pub struct LoginResponse {
    pub access_token: String,
}

} // verus!
