//! The credential record.

use vstd::prelude::*;

verus! {

/// One user as the credential store holds it. `id` is unset until the store
/// has assigned one; `password` is the opaque hash, never the plaintext.
#[derive(Clone, Debug, PartialEq, Eq)]
pub struct User {
    pub id: Option<String>,
    pub first_name: String,
    pub last_name: String,
    pub username: String,
    pub email: String,
    pub password: String,
    pub salt_nonce: String,
}

/// What specifications say of a [`User`].
pub struct UserView {
    pub id: Option<Seq<char>>,
    pub first_name: Seq<char>,
    pub last_name: Seq<char>,
    pub username: Seq<char>,
    pub email: Seq<char>,
    pub password: Seq<char>,
    pub salt_nonce: Seq<char>,
}

impl View for User {
    type V = UserView;

    open spec fn view(&self) -> UserView {
        UserView {
            id: match self.id {
                Some(id) => Some(id@),
                None => None,
            },
            first_name: self.first_name@,
            last_name: self.last_name@,
            username: self.username@,
            email: self.email@,
            password: self.password@,
            salt_nonce: self.salt_nonce@,
        }
    }
}

/// Name of the collection that holds the users.
pub const NAME: &'static str = "user";

} // verus!
