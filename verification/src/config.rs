//! Settings read once when the process starts and shared read-only after.

use vstd::prelude::*;

verus! {

#[derive(Debug, Clone)]
pub struct Config {
    pub mongodb_uri: String,
    pub mongodb_db_name: String,
    pub jwt_secret: String,
    pub jwt_expires_in: String,
    /// Lifetime of a token, in minutes.
    pub jwt_max_age: i32,
}

impl Config {
    /// A configuration is usable when tokens issued under it live for a
    /// positive time.
    pub open spec fn wf(&self) -> bool {
        self.jwt_max_age > 0
    }

    /// The configuration of these settings, or `None` where the lifetime is
    /// not positive.
    pub fn new(
        mongodb_uri: String,
        mongodb_db_name: String,
        jwt_secret: String,
        jwt_expires_in: String,
        jwt_max_age: i32,
    ) -> (config: Option<Config>)
        ensures
            config is Some <==> jwt_max_age > 0,
            config matches Some(c) ==> {
                &&& c.wf()
                &&& c.mongodb_uri == mongodb_uri
                &&& c.mongodb_db_name == mongodb_db_name
                &&& c.jwt_secret == jwt_secret
                &&& c.jwt_expires_in == jwt_expires_in
                &&& c.jwt_max_age == jwt_max_age
            },
    {
        if jwt_max_age > 0 {
            Some(Config { mongodb_uri, mongodb_db_name, jwt_secret, jwt_expires_in, jwt_max_age })
        } else {
            None
        }
    }
}

} // verus!
