//! Account data that the monitoring core reads.
use vstd::prelude::*;

verus! {

/// A user account: the owner of monitored systems.
#[derive(Clone)]
pub struct User {
    pub id: i32,
    pub email: String,
    /// The password hash.
    pub password: String,
    /// IANA time zone name used to present instants to the user.
    pub timezone: String,
    /// Language tag used for messages to the user.
    pub language: String,
}

/// What a user submits to log in.
#[derive(Debug, Clone)]
pub struct Credentials {
    pub email: String,
    pub password: String,
}

} // verus!
