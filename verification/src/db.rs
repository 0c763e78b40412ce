//! The rows the service stores: links and user accounts.
use vstd::prelude::*;

verus! {

/// This struct represents the long url the user wants to shorten
#[derive(Clone, Debug)]
pub struct Link {
    pub long_url: String,
}

/// This struct represents the shortened link
#[derive(Clone, Debug)]
pub struct TinyLink {
    pub long_link: String,
    pub short_link: String,
}

/// A user account; user_role has to be "admin", "user" or "guest" (the
/// service creates "user" and "admin" accounts), and the password is stored
/// as a bcrypt hash
#[derive(Clone, Debug)]
pub struct User {
    pub id: Option<i32>,
    pub user_name: String,
    pub user_role: Option<String>,
    pub user_pwd: String,
}

/// The credentials of a login request
#[derive(Clone, Debug)]
pub struct LoginUser {
    pub user_name: String,
    pub user_pwd: String,
}

} // verus!
