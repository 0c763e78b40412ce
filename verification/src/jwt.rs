//! The claims a session token carries.
use vstd::prelude::*;

use crate::db::User;

verus! {

/// The claims of a session token
#[derive(Clone, Debug)]
pub struct UserClaims {
    pub user_name: String,
    pub role: String,
    pub exp: u64,
}

/// The expiry that every token is issued with (seconds since the epoch)
pub const TOKEN_EXPIRY: u64 = 10000000000;

/// `claims` are the ones issued to `usr`: its name, its role, and the fixed
/// expiry
pub open spec fn claims_of(usr: User, claims: UserClaims) -> bool {
    &&& usr.user_role is Some
    &&& claims.user_name@ == usr.user_name@
    &&& claims.role@ == usr.user_role->0@
    &&& claims.exp == TOKEN_EXPIRY
}

/// The claims of the token issued to `usr`: its name, its role, and the
/// fixed expiry
pub fn token_claims(usr: &User) -> (claims: UserClaims)
    requires
        usr.user_role is Some,
    ensures
        claims_of(*usr, claims),
        claims.user_name@ == usr.user_name@,
        claims.role@ == usr.user_role->0@,
        claims.exp == 10000000000,
{
    let role = match &usr.user_role {
        Some(r) => r.clone(),
        None => String::new(),
    };
    UserClaims { user_name: usr.user_name.clone(), role, exp: TOKEN_EXPIRY }
}

} // verus!
