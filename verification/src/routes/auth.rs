//! Authorization of admin-only requests by the role in the session token.
use vstd::prelude::*;
use vstd::string::*;

use crate::error::{Error, ErrorKindView, ErrorView, unit_result_view};
use crate::jwt::UserClaims;
use crate::status;

verus! {

/// The role that admin-only requests require
pub open spec fn admin_role() -> Seq<char> {
    "admin"@
}

/// The decision on a request's `jwt` cookie: absent, present with a token
/// that did not validate (the JWT library's description), or present with
/// the token's claims
pub open spec fn spec_check_header(cookie: Option<Result<UserClaims, String>>) -> Result<(), ErrorView> {
    match cookie {
        None => Err(
            ErrorView {
                kind: ErrorKindView::Custom("Unauthorized user! No Cookie Found "@),
                status_code: status::UNAUTHORIZED,
                msg: None,
            },
        ),
        Some(Err(msg)) => Err(
            ErrorView {
                kind: ErrorKindView::Custom("JWT Error! "@ + msg@),
                status_code: status::INTERNAL_SERVER_ERROR,
                msg: None,
            },
        ),
        Some(Ok(claims)) => if claims.role@ == admin_role() {
            Ok(())
        } else {
            Err(
                ErrorView {
                    kind: ErrorKindView::Custom("Current user can't use this!"@),
                    status_code: status::UNAUTHORIZED,
                    msg: None,
                },
            )
        },
    }
}

/// Lets a request through only where its cookie holds a valid token whose
/// role is "admin"
pub fn check_header(cookie: Option<Result<UserClaims, String>>) -> (res: Result<(), Error>)
    ensures
        unit_result_view(res) == spec_check_header(cookie),
{
    match cookie {
        Some(token) => match token {
            Err(msg) => Err(Error::from_jwt_error(msg)),
            Ok(claims) => {
                let admin = String::from_str("admin");
                if claims.role == admin {
                    Ok(())
                } else {
                    Err(Error::custom(String::from_str("Current user can't use this!"), status::UNAUTHORIZED))
                }
            },
        },
        None => Err(
            Error::custom(String::from_str("Unauthorized user! No Cookie Found "), status::UNAUTHORIZED),
        ),
    }
}

} // verus!
