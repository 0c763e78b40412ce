//! Accounts and logins: the password rule, hashing and checking passwords
//! with bcrypt, and the replies to account creation and login.
use vstd::prelude::*;
use vstd::string::*;

use crate::db::{LoginUser, User};
use crate::error::{concat, DbFailure, Error, ErrorKindView, ErrorView, opt_string_view};
use crate::parser::byte_len;
use vstd::utf8::encode_utf8;
use crate::status;

verus! {

/// The role an account is created with
#[derive(Clone, Copy, Debug)]
pub enum Role {
    /// an ordinary user, stored as "user"
    User,
    /// an administrator, stored as "admin"
    Admin,
}

/// The name a role is stored under
pub open spec fn role_name(role: Role) -> Seq<char> {
    match role {
        Role::User => "user"@,
        Role::Admin => "admin"@,
    }
}

fn role_string(role: Role) -> (s: String)
    ensures
        s@ == role_name(role),
{
    match role {
        Role::User => String::from_str("user"),
        Role::Admin => String::from_str("admin"),
    }
}

/// A password is accepted when it is longer than 8 bytes
pub open spec fn spec_valid_pwd(pwd: Seq<char>) -> bool {
    byte_len(pwd) > 8
}

/// Whether a new password is accepted: longer than 8 bytes
pub fn valid_pwd(pwd: &String) -> (b: bool)
    ensures
        b == spec_valid_pwd(pwd@),
        b <==> encode_utf8(pwd@).len() > 8,
{
    if pwd.as_str().as_bytes().len() <= 8 {
        return false;
    } else {
        return true;
    }
}

/// What `bcrypt::verify(password, hash)` gives: whether the password matches
/// the hash, or the description of the error (a malformed hash)
pub uninterp spec fn bcrypt_verify_outcome(password: Seq<char>, hash: Seq<char>) -> Result<
    bool,
    Seq<char>,
>;

pub open spec fn bool_result_view(r: Result<bool, String>) -> Result<bool, Seq<char>> {
    match r {
        Ok(b) => Ok(b),
        Err(m) => Err(m@),
    }
}

/// Checks `password` against `hash` with `bcrypt::verify`, describing an
/// error with `to_string`; claims only that the outcome is the one bcrypt
/// gives for these two strings
#[verifier::external_body]
fn verify_password(password: &str, hash: &str) -> (res: Result<bool, String>)
    ensures
        bool_result_view(res) == bcrypt_verify_outcome(password@, hash@),
{
    bcrypt::verify(password, hash).map_err(|e| e.to_string())
}

/// The bcrypt cost that passwords are hashed with
pub const HASH_COST: u32 = 4;

/// The decimal digit `d` (0 to 9) as a character
pub open spec fn digit_char(d: u32) -> char {
    (('0' as u32) + d) as char
}

/// A character of bcrypt's base64 alphabet
pub open spec fn is_bcrypt_base64(c: char) -> bool {
    ||| c == '.'
    ||| c == '/'
    ||| ('A' <= c && c <= 'Z')
    ||| ('a' <= c && c <= 'z')
    ||| ('0' <= c && c <= '9')
}

/// `h` has the form of a bcrypt hash made with `cost`: "$2b$", the cost in
/// two digits, "$", then 53 characters of bcrypt's base64 alphabet (the
/// 22-character salt and the 31-character hash)
pub open spec fn is_bcrypt_hash(h: Seq<char>, cost: u32) -> bool {
    &&& h.len() == 60
    &&& h[0] == '$' && h[1] == '2' && h[2] == 'b' && h[3] == '$'
    &&& h[4] == digit_char(cost / 10)
    &&& h[5] == digit_char(cost % 10)
    &&& h[6] == '$'
    &&& forall|i: int| 7 <= i < 60 ==> is_bcrypt_base64(#[trigger] h[i])
}

/// The description of a failure of the system's random source, as bcrypt
/// gives it: "Rand error: " followed by the source's own description
pub open spec fn is_rand_failure(m: Seq<char>) -> bool {
    m.len() >= 12 && m.subrange(0, 12) == "Rand error: "@
}

/// Hashes `password` with `bcrypt::hash` and a random salt, describing an
/// error with `to_string`. Claims, as bcrypt's source shows: a cost outside
/// 4..=31 is refused; with an allowed cost, a returned hash has the form
/// "$2b$" + the two-digit cost + "$" + 53 base64 characters, and
/// `bcrypt::verify` accepts it for the same password (hash and verify read
/// the same cost and salt back from the hash string), and the only failure
/// is of the system's random source ("Rand error: ..."). Which salt and
/// hash come out depends on the random source and is not stated, nor
/// whether that source fails.
#[verifier::external_body]
fn hash_password(password: &str, cost: u32) -> (res: Result<String, String>)
    ensures
        (cost < 4 || cost > 31) ==> res is Err,
        (4 <= cost && cost <= 31) ==> match res {
            Ok(h) => is_bcrypt_hash(h@, cost) && bcrypt_verify_outcome(password@, h@) == Ok::<bool, Seq<char>>(true),
            Err(m) => is_rand_failure(m@),
        },
{
    bcrypt::hash(password, cost).map_err(|e| e.to_string())
}

/// The refusal of a password that is too short
pub open spec fn short_pwd_error() -> ErrorView {
    ErrorView {
        kind: ErrorKindView::InvalidUsrPwd,
        status_code: status::UNAUTHORIZED,
        msg: Some("password must be at least 8 characters long!"@),
    }
}

/// The error that a bcrypt failure with this description is turned into
pub open spec fn bcrypt_error(msg: Seq<char>) -> ErrorView {
    ErrorView { kind: ErrorKindView::InvalidUsrPwd, status_code: status::UNAUTHORIZED, msg: Some(msg) }
}

/// `account` is the new account for `payload` with `role`: no id yet, the
/// same name, and the role's name
pub open spec fn is_account_of(payload: User, role: Role, account: User) -> bool {
    &&& account.id is None
    &&& account.user_name@ == payload.user_name@
    &&& opt_string_view(account.user_role) == Some(role_name(role))
}

/// `account` is the new account for `payload` with `role`, and its stored
/// hash is one that bcrypt accepts for the password of `payload`
pub open spec fn account_made(payload: User, role: Role, account: User) -> bool {
    &&& is_account_of(payload, role, account)
    &&& bcrypt_verify_outcome(payload.user_pwd@, account.user_pwd@) == Ok::<bool, Seq<char>>(true)
}

/// The account for `payload` with `role`, once its password was hashed
/// (`hashed` is the outcome of hashing it)
pub fn account_from_hash(payload: &User, role: Role, hashed: Result<String, String>) -> (res: Result<
    User,
    Error,
>)
    ensures
        match hashed {
            Ok(h) => res matches Ok(u) && is_account_of(*payload, role, u) && u.user_pwd@ == h@,
            Err(m) => res matches Err(e) && e@ == bcrypt_error(m@),
        },
{
    match hashed {
        Ok(h) => Ok(
            User {
                id: None,
                user_name: payload.user_name.clone(),
                user_role: Some(role_string(role)),
                user_pwd: h,
            },
        ),
        Err(m) => Err(Error::from_bcrypt_error(m)),
    }
}

/// The account to store for a received user with `role`: the password must
/// be long enough, and is stored as its bcrypt hash
pub fn new_account(payload: &User, role: Role) -> (res: Result<User, Error>)
    ensures
        !spec_valid_pwd(payload.user_pwd@) ==> (res matches Err(e) && e@ == short_pwd_error()),
        spec_valid_pwd(payload.user_pwd@) ==> match res {
            Ok(u) => {
                &&& account_made(*payload, role, u)
                &&& is_bcrypt_hash(u.user_pwd@, HASH_COST)
                &&& !is_bcrypt_hash(payload.user_pwd@, HASH_COST) ==> u.user_pwd@ != payload.user_pwd@
            },
            Err(e) => exists|m: Seq<char>| is_rand_failure(m) && e@ == bcrypt_error(m),
        },
        (res matches Err(e) && e@ == short_pwd_error()) ==> !spec_valid_pwd(payload.user_pwd@),
        (res matches Err(e) && e@ == short_pwd_error()) <==> encode_utf8(payload.user_pwd@).len() <= 8,
{
    if !valid_pwd(&payload.user_pwd) {
        return Err(Error::user_validation_err(String::from_str("password must be at least 8 characters long!")));
    }
    let hashed = hash_password(payload.user_pwd.as_str(), HASH_COST);
    let ghost h = hashed;
    let res = account_from_hash(payload, role, hashed);
    proof {
        if let Err(m) = h {
            reveal_strlit("Rand error: ");
            reveal_strlit("password must be at least 8 characters long!");
            assert(m@[0] == "Rand error: "@[0]);
            assert(m@ != "password must be at least 8 characters long!"@);
            assert(bcrypt_error(m@) != short_pwd_error());
        }
    }
    res
}

/// A reply that carries a message: `{"message": ...}` with its status
#[derive(Debug)]
pub struct MessageReply {
    pub status: u16,
    pub message: String,
}

/// The message that confirms a new account
pub open spec fn created_message(role: Role, user_name: Seq<char>) -> Seq<char> {
    match role {
        Role::User => "User "@ + user_name + " created!"@,
        Role::Admin => "Admin "@ + user_name + " created!"@,
    }
}

/// The error an insert of a new account is answered with
pub open spec fn account_insert_error(user_name: Seq<char>, f: DbFailure) -> ErrorView {
    match f {
        DbFailure::UniqueViolation(_) => ErrorView {
            kind: ErrorKindView::UniqueViolation,
            status_code: status::CONFLICT,
            msg: Some(user_name),
        },
        DbFailure::OtherDatabase(m) => ErrorView {
            kind: ErrorKindView::Database,
            status_code: status::INTERNAL_SERVER_ERROR,
            msg: Some(m@),
        },
        _ => ErrorView {
            kind: ErrorKindView::Database,
            status_code: status::INTERNAL_SERVER_ERROR,
            msg: Some("internal server error! "@),
        },
    }
}

/// The reply to storing a new account: its confirmation with status 201, a
/// conflict where the name is taken, or a database error
pub fn account_created(role: Role, user_name: &String, outcome: Result<(), DbFailure>) -> (res: Result<
    MessageReply,
    Error,
>)
    ensures
        match outcome {
            Ok(()) => res matches Ok(r) && r.status == status::CREATED && r.message@ == created_message(
                role,
                user_name@,
            ),
            Err(f) => res matches Err(e) && e@ == account_insert_error(user_name@, f),
        },
{
    match outcome {
        Ok(()) => {
            let prefix = match role {
                Role::User => "User ",
                Role::Admin => "Admin ",
            };
            let with_name = concat(prefix, user_name.as_str());
            let message = concat(with_name.as_str(), " created!");
            Ok(MessageReply { status: status::CREATED, message })
        },
        Err(f) => match f {
            DbFailure::UniqueViolation(_) => Err(Error::unique_violation(user_name.clone())),
            DbFailure::OtherDatabase(m) => Err(Error::database(m)),
            _ => Err(Error::database(String::from_str("internal server error! "))),
        },
    }
}

/// The refusal of unknown users and of wrong passwords
pub open spec fn bad_credentials_error() -> ErrorView {
    ErrorView {
        kind: ErrorKindView::InvalidUsrPwd,
        status_code: status::UNAUTHORIZED,
        msg: Some("invalid user or password"@),
    }
}

/// The decision on a login, from the outcome of checking the password: the
/// user where it matched, else the error
pub open spec fn spec_login_outcome(verified: Result<bool, Seq<char>>) -> Result<(), ErrorView> {
    match verified {
        Ok(true) => Ok(()),
        Ok(false) => Err(bad_credentials_error()),
        Err(m) => Err(bcrypt_error(m)),
    }
}

/// The decision on a login whose user was found, given the outcome of
/// checking its password
pub fn login_outcome(user: User, verified: Result<bool, String>) -> (res: Result<User, Error>)
    ensures
        match spec_login_outcome(bool_result_view(verified)) {
            Ok(()) => res matches Ok(u) && u == user,
            Err(ev) => res matches Err(e) && e@ == ev,
        },
{
    match verified {
        Ok(true) => Ok(user),
        Ok(false) => Err(Error::user_validation_err(String::from_str("invalid user or password"))),
        Err(m) => Err(Error::from_bcrypt_error(m)),
    }
}

/// The decision on a login: `found` is the outcome of looking the user up
/// by name
pub open spec fn spec_check_login(login: LoginUser, found: Result<User, DbFailure>) -> Result<
    (),
    ErrorView,
> {
    match found {
        Ok(u) => spec_login_outcome(bcrypt_verify_outcome(login.user_pwd@, u.user_pwd@)),
        Err(DbFailure::NotFound(_)) => Err(bad_credentials_error()),
        Err(_) => Err(
            ErrorView {
                kind: ErrorKindView::Database,
                status_code: status::INTERNAL_SERVER_ERROR,
                msg: Some("internal server error!"@),
            },
        ),
    }
}

/// Checks a login against the user found under its name: the found user is
/// let in where the password matches its stored hash
pub fn check_login(login: &LoginUser, found: Result<User, DbFailure>) -> (res: Result<User, Error>)
    ensures
        match spec_check_login(*login, found) {
            Ok(()) => res matches Ok(u) && found == Ok::<User, DbFailure>(u),
            Err(ev) => res matches Err(e) && e@ == ev,
        },
{
    match found {
        Ok(result) => {
            let verified = verify_password(login.user_pwd.as_str(), result.user_pwd.as_str());
            login_outcome(result, verified)
        },
        Err(DbFailure::NotFound(_)) => Err(
            Error::user_validation_err(String::from_str("invalid user or password")),
        ),
        Err(_) => Err(Error::database(String::from_str("internal server error!"))),
    }
}

/// The cookie that carries a session token
pub open spec fn spec_session_cookie(token: Seq<char>) -> Seq<char> {
    "jwt="@ + token + "; Path=/; HttpOnly; Max-Age=1209600; SameSite=Lax;"@
}

/// The `Set-Cookie` value for a session token
pub fn session_cookie(token: &str) -> (cookie: String)
    ensures
        cookie@ == spec_session_cookie(token@),
{
    let head = concat("jwt=", token);
    concat(head.as_str(), "; Path=/; HttpOnly; Max-Age=1209600; SameSite=Lax;")
}

/// The message of a successful login
pub fn login_message() -> (m: String)
    ensures
        m@ == "login success!"@,
{
    String::from_str("login success!")
}

} // verus!
