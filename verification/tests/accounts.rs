use tiny_link::db::{LoginUser, User};
use tiny_link::error::{DbFailure, ErrorKind};
use tiny_link::jwt::{token_claims, UserClaims, TOKEN_EXPIRY};
use tiny_link::routes::auth::check_header;
use tiny_link::routes::user::{
    account_created, account_from_hash, check_login, login_message, login_outcome, new_account,
    session_cookie, valid_pwd, Role,
};

fn payload(name: &str, pwd: &str) -> User {
    User { id: Some(7), user_name: name.to_string(), user_role: None, user_pwd: pwd.to_string() }
}

#[test]
fn password_must_be_longer_than_eight() {
    assert!(!valid_pwd(&"12345678".to_string()));
    assert!(valid_pwd(&"123456789".to_string()));
    assert!(!valid_pwd(&String::new()));
}

#[test]
fn short_password_is_refused() {
    let e = new_account(&payload("bob", "short"), Role::User).unwrap_err();
    assert!(matches!(e.kind(), ErrorKind::InvalidUsrPwd));
    assert_eq!(e.status_code(), 401);
    assert_eq!(e.msg(), Some("password must be at least 8 characters long!".to_string()));
}

#[test]
fn new_user_account_is_hashed_with_user_role() {
    let u = new_account(&payload("bob", "correct horse"), Role::User).unwrap();
    assert_eq!(u.id, None);
    assert_eq!(u.user_name, "bob");
    assert_eq!(u.user_role, Some("user".to_string()));
    assert_ne!(u.user_pwd, "correct horse");
    assert!(u.user_pwd.starts_with("$2b$04$"));
    assert_eq!(u.user_pwd.chars().count(), 60);
    assert!(u.user_pwd[7..].chars().all(|c| c == '.' || c == '/' || c.is_ascii_alphanumeric()));
}

#[test]
fn new_admin_account_has_admin_role() {
    let u = new_account(&payload("root", "correct horse"), Role::Admin).unwrap();
    assert_eq!(u.user_role, Some("admin".to_string()));
}

#[test]
fn account_from_hash_keeps_hash() {
    let u = account_from_hash(&payload("ann", "whatever1"), Role::Admin, Ok("$2b$h".to_string())).unwrap();
    assert_eq!(u.user_pwd, "$2b$h");
    assert_eq!(u.user_role, Some("admin".to_string()));
    let e = account_from_hash(&payload("ann", "whatever1"), Role::User, Err("Rand error".to_string())).unwrap_err();
    assert_eq!(e.status_code(), 401);
    assert_eq!(e.msg(), Some("Rand error".to_string()));
}

#[test]
fn registered_password_logs_in() {
    let u = new_account(&payload("carol", "s3cret-pass"), Role::User).unwrap();
    let login = LoginUser { user_name: "carol".to_string(), user_pwd: "s3cret-pass".to_string() };
    let found = check_login(&login, Ok(u)).unwrap();
    assert_eq!(found.user_name, "carol");
}

#[test]
fn wrong_password_and_unknown_user_are_refused_alike() {
    let u = new_account(&payload("dave", "s3cret-pass"), Role::User).unwrap();
    let login = LoginUser { user_name: "dave".to_string(), user_pwd: "wrong-pass".to_string() };
    let e1 = check_login(&login, Ok(u)).unwrap_err();
    let e2 = check_login(&login, Err(DbFailure::NotFound("Record not found".to_string()))).unwrap_err();
    assert_eq!(e1.status_code(), 401);
    assert_eq!(e1.msg(), Some("invalid user or password".to_string()));
    assert_eq!(e2.status_code(), e1.status_code());
    assert_eq!(e2.msg(), e1.msg());
}

#[test]
fn lookup_failure_is_database_error() {
    let login = LoginUser { user_name: "x".to_string(), user_pwd: "y".to_string() };
    let e = check_login(&login, Err(DbFailure::Other("broken pipe".to_string()))).unwrap_err();
    assert!(matches!(e.kind(), ErrorKind::Database));
    assert_eq!(e.msg(), Some("internal server error!".to_string()));
}

#[test]
fn malformed_stored_hash_is_bcrypt_error() {
    let login = LoginUser { user_name: "x".to_string(), user_pwd: "y".to_string() };
    let stored = User { id: Some(1), user_name: "x".to_string(), user_role: Some("user".to_string()), user_pwd: "nothash".to_string() };
    let e = check_login(&login, Ok(stored)).unwrap_err();
    assert_eq!(e.status_code(), 401);
    assert_eq!(e.msg(), Some("Invalid hash: nothash".to_string()));
}

#[test]
fn login_outcome_decides() {
    let u = payload("eve", "x");
    assert!(login_outcome(u.clone(), Ok(true)).is_ok());
    assert_eq!(login_outcome(u.clone(), Ok(false)).unwrap_err().msg(), Some("invalid user or password".to_string()));
    assert_eq!(login_outcome(u, Err("Invalid Cost: x".to_string())).unwrap_err().msg(), Some("Invalid Cost: x".to_string()));
}

#[test]
fn account_created_replies() {
    let name = "bob".to_string();
    let r = account_created(Role::User, &name, Ok(())).unwrap();
    assert_eq!(r.status, 201);
    assert_eq!(r.message, "User bob created!");
    let r = account_created(Role::Admin, &name, Ok(())).unwrap();
    assert_eq!(r.message, "Admin bob created!");
    let e = account_created(Role::User, &name, Err(DbFailure::UniqueViolation("dup".to_string()))).unwrap_err();
    assert_eq!(e.status_code(), 409);
    assert_eq!(e.msg(), Some("bob".to_string()));
    let e = account_created(Role::User, &name, Err(DbFailure::OtherDatabase("oops".to_string()))).unwrap_err();
    assert_eq!(e.msg(), Some("oops".to_string()));
    let e = account_created(Role::Admin, &name, Err(DbFailure::Other("gone".to_string()))).unwrap_err();
    assert_eq!(e.status_code(), 500);
    assert_eq!(e.msg(), Some("internal server error! ".to_string()));
}

#[test]
fn session_cookie_carries_token() {
    assert_eq!(session_cookie("abc.def"), "jwt=abc.def; Path=/; HttpOnly; Max-Age=1209600; SameSite=Lax;");
    assert_eq!(login_message(), "login success!");
}

#[test]
fn claims_of_user() {
    let u = User { id: Some(3), user_name: "fay".to_string(), user_role: Some("admin".to_string()), user_pwd: "h".to_string() };
    let c = token_claims(&u);
    assert_eq!(c.user_name, "fay");
    assert_eq!(c.role, "admin");
    assert_eq!(c.exp, TOKEN_EXPIRY);
    assert_eq!(c.exp, 10000000000);
}

fn claims(role: &str) -> UserClaims {
    UserClaims { user_name: "u".to_string(), role: role.to_string(), exp: TOKEN_EXPIRY }
}

#[test]
fn only_admin_claims_pass() {
    assert!(check_header(Some(Ok(claims("admin")))).is_ok());
    assert!(check_header(Some(Ok(claims("adm")))).is_err());
    assert!(check_header(Some(Ok(claims("guest")))).is_err());
    let r = check_header(Some(Ok(claims("user")))).unwrap_err().to_json_reply();
    assert_eq!(r.status, 401);
    assert_eq!(r.error, Some("Current user can't use this!".to_string()));
}

#[test]
fn missing_cookie_is_unauthorized() {
    let r = check_header(None).unwrap_err().to_json_reply();
    assert_eq!(r.status, 401);
    assert_eq!(r.error, Some("Unauthorized user! No Cookie Found ".to_string()));
}

#[test]
fn invalid_token_is_jwt_error() {
    let r = check_header(Some(Err("InvalidSignature".to_string()))).unwrap_err().to_json_reply();
    assert_eq!(r.status, 500);
    assert_eq!(r.error, Some("JWT Error! InvalidSignature".to_string()));
}

#[test]
fn admin_account_claims_pass_user_account_claims_do_not() {
    let admin = new_account(&payload("root", "long enough"), Role::Admin).unwrap();
    let user = new_account(&payload("joe", "long enough"), Role::User).unwrap();
    assert!(check_header(Some(Ok(token_claims(&admin)))).is_ok());
    assert!(check_header(Some(Ok(token_claims(&user)))).is_err());
}
