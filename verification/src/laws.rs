//! Properties of the service that span several of its functions.
use vstd::prelude::*;

use crate::db::{LoginUser, User};
use crate::error::{DbFailure, Error, ErrorKindView, ErrorView, RejectionCause, rejection_error, spec_reply};
use crate::jwt::{UserClaims, claims_of};
use crate::parser::byte_len;
use crate::routes::{EndpointView, Method, MAX_BODY_LIMIT, spec_body_length_ok, spec_body_limit, spec_gate, spec_route};
use crate::routes::api::{SHORT_LINK_LEN, is_alphanumeric, spec_check_long_url, uri_scheme_outcome};
use crate::routes::auth::{admin_role, spec_check_header};
use crate::routes::user::{Role, account_made, bcrypt_verify_outcome, is_account_of, spec_check_login};
use crate::status;
use crate::error::db_failure_error;
use crate::parser::{form_pairs, last_value, spec_parse_form, url_parse_outcome};
use crate::routes::{spec_segments, split_slash};
use crate::routes::user::{account_insert_error, created_message, role_name, spec_session_cookie, spec_valid_pwd};
use crate::routes::spec_json_content_type;
use vstd::utf8::encode_utf8;

verus! {

/// The token claims of an account let it through the admin-only check
/// exactly when the account was created with the administrator role; an
/// ordinary user's claims are refused with status 401
pub proof fn lemma_only_admin_accounts_pass(
    payload: User,
    role: Role,
    account: User,
    claims: UserClaims,
)
    requires
        is_account_of(payload, role, account),
        claims_of(account, claims),
    ensures
        (spec_check_header(Some(Ok::<UserClaims, String>(claims))) is Ok) <==> (role is Admin),
        role is User ==> spec_check_header(Some(Ok::<UserClaims, String>(claims))) == Err::<(), ErrorView>(
            ErrorView {
                kind: ErrorKindView::Custom("Current user can't use this!"@),
                status_code: status::UNAUTHORIZED,
                msg: None,
            },
        ),
{
    reveal_strlit("admin");
    reveal_strlit("user");
    assert("admin"@[0] == 'a');
    assert("user"@[0] == 'u');
    assert("admin"@ != "user"@);
}

/// The password that an account was created with logs its owner in
pub proof fn lemma_registered_password_logs_in(
    payload: User,
    role: Role,
    account: User,
    login: LoginUser,
)
    requires
        account_made(payload, role, account),
        login.user_pwd@ == payload.user_pwd@,
    ensures
        spec_check_login(login, Ok::<User, DbFailure>(account)) == Ok::<(), ErrorView>(()),
{
}

/// An unknown user and a wrong password are refused with the same error, so
/// a refusal does not tell whether the user exists
pub proof fn lemma_login_refusals_alike(login: LoginUser, user: User, description: String)
    requires
        bcrypt_verify_outcome(login.user_pwd@, user.user_pwd@) == Ok::<bool, Seq<char>>(false),
    ensures
        spec_check_login(login, Ok::<User, DbFailure>(user)) == spec_check_login(
            login,
            Err::<User, DbFailure>(DbFailure::NotFound(description)),
        ),
        spec_check_login(login, Ok::<User, DbFailure>(user)) is Err,
{
}

/// A short link drawn for a new link is a path it can be found by: a GET of
/// it is routed to the redirect, and both path checks accept it
pub proof fn lemma_new_short_link_can_be_looked_up(short: Seq<char>)
    requires
        short.len() == SHORT_LINK_LEN,
        forall|i: int| 0 <= i < short.len() ==> is_alphanumeric(#[trigger] short[i]),
    ensures
        spec_route(Method::Get, seq![short]) == Some(EndpointView::RedirectLink(short)),
        byte_len(short) > 5,
        byte_len((seq!['/'] + short).drop_first()) > 5,
{
    assert(vstd::utf8::is_ascii_chars(short));
    vstd::utf8::is_ascii_chars_encode_utf8(short);
    assert((seq!['/'] + short).drop_first() =~= short);
}

/// The long URL of a created link parses as a URI with scheme http or
/// https, so the redirect to a stored link does not fail on it
pub proof fn lemma_created_long_link_parses(long_url: Seq<char>)
    requires
        spec_check_long_url(long_url) is Ok,
    ensures
        uri_scheme_outcome(long_url) matches Ok(scheme) && (scheme == Some("http"@) || scheme == Some(
            "https"@,
        )),
{
}

/// Row `row` of the routing table matches a request with this method and
/// these path segments
pub open spec fn row_matches(row: int, method: Method, segs: Seq<Seq<char>>) -> bool {
    if row == 0 {
        method is Post && segs == seq!["api"@, "user"@, "login"@]
    } else if row == 1 {
        method is Post && segs == seq!["api"@, "admin"@, "create"@]
    } else if row == 2 {
        method is Post && segs == seq!["api"@, "user"@, "create"@]
    } else if row == 3 {
        method is Get && segs.len() == 1 && segs[0].len() > 0
    } else if row == 4 {
        method is Post && segs == seq!["api"@, "link"@, "create"@]
    } else if row == 5 {
        method is Get && segs.len() == 0
    } else if row == 6 {
        segs == seq!["api"@, "ping"@]
    } else {
        false
    }
}

/// The routing table is unambiguous: no request matches two of its rows, so
/// the order in which the rows are tried does not matter; and a request is
/// routed exactly when some row matches it
pub proof fn lemma_routes_disjoint(method: Method, segs: Seq<Seq<char>>)
    ensures
        forall|i: int, j: int|
            0 <= i < j < 7 && #[trigger] row_matches(i, method, segs) ==> !#[trigger] row_matches(
                j,
                method,
                segs,
            ),
        spec_route(method, segs) is Some <==> exists|i: int| 0 <= i < 7 && #[trigger] row_matches(i, method, segs),
{
    reveal_strlit("api");
    reveal_strlit("user");
    reveal_strlit("admin");
    reveal_strlit("link");
    reveal_strlit("login");
    reveal_strlit("create");
    reveal_strlit("ping");
    assert("login"@.len() == 5);
    assert("create"@.len() == 6);
    assert("login"@ != "create"@);
    assert("user"@[0] == 'u' && "admin"@[0] == 'a' && "link"@[0] == 'l');
    assert("user"@ != "admin"@ && "user"@ != "link"@ && "admin"@ != "link"@);
    assert(seq!["api"@, "user"@, "login"@][2] != seq!["api"@, "user"@, "create"@][2]);
    assert(seq!["api"@, "user"@, "login"@][1] != seq!["api"@, "admin"@, "create"@][1]);
    assert(seq!["api"@, "user"@, "login"@][1] != seq!["api"@, "link"@, "create"@][1]);
    assert(seq!["api"@, "admin"@, "create"@][1] != seq!["api"@, "user"@, "create"@][1]);
    assert(seq!["api"@, "admin"@, "create"@][1] != seq!["api"@, "link"@, "create"@][1]);
    assert(seq!["api"@, "user"@, "create"@][1] != seq!["api"@, "link"@, "create"@][1]);
    if spec_route(method, segs) is Some {
        if row_matches(0, method, segs) {
        } else if row_matches(1, method, segs) {
        } else if row_matches(2, method, segs) {
        } else if row_matches(3, method, segs) {
        } else if row_matches(4, method, segs) {
        } else if row_matches(5, method, segs) {
        } else {
            assert(row_matches(6, method, segs));
        }
    }
}

/// A request reaches an endpoint's handler only where the routing table
/// gives that endpoint and its body length is taken; the admin-only endpoint
/// only with a cookie whose token validated with the administrator role
pub proof fn lemma_handlers_run_after_checks(
    method: Method,
    segs: Seq<Seq<char>>,
    content_length: Option<u64>,
    json_ok: bool,
    cookie: Option<Result<UserClaims, String>>,
)
    ensures
        spec_gate(method, segs, content_length, json_ok, cookie) matches Ok(e) ==> {
            &&& spec_route(method, segs) == Some(e)
            &&& spec_body_length_ok(e, content_length)
            &&& spec_body_limit(e) is Some ==> json_ok
            &&& e is CreateAdmin ==> (cookie matches Some(Ok(c)) && c.role@ == admin_role())
        },
{
}

/// No endpoint takes a body longer than `MAX_BODY_LIMIT`, so no longer body
/// needs to be read
pub proof fn lemma_body_limits_within_max(e: EndpointView)
    ensures
        spec_body_limit(e) matches Some(limit) ==> limit <= MAX_BODY_LIMIT,
{
}

/// The service's own errors are answered as they are: the refusal of a
/// request by an error of the service gives that error's own reply
pub proof fn lemma_own_errors_answered_as_themselves(e: Error)
    ensures
        spec_reply(rejection_error(RejectionCause::Api(e))) == spec_reply(e@),
{
}

/// The path segments' literals are distinct from each other
proof fn lemma_literals_distinct()
    ensures
        "api"@ != "user"@,
        "user"@ != "admin"@,
        "user"@ != "link"@,
        "admin"@ != "link"@,
        "login"@ != "create"@,
        "ping"@ != "user"@,
        "ping"@ != "admin"@,
        "ping"@ != "link"@,
        "admin"@ != "adm"@,
{
    reveal_strlit("api");
    reveal_strlit("user");
    reveal_strlit("admin");
    reveal_strlit("adm");
    reveal_strlit("link");
    reveal_strlit("login");
    reveal_strlit("create");
    reveal_strlit("ping");
    assert("api"@[0] == 'a' && "user"@[0] == 'u' && "admin"@[0] == 'a' && "link"@[0] == 'l');
    assert("login"@.len() == 5 && "create"@.len() == 6 && "ping"@[0] == 'p');
    assert("admin"@.len() == 5 && "adm"@.len() == 3);
}

/// The reply to an error carries that error's own status code; its body
/// carries the message of a custom error, and the stored message of every
/// other kind
pub proof fn lemma_reply_keeps_status_and_message(e: ErrorView)
    ensures
        spec_reply(e).0 == e.status_code,
        e.kind matches ErrorKindView::Custom(m) ==> spec_reply(e).1 == Some(m),
        !(e.kind is Custom) ==> spec_reply(e).1 == e.msg,
{
}

/// A refused login or sign-up (an invalid user or password) is answered
/// with status 401 and its message
pub proof fn lemma_invalid_credentials_answered_unauthorized(msg: Seq<char>)
    ensures
        spec_reply(
            ErrorView { kind: ErrorKindView::InvalidUsrPwd, status_code: status::UNAUTHORIZED, msg: Some(msg) },
        ) == (401u16, Some(msg)),
{
}

/// Refused requests: a body or method refusal is answered with status 400,
/// anything unforeseen with status 500, and the service's own error with its
/// own status
pub proof fn lemma_rejection_statuses(cause: RejectionCause)
    ensures
        cause matches RejectionCause::Api(e) ==> spec_reply(rejection_error(cause)).0 == e@.status_code,
        cause is BodyDeserialize ==> spec_reply(rejection_error(cause)).0 == 400,
        cause is MethodNotAllowed ==> spec_reply(rejection_error(cause)).0 == 400,
        cause is Unhandled ==> spec_reply(rejection_error(cause)).0 == 500,
{
}

/// A unique violation is answered with status 409, every other database
/// failure with status 500
pub proof fn lemma_db_failure_statuses(f: DbFailure)
    ensures
        f is UniqueViolation ==> db_failure_error(f).status_code == 409,
        !(f is UniqueViolation) ==> db_failure_error(f).status_code == 500,
        f is UniqueViolation ==> account_insert_error(Seq::empty(), f).status_code == 409,
{
}

/// A taken user name is answered with a conflict naming the user
pub proof fn lemma_taken_name_is_conflict(user_name: Seq<char>, message: String)
    ensures
        account_insert_error(user_name, DbFailure::UniqueViolation(message)) == (ErrorView {
            kind: ErrorKindView::UniqueViolation,
            status_code: 409,
            msg: Some(user_name),
        }),
{
}

/// Which endpoint a request reaches depends on its cookie only for the
/// admin-only creation: for every other request the decision is the same
/// with any cookie, or none
pub proof fn lemma_cookie_matters_only_for_admin_create(
    method: Method,
    segs: Seq<Seq<char>>,
    content_length: Option<u64>,
    json_ok: bool,
    c1: Option<Result<UserClaims, String>>,
    c2: Option<Result<UserClaims, String>>,
)
    requires
        spec_route(method, segs) != Some(EndpointView::CreateAdmin),
    ensures
        spec_gate(method, segs, content_length, json_ok, c1) == spec_gate(
            method,
            segs,
            content_length,
            json_ok,
            c2,
        ),
{
}

/// Sign-up, login and link creation are open to anyone: a POST to them
/// with a JSON body within the limit reaches the handler, with any cookie or
/// none
pub proof fn lemma_open_endpoints_admit_anyone(n: u64, cookie: Option<Result<UserClaims, String>>)
    ensures
        n <= 10240 ==> spec_gate(Method::Post, seq!["api"@, "user"@, "create"@], Some(n), true, cookie)
            == Ok::<EndpointView, ErrorView>(EndpointView::CreateUser),
        n <= 10240 ==> spec_gate(Method::Post, seq!["api"@, "user"@, "login"@], Some(n), true, cookie)
            == Ok::<EndpointView, ErrorView>(EndpointView::Login),
        n <= 16384 ==> spec_gate(Method::Post, seq!["api"@, "link"@, "create"@], Some(n), true, cookie)
            == Ok::<EndpointView, ErrorView>(EndpointView::CreateLink),
{
    lemma_literals_distinct();
    assert(seq!["api"@, "user"@, "create"@] != seq!["api"@, "user"@, "login"@]) by {
        assert(seq!["api"@, "user"@, "create"@][2] != seq!["api"@, "user"@, "login"@][2]);
    }
    assert(seq!["api"@, "user"@, "create"@] != seq!["api"@, "admin"@, "create"@]) by {
        assert(seq!["api"@, "user"@, "create"@][1] != seq!["api"@, "admin"@, "create"@][1]);
    }
    assert(seq!["api"@, "link"@, "create"@] != seq!["api"@, "user"@, "login"@]) by {
        assert(seq!["api"@, "link"@, "create"@][1] != seq!["api"@, "user"@, "login"@][1]);
    }
    assert(seq!["api"@, "link"@, "create"@] != seq!["api"@, "admin"@, "create"@]) by {
        assert(seq!["api"@, "link"@, "create"@][1] != seq!["api"@, "admin"@, "create"@][1]);
    }
    assert(seq!["api"@, "link"@, "create"@] != seq!["api"@, "user"@, "create"@]) by {
        assert(seq!["api"@, "link"@, "create"@][1] != seq!["api"@, "user"@, "create"@][1]);
    }
}

/// The admin-only creation is reached exactly with a JSON body within the
/// limit and a cookie whose token validated with the role "admin"
pub proof fn lemma_admin_create_needs_admin(n: u64, cookie: Option<Result<UserClaims, String>>)
    ensures
        spec_gate(Method::Post, seq!["api"@, "admin"@, "create"@], Some(n), true, cookie) is Ok <==> (n
            <= 10240 && (cookie matches Some(Ok(c)) && c.role@ == "admin"@)),
{
    lemma_literals_distinct();
    assert(seq!["api"@, "admin"@, "create"@] != seq!["api"@, "user"@, "login"@]) by {
        assert(seq!["api"@, "admin"@, "create"@][1] != seq!["api"@, "user"@, "login"@][1]);
    }
}

/// The routing table: each endpoint is reached by its method and path
pub proof fn lemma_route_table(seg: Seq<char>, other: Method)
    ensures
        spec_route(Method::Post, seq!["api"@, "user"@, "login"@]) == Some(EndpointView::Login),
        spec_route(Method::Post, seq!["api"@, "admin"@, "create"@]) == Some(EndpointView::CreateAdmin),
        spec_route(Method::Post, seq!["api"@, "user"@, "create"@]) == Some(EndpointView::CreateUser),
        spec_route(Method::Post, seq!["api"@, "link"@, "create"@]) == Some(EndpointView::CreateLink),
        spec_route(Method::Get, Seq::<Seq<char>>::empty()) == Some(EndpointView::ServeIndex),
        spec_route(other, seq!["api"@, "ping"@]) == Some(EndpointView::Ping),
        seg.len() > 0 ==> spec_route(Method::Get, seq![seg]) == Some(EndpointView::RedirectLink(seg)),
        spec_route(Method::Get, seq!["api"@, "user"@, "login"@]) is None,
        spec_route(Method::Post, seq![seg]) is None,
{
    lemma_literals_distinct();
    assert(seq!["api"@, "user"@, "create"@] != seq!["api"@, "user"@, "login"@]) by {
        assert(seq!["api"@, "user"@, "create"@][2] != seq!["api"@, "user"@, "login"@][2]);
    }
    assert(seq!["api"@, "user"@, "create"@] != seq!["api"@, "admin"@, "create"@]) by {
        assert(seq!["api"@, "user"@, "create"@][1] != seq!["api"@, "admin"@, "create"@][1]);
    }
    assert(seq!["api"@, "admin"@, "create"@] != seq!["api"@, "user"@, "login"@]) by {
        assert(seq!["api"@, "admin"@, "create"@][1] != seq!["api"@, "user"@, "login"@][1]);
    }
    assert(seq!["api"@, "link"@, "create"@] != seq!["api"@, "user"@, "login"@]) by {
        assert(seq!["api"@, "link"@, "create"@][1] != seq!["api"@, "user"@, "login"@][1]);
    }
    assert(seq!["api"@, "link"@, "create"@] != seq!["api"@, "admin"@, "create"@]) by {
        assert(seq!["api"@, "link"@, "create"@][1] != seq!["api"@, "admin"@, "create"@][1]);
    }
    assert(seq!["api"@, "link"@, "create"@] != seq!["api"@, "user"@, "create"@]) by {
        assert(seq!["api"@, "link"@, "create"@][1] != seq!["api"@, "user"@, "create"@][1]);
    }
    assert(seq!["api"@, "user"@, "login"@] != seq!["api"@, "ping"@]) by {
        assert(seq!["api"@, "user"@, "login"@].len() != seq!["api"@, "ping"@].len());
    }
}

/// Only a token with the role "admin" passes the admin check; a missing
/// cookie is refused with status 401 and a token that does not validate
/// with status 500
pub proof fn lemma_admin_check(claims: UserClaims, msg: String)
    ensures
        spec_check_header(Some(Ok::<UserClaims, String>(claims))) is Ok <==> claims.role@ == "admin"@,
        spec_check_header(None) matches Err(e) && e.status_code == 401,
        spec_check_header(Some(Err::<UserClaims, String>(msg))) matches Err(e) && e.status_code == 500,
{
}

/// A long URL is accepted exactly when it parses as a URI with the scheme
/// http or https, whatever else it holds (a path, a query, a fragment)
pub proof fn lemma_http_urls_accepted(long_url: Seq<char>)
    ensures
        spec_check_long_url(long_url) is Ok <==> (uri_scheme_outcome(long_url) == Ok::<
            Option<Seq<char>>,
            Seq<char>,
        >(Some("http"@)) || uri_scheme_outcome(long_url) == Ok::<Option<Seq<char>>, Seq<char>>(
            Some("https"@),
        )),
{
}

/// The password rule is exactly a length of more than 8 bytes, with no
/// upper bound
pub proof fn lemma_password_rule(pwd: Seq<char>)
    ensures
        spec_valid_pwd(pwd) <==> encode_utf8(pwd).len() > 8,
{
}

/// Where the form's last url field parses, the form gives exactly the
/// parser's serialization of that URL; where it does not, the parser's
/// description after "error: "
pub proof fn lemma_form_gives_parsed_url(body: Seq<u8>, input: Seq<char>, outcome: Result<Seq<char>, Seq<char>>)
    requires
        last_value(form_pairs(body), "url"@) == Some(input),
        url_parse_outcome(input) == outcome,
    ensures
        outcome matches Ok(url) ==> spec_parse_form(body) == Ok::<Seq<char>, Seq<char>>(url),
        outcome matches Err(msg) ==> spec_parse_form(body) == Err::<Seq<char>, Seq<char>>("error: "@ + msg),
{
}

/// The value taken for a form field is that of the last pair with its
/// name: there is such a pair, and no later pair has the name; and there
/// is no value exactly when no pair has the name
pub proof fn lemma_last_value_is_last_pair(pairs: Seq<(Seq<char>, Seq<char>)>, key: Seq<char>)
    ensures
        last_value(pairs, key) is None <==> (forall|i: int| 0 <= i < pairs.len() ==> (#[trigger] pairs[i]).0 != key),
        last_value(pairs, key) matches Some(v) ==> exists|i: int|
            0 <= i < pairs.len() && (#[trigger] pairs[i]) == (key, v) && (forall|j: int|
                i < j < pairs.len() ==> (#[trigger] pairs[j]).0 != key),
    decreases pairs.len(),
{
    if pairs.len() > 0 {
        let rest = pairs.drop_last();
        lemma_last_value_is_last_pair(rest, key);
        if pairs.last().0 == key {
            let i = pairs.len() - 1;
            assert(pairs[i] == (key, pairs.last().1));
        } else {
            assert forall|i: int| 0 <= i < rest.len() implies rest[i] == pairs[i] by {}
            if let Some(v) = last_value(rest, key) {
                let i = choose|i: int|
                    0 <= i < rest.len() && (#[trigger] rest[i]) == (key, v) && (forall|j: int|
                        i < j < rest.len() ==> (#[trigger] rest[j]).0 != key);
                assert(pairs[i] == (key, v));
                assert forall|j: int| i < j < pairs.len() implies (#[trigger] pairs[j]).0 != key by {
                    if j < rest.len() {
                        assert(rest[j] == pairs[j]);
                    }
                }
            }
        }
    }
}

/// Splitting a piece without '/' gives that piece alone
proof fn lemma_split_without_slash(s: Seq<char>)
    requires
        forall|i: int| 0 <= i < s.len() ==> s[i] != '/',
    ensures
        split_slash(s) == seq![s],
    decreases s.len(),
{
    if s.len() > 0 {
        lemma_split_without_slash(s.drop_last());
        assert(s.drop_last().push(s.last()) =~= s);
        assert(seq![s.drop_last()].update(0, s.drop_last().push(s.last())) =~= seq![s]);
    } else {
        assert(s =~= Seq::<char>::empty());
    }
}

/// A path of one segment, with or without a trailing '/', has that one
/// segment: the short link of a redirect
pub proof fn lemma_one_segment_path(s: Seq<char>)
    requires
        s.len() > 0,
        forall|i: int| 0 <= i < s.len() ==> s[i] != '/',
    ensures
        spec_segments(seq!['/'] + s) == seq![s],
        spec_segments(seq!['/'] + s + seq!['/']) == seq![s],
{
    lemma_split_without_slash(s);
    assert((seq!['/'] + s).drop_first() =~= s);
    let t = s + seq!['/'];
    assert((seq!['/'] + s + seq!['/']).drop_first() =~= t);
    assert(t.drop_last() =~= s);
    assert(split_slash(t) == seq![s].push(Seq::<char>::empty()));
    assert(seq![s].push(Seq::<char>::empty()).drop_last() =~= seq![s]);
}

/// A login is let in exactly when the user was found and bcrypt accepts the
/// password for the stored hash; an unknown user or a wrong password is
/// refused with status 401, a failed lookup with status 500
pub proof fn lemma_login_decision(login: LoginUser, found: Result<User, DbFailure>)
    ensures
        spec_check_login(login, found) is Ok <==> (found matches Ok(u) && bcrypt_verify_outcome(
            login.user_pwd@,
            u.user_pwd@,
        ) == Ok::<bool, Seq<char>>(true)),
        found is Err && found->Err_0 is NotFound ==> (spec_check_login(login, found) matches Err(e)
            && e.status_code == 401),
        (found matches Ok(u) && bcrypt_verify_outcome(login.user_pwd@, u.user_pwd@) == Ok::<
            bool,
            Seq<char>,
        >(false)) ==> (spec_check_login(login, found) matches Err(e) && e.status_code == 401),
        found is Err && !(found->Err_0 is NotFound) ==> (spec_check_login(login, found) matches Err(
            e,
        ) && e.status_code == 500),
{
}

/// Accounts are stored under the documented role names: an ordinary user
/// as "user", an administrator as "admin", so sign-up never makes an admin
pub proof fn lemma_role_names()
    ensures
        role_name(Role::User) == "user"@,
        role_name(Role::Admin) == "admin"@,
        role_name(Role::User) != "admin"@,
{
    lemma_literals_distinct();
}

/// The confirmation of a new account names the account and its kind
pub proof fn lemma_created_messages(user_name: Seq<char>)
    ensures
        created_message(Role::User, user_name) == "User "@ + user_name + " created!"@,
        created_message(Role::Admin, user_name) == "Admin "@ + user_name + " created!"@,
{
}

/// The session cookie is named "jwt", holds the token right after "jwt=",
/// and lives for 14 days (1209600 seconds)
pub proof fn lemma_session_cookie_holds_token(token: Seq<char>)
    ensures
        spec_session_cookie(token).subrange(0, 4) == "jwt="@,
        spec_session_cookie(token).subrange(4, 4 + token.len() as int) == token,
        spec_session_cookie(token).skip(4 + token.len() as int) == "; Path=/; HttpOnly; Max-Age=1209600; SameSite=Lax;"@,
{
    reveal_strlit("jwt=");
    let c = spec_session_cookie(token);
    assert(c.subrange(0, 4) =~= "jwt="@);
    assert(c.subrange(4, 4 + token.len() as int) =~= token);
    assert(c.skip(4 + token.len() as int) =~= "; Path=/; HttpOnly; Max-Age=1209600; SameSite=Lax;"@);
}

/// A request without a content type is taken as JSON, one with an
/// unreadable content type is not
pub proof fn lemma_json_content_type_defaults()
    ensures
        spec_json_content_type(None),
        !spec_json_content_type(Some(None)),
{
}

/// The pieces of a split hold no '/'
proof fn lemma_split_pieces_have_no_slash(s: Seq<char>)
    ensures
        forall|i: int, k: int|
            0 <= i < split_slash(s).len() && 0 <= k < split_slash(s)[i].len() ==> #[trigger] split_slash(s)[i][k]
                != '/',
        split_slash(s).len() >= 1,
    decreases s.len(),
{
    if s.len() > 0 {
        lemma_split_pieces_have_no_slash(s.drop_last());
        let p = split_slash(s.drop_last());
        if s.last() != '/' {
            let q = p.update(p.len() - 1, p.last().push(s.last()));
            assert forall|i: int, k: int| 0 <= i < q.len() && 0 <= k < q[i].len() implies #[trigger] q[i][k] != '/' by {
                if i == p.len() - 1 {
                    if k < p.last().len() {
                        assert(q[i][k] == p[i][k]);
                    }
                } else {
                    assert(q[i] == p[i]);
                }
            }
        } else {
            let q = p.push(Seq::<char>::empty());
            assert forall|i: int, k: int| 0 <= i < q.len() && 0 <= k < q[i].len() implies #[trigger] q[i][k] != '/' by {
                assert(i < p.len());
                assert(q[i] == p[i]);
            }
        }
    }
}

/// No path segment holds a '/'
pub proof fn lemma_segments_have_no_slash(path: Seq<char>)
    ensures
        forall|i: int, k: int|
            0 <= i < spec_segments(path).len() && 0 <= k < spec_segments(path)[i].len() ==> #[trigger] spec_segments(path)[i][k]
                != '/',
{
    let body = if path.len() > 0 && path[0] == '/' {
        path.drop_first()
    } else {
        path
    };
    lemma_split_pieces_have_no_slash(body);
    let parts = split_slash(body);
    let segs = spec_segments(path);
    assert forall|i: int, k: int| 0 <= i < segs.len() && 0 <= k < segs[i].len() implies #[trigger] segs[i][k] != '/' by {
        assert(segs[i] == parts[i]);
        assert(parts[i][k] != '/');
    }
}

} // verus!
