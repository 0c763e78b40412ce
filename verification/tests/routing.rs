use tiny_link::routes::ui::{serve_file, serve_index, serve_other};
use tiny_link::routes::{route, Endpoint, Method};
use tiny_link::status;

fn segs(parts: &[&str]) -> Vec<String> {
    parts.iter().map(|s| s.to_string()).collect()
}

#[test]
fn routes_of_the_table() {
    assert!(matches!(route(Method::Post, &segs(&["api", "user", "login"])), Some(Endpoint::Login)));
    assert!(matches!(route(Method::Post, &segs(&["api", "admin", "create"])), Some(Endpoint::CreateAdmin)));
    assert!(matches!(route(Method::Post, &segs(&["api", "user", "create"])), Some(Endpoint::CreateUser)));
    assert!(matches!(route(Method::Get, &segs(&["abcdef"])), Some(Endpoint::RedirectLink(ref p)) if p == "abcdef"));
    assert!(matches!(route(Method::Post, &segs(&["api", "link", "create"])), Some(Endpoint::CreateLink)));
    assert!(matches!(route(Method::Get, &segs(&[])), Some(Endpoint::ServeIndex)));
    assert!(matches!(route(Method::Get, &segs(&["api", "ping"])), Some(Endpoint::Ping)));
    assert!(matches!(route(Method::Other, &segs(&["api", "ping"])), Some(Endpoint::Ping)));
}

#[test]
fn unknown_requests_are_not_routed() {
    assert!(route(Method::Get, &segs(&["api", "user", "login"])).is_none());
    assert!(route(Method::Post, &segs(&["abcdef"])).is_none());
    assert!(route(Method::Post, &segs(&[])).is_none());
    assert!(route(Method::Post, &segs(&["api", "link", "create", "x"])).is_none());
    assert!(route(Method::Other, &segs(&["abcdef"])).is_none());
}

#[test]
fn limits_and_admin_routes() {
    assert_eq!(Endpoint::Login.content_length_limit(), Some(10240));
    assert_eq!(Endpoint::CreateLink.content_length_limit(), Some(16384));
    assert_eq!(Endpoint::Ping.content_length_limit(), None);
    assert!(Endpoint::CreateAdmin.requires_admin());
    assert!(!Endpoint::CreateUser.requires_admin());
    assert!(!Endpoint::RedirectLink("abcdef".to_string()).requires_admin());
}

#[test]
fn existing_file_is_served_with_its_type() {
    let assets = segs(&["index.html", "style.css", "404.html"]);
    let f = serve_file("style.css", &assets).unwrap();
    assert_eq!(f.asset, "style.css");
    assert_eq!(f.content_type, "text/css");
    let f = serve_index(&assets).unwrap();
    assert_eq!(f.asset, "index.html");
    assert_eq!(f.content_type, "text/html");
}

#[test]
fn missing_file_gets_not_found_page_with_requested_type() {
    let assets = segs(&["404.html"]);
    let f = serve_other("app.js", &assets).unwrap();
    assert_eq!(f.asset, "404.html");
    assert_eq!(f.content_type, "text/javascript");
    let f = serve_other("README", &assets).unwrap();
    assert_eq!(f.content_type, "text/plain");
}

#[test]
fn no_file_and_no_not_found_page_is_error() {
    let e = serve_file("a.html", &segs(&["b.html"])).unwrap_err();
    let r = e.to_json_reply();
    assert_eq!(r.status, status::NOT_FOUND);
    assert_eq!(r.error, Some("Could not find file".to_string()));
}

use tiny_link::error::{rejection_error_of, Error, ErrorKind, RejectionCause};
use tiny_link::jwt::{UserClaims, TOKEN_EXPIRY};
use tiny_link::routes::api::{lookup_step, not_found_page_name, LookupStep};
use tiny_link::routes::{gate, json_content_type, path_segments, MAX_BODY_LIMIT};

fn admin_cookie(role: &str) -> Option<Result<UserClaims, String>> {
    Some(Ok(UserClaims { user_name: "a".to_string(), role: role.to_string(), exp: TOKEN_EXPIRY }))
}

#[test]
fn path_segments_follow_route_matching() {
    assert_eq!(path_segments("/"), Vec::<String>::new());
    assert_eq!(path_segments("/api/ping"), segs(&["api", "ping"]));
    assert_eq!(path_segments("/api/ping/"), segs(&["api", "ping"]));
    assert_eq!(path_segments("/api//ping"), segs(&["api", "", "ping"]));
    assert_eq!(path_segments("/abc//"), segs(&["abc", ""]));
    assert_eq!(path_segments("//"), segs(&[""]));
    assert_eq!(path_segments("/ab/ç"), segs(&["ab", "ç"]));
}

#[test]
fn empty_segment_is_not_a_short_link() {
    assert!(route(Method::Get, &path_segments("//")).is_none());
    assert!(matches!(route(Method::Get, &path_segments("/abcdef/")), Some(Endpoint::RedirectLink(ref p)) if p == "abcdef"));
}

#[test]
fn gate_lets_routed_requests_through() {
    let login = segs(&["api", "user", "login"]);
    assert!(matches!(gate(Method::Post, &login, Some(40), true, None), Ok(Endpoint::Login)));
    assert!(matches!(gate(Method::Get, &segs(&["abcdef"]), None, false, None), Ok(Endpoint::RedirectLink(_))));
}

#[test]
fn gate_refuses_as_not_routed() {
    let login = segs(&["api", "user", "login"]);
    for r in [
        gate(Method::Get, &login, Some(40), true, None),
        gate(Method::Post, &login, None, true, None),
        gate(Method::Post, &login, Some(10241), true, None),
        gate(Method::Post, &login, Some(40), false, None),
    ] {
        let reply = r.unwrap_err().to_json_reply();
        assert_eq!(reply.status, 400);
        assert_eq!(reply.error, Some("HTTP method not allowed".to_string()));
    }
    assert!(gate(Method::Post, &segs(&["api", "link", "create"]), Some(16384), true, None).is_ok());
    assert!(gate(Method::Post, &segs(&["api", "link", "create"]), Some(16385), true, None).is_err());
}

#[test]
fn gate_checks_admin_token() {
    let create = segs(&["api", "admin", "create"]);
    assert!(matches!(gate(Method::Post, &create, Some(40), true, admin_cookie("admin")), Ok(Endpoint::CreateAdmin)));
    let r = gate(Method::Post, &create, Some(40), true, admin_cookie("user")).unwrap_err().to_json_reply();
    assert_eq!(r.status, 401);
    assert_eq!(r.error, Some("Current user can't use this!".to_string()));
    let r = gate(Method::Post, &create, Some(40), true, None).unwrap_err().to_json_reply();
    assert_eq!(r.error, Some("Unauthorized user! No Cookie Found ".to_string()));
    // the length is checked before the token
    let r = gate(Method::Post, &create, None, true, None).unwrap_err().to_json_reply();
    assert_eq!(r.error, Some("HTTP method not allowed".to_string()));
}

#[test]
fn json_content_types() {
    assert!(json_content_type(None));
    assert!(json_content_type(Some(Some("application/json".to_string()))));
    assert!(json_content_type(Some(Some("Application/JSON; charset=utf-8".to_string()))));
    assert!(!json_content_type(Some(Some("text/plain".to_string()))));
    assert!(!json_content_type(Some(Some("not a type".to_string()))));
    assert!(!json_content_type(Some(None)));
}

#[test]
fn body_lengths() {
    assert!(Endpoint::Login.body_length_ok(Some(10240)));
    assert!(!Endpoint::Login.body_length_ok(Some(10241)));
    assert!(!Endpoint::CreateUser.body_length_ok(None));
    assert!(Endpoint::Ping.body_length_ok(None));
    assert_eq!(MAX_BODY_LIMIT, 16384);
}

#[test]
fn short_lookup_path_gets_not_found_page() {
    assert!(matches!(lookup_step("abcde".to_string()), LookupStep::NotFoundPage));
    assert!(matches!(lookup_step("abcdef".to_string()), LookupStep::Query(ref p) if p == "abcdef"));
    assert_eq!(not_found_page_name(), "404.html");
}

#[test]
fn rejection_error_keeps_log_message() {
    let e = rejection_error_of(RejectionCause::Unhandled { pretty: "p".to_string(), debug: "d".to_string() });
    assert!(matches!(e.kind(), ErrorKind::Custom(m) if m == "p"));
    assert_eq!(e.msg(), Some("d".to_string()));
    let e = rejection_error_of(RejectionCause::Api(Error::database("x".to_string())));
    assert_eq!(e.msg(), Some("x".to_string()));
}
