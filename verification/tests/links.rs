use tiny_link::db::Link;
use tiny_link::error::ErrorKind;
use tiny_link::parser::validate_path;
use tiny_link::routes::api::{check_scheme, create_link, parse_form, valid_recvd_path};
use tiny_link::routes::{route, Endpoint, Method};

#[test]
fn http_and_https_urls_are_accepted() {
    assert!(parse_form("http://example.com/a").is_ok());
    assert!(parse_form("https://example.com").is_ok());
}

#[test]
fn other_schemes_are_refused() {
    let e = parse_form("ftp://example.com").unwrap_err();
    assert!(matches!(e.kind(), ErrorKind::InvalidForm));
    assert_eq!(e.status_code(), 400);
    assert_eq!(e.msg(), Some("Form URI is not 'https' or 'http'".to_string()));
    let e = parse_form("/just/a/path").unwrap_err();
    assert_eq!(e.msg(), Some("Form URI is not 'https' or 'http'".to_string()));
}

#[test]
fn unparsable_uri_is_refused() {
    let e = parse_form("").unwrap_err();
    assert_eq!(e.status_code(), 400);
    assert_eq!(e.msg(), Some("empty string".to_string()));
}

#[test]
fn check_scheme_decides_on_scheme() {
    assert!(check_scheme(Ok(Some("https".to_string()))).is_ok());
    assert!(check_scheme(Ok(Some("HTTP".to_string()))).is_err());
    assert!(check_scheme(Ok(None)).is_err());
    assert_eq!(check_scheme(Err("invalid".to_string())).unwrap_err().msg(), Some("invalid".to_string()));
}

#[test]
fn created_link_has_six_alphanumeric_chars() {
    let t = create_link(Link { long_url: "https://example.com/page".to_string() }).unwrap();
    assert_eq!(t.long_link, "https://example.com/page");
    assert_eq!(t.short_link.chars().count(), 6);
    assert!(t.short_link.chars().all(|c| c.is_ascii_alphanumeric()));
    assert!(t.long_link.parse::<hyper::Uri>().is_ok());
}

#[test]
fn created_link_with_bad_url_is_refused() {
    let e = create_link(Link { long_url: "mailto:a@b.c".to_string() }).unwrap_err();
    assert_eq!(e.status_code(), 400);
}

#[test]
fn created_link_can_be_looked_up() {
    let t = create_link(Link { long_url: "http://example.com".to_string() }).unwrap();
    let segs = vec![t.short_link.clone()];
    assert!(matches!(route(Method::Get, &segs), Some(Endpoint::RedirectLink(ref p)) if *p == t.short_link));
    assert_eq!(valid_recvd_path(t.short_link.clone()), Ok(t.short_link.clone()));
    assert!(validate_path(format!("/{}", t.short_link)).is_ok());
}

#[test]
fn received_path_must_be_longer_than_five() {
    assert_eq!(valid_recvd_path("abcdef".to_string()), Ok("abcdef".to_string()));
    assert_eq!(valid_recvd_path("abcde".to_string()), Err(()));
    assert_eq!(valid_recvd_path(String::new()), Err(()));
}
