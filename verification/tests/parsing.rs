use tiny_link::parser::{form_field, parse_form, url_field_outcome, validate_path};
use tiny_link::response::{get_response, post_response, ResponseBody};
use tiny_link::structs::TinyLink;

#[test]
fn form_url_is_decoded_and_serialized() {
    assert_eq!(parse_form(b"url=https%3A%2F%2Fexample.com"), Ok("https://example.com/".to_string()));
}

#[test]
fn form_without_url_is_refused() {
    assert_eq!(parse_form(b"name=x&other=y"), Err("'url' key not found on received form".to_string()));
    assert_eq!(parse_form(b""), Err("'url' key not found on received form".to_string()));
}

#[test]
fn form_with_bad_url_is_refused() {
    assert_eq!(parse_form(b"url=not+a+url"), Err("error: relative URL without a base".to_string()));
}

#[test]
fn later_url_field_wins() {
    assert_eq!(parse_form(b"url=http://a.com&url=http://b.com"), Ok("http://b.com/".to_string()));
}

#[test]
fn form_field_takes_last_value() {
    let pairs = vec![
        ("url".to_string(), "1".to_string()),
        ("x".to_string(), "2".to_string()),
        ("url".to_string(), "3".to_string()),
    ];
    assert_eq!(form_field(&pairs, "url"), Some("3".to_string()));
    assert_eq!(form_field(&pairs, "y"), None);
}

#[test]
fn url_field_outcome_prefixes_errors() {
    assert_eq!(url_field_outcome(Ok("http://x/".to_string())), Ok("http://x/".to_string()));
    assert_eq!(url_field_outcome(Err("bad".to_string())), Err("error: bad".to_string()));
}

#[test]
fn path_of_six_is_valid() {
    let s = validate_path("/abcdef".to_string()).unwrap();
    assert_eq!(s.short_url, "abcdef");
}

#[test]
fn path_of_five_is_invalid() {
    let e = validate_path("/abcde".to_string()).unwrap_err();
    assert_eq!(e, "Invalid Path, the provided path must be 6 characters long");
    assert!(validate_path("/".to_string()).is_err());
}

#[test]
fn path_length_counts_bytes() {
    // three two-byte characters are six bytes
    assert!(validate_path("/ééé".to_string()).is_ok());
    // the first character is removed whatever it is
    assert_eq!(validate_path("éabcdef".to_string()).unwrap().short_url, "abcdef");
}

#[test]
fn post_response_replies() {
    let r = post_response(Ok("abc123".to_string()));
    assert_eq!(r.status, 200);
    assert!(matches!(r.body, ResponseBody::Url(ref u) if u == "abc123"));
    let r = post_response(Err("insert failed".to_string()));
    assert_eq!(r.status, 500);
    assert!(matches!(r.body, ResponseBody::Error(ref m) if m == "insert failed"));
}

#[test]
fn get_response_replies() {
    let link = TinyLink { long_link: "http://x.com".to_string(), short_link: "abcdef".to_string() };
    let r = get_response(Some(link));
    assert_eq!(r.status, 200);
    assert!(matches!(r.body, ResponseBody::Link { ref short_link, ref long_link }
        if short_link == "abcdef" && long_link == "http://x.com"));
    let r = get_response(None);
    assert_eq!(r.status, 500);
    assert!(matches!(r.body, ResponseBody::Error(ref m) if m == "Specified path not found on DB!"));
}
