use tiny_link::error::{handle_rejection, DbFailure, Error, ErrorKind, RejectionCause};
use tiny_link::status;

#[test]
fn user_validation_err_is_unauthorized() {
    let e = Error::user_validation_err("bad".to_string());
    assert!(matches!(e.kind(), ErrorKind::InvalidUsrPwd));
    assert_eq!(e.status_code(), 401);
    assert_eq!(e.msg(), Some("bad".to_string()));
}

#[test]
fn invalid_forms_is_bad_request() {
    let e = Error::invalid_forms("form".to_string());
    assert!(matches!(e.kind(), ErrorKind::InvalidForm));
    assert_eq!(e.status_code(), 400);
    let r = e.to_json_reply();
    assert_eq!(r.status, 400);
    assert_eq!(r.error, Some("form".to_string()));
}

#[test]
fn database_is_internal_error() {
    let e = Error::database("db down".to_string());
    assert!(matches!(e.kind(), ErrorKind::Database));
    assert_eq!(e.status_code(), status::INTERNAL_SERVER_ERROR);
    assert_eq!(e.to_json_reply().error, Some("db down".to_string()));
}

#[test]
fn unique_violation_is_conflict() {
    let e = Error::unique_violation("bob".to_string());
    assert!(matches!(e.kind(), ErrorKind::UniqueViolation));
    assert_eq!(e.status_code(), 409);
    assert_eq!(e.to_json_reply().error, Some("bob".to_string()));
}

#[test]
fn custom_error_replies_with_its_message() {
    let e = Error::custom("teapot".to_string(), 418);
    assert!(matches!(e.kind(), ErrorKind::Custom(m) if m == "teapot"));
    assert_eq!(e.msg(), None);
    let r = e.to_json_reply();
    assert_eq!(r.status, 418);
    assert_eq!(r.error, Some("teapot".to_string()));
}

#[test]
fn custom_with_log_replies_with_message_not_log() {
    let e = Error::custom_with_log("shown".to_string(), 500, "logged".to_string());
    assert_eq!(e.msg(), Some("logged".to_string()));
    let r = e.to_json_reply();
    assert_eq!(r.status, 500);
    assert_eq!(r.error, Some("shown".to_string()));
}

#[test]
fn db_failures_map_to_errors() {
    let e = Error::from_db_failure(DbFailure::UniqueViolation("dup key".to_string()));
    assert_eq!(e.status_code(), 409);
    assert_eq!(e.msg(), Some("dup key".to_string()));
    let e = Error::from_db_failure(DbFailure::OtherDatabase("oops".to_string()));
    assert!(matches!(e.kind(), ErrorKind::Database));
    assert_eq!(e.msg(), Some("oops".to_string()));
    let e = Error::from_db_failure(DbFailure::NotFound("Record not found".to_string()));
    assert_eq!(e.status_code(), 500);
    assert_eq!(e.msg(), Some("Record not found".to_string()));
    let e = Error::from_db_failure(DbFailure::Other("closed".to_string()));
    assert_eq!(e.msg(), Some("closed".to_string()));
}

#[test]
fn outside_failures_map_to_errors() {
    assert_eq!(Error::from_pool_error("timed out".to_string()).status_code(), 500);
    let e = Error::from_url_error("empty host".to_string());
    assert!(matches!(e.kind(), ErrorKind::InvalidForm));
    assert_eq!(Error::from_invalid_uri("invalid format".to_string()).status_code(), 400);
    let e = Error::from_bcrypt_error("Invalid hash: x".to_string());
    assert_eq!(e.status_code(), 401);
    assert_eq!(e.msg(), Some("Invalid hash: x".to_string()));
    let r = Error::from_jwt_error("ExpiredSignature".to_string()).to_json_reply();
    assert_eq!(r.status, 500);
    assert_eq!(r.error, Some("JWT Error! ExpiredSignature".to_string()));
    let r = Error::from_invalid_header("bad".to_string()).to_json_reply();
    assert_eq!(r.error, Some("INTERNAL SERVER ERROR! bad".to_string()));
}

#[test]
fn rejection_of_own_error_is_answered_as_itself() {
    let r = handle_rejection(RejectionCause::Api(Error::unique_violation("ann".to_string())));
    assert_eq!(r.status, 409);
    assert_eq!(r.error, Some("ann".to_string()));
}

#[test]
fn body_and_method_rejections_are_bad_requests() {
    let r = handle_rejection(RejectionCause::BodyDeserialize("missing field".to_string()));
    assert_eq!(r.status, 400);
    assert_eq!(r.error, Some("missing field".to_string()));
    let r = handle_rejection(RejectionCause::MethodNotAllowed("HTTP method not allowed".to_string()));
    assert_eq!(r.status, 400);
    assert_eq!(r.error, Some("HTTP method not allowed".to_string()));
}

#[test]
fn unhandled_rejection_is_internal_error_with_pretty_text() {
    let r = handle_rejection(RejectionCause::Unhandled {
        pretty: "Rejection(\n    NotFound,\n)".to_string(),
        debug: "Rejection(NotFound)".to_string(),
    });
    assert_eq!(r.status, 500);
    assert_eq!(r.error, Some("Rejection(\n    NotFound,\n)".to_string()));
}

#[test]
fn body_error_is_bad_request() {
    let r = Error::from_body_error("missing field `url`".to_string()).to_json_reply();
    assert_eq!(r.status, 400);
    assert_eq!(r.error, Some("Request body deserialize error: missing field `url`".to_string()));
}
