//! The service's error type: what went wrong, the status it is answered
//! with, and the message that goes into the JSON body `{"error": ...}`.
use vstd::prelude::*;
use vstd::string::*;

use crate::status;

verus! {

/// Types of error that can occur
#[derive(Clone, Debug)]
pub enum ErrorKind {
    InvalidUsrPwd,
    Database,
    InvalidForm,
    Custom(String),
    UniqueViolation,
}

/// The mathematical value of an [`ErrorKind`].
pub enum ErrorKindView {
    InvalidUsrPwd,
    Database,
    InvalidForm,
    Custom(Seq<char>),
    UniqueViolation,
}

impl View for ErrorKind {
    type V = ErrorKindView;

    open spec fn view(&self) -> ErrorKindView {
        match self {
            ErrorKind::InvalidUsrPwd => ErrorKindView::InvalidUsrPwd,
            ErrorKind::Database => ErrorKindView::Database,
            ErrorKind::InvalidForm => ErrorKindView::InvalidForm,
            ErrorKind::Custom(m) => ErrorKindView::Custom(m@),
            ErrorKind::UniqueViolation => ErrorKindView::UniqueViolation,
        }
    }
}

/// Struct that represents possible Errors
///
/// `to_json_reply()` gives the status and the body of the reply to send.
#[derive(Clone, Debug)]
pub struct Error {
    kind: ErrorKind,
    status_code: u16,
    msg: Option<String>,
}

/// The mathematical value of an [`Error`].
pub struct ErrorView {
    pub kind: ErrorKindView,
    pub status_code: u16,
    pub msg: Option<Seq<char>>,
}

pub open spec fn opt_string_view(o: Option<String>) -> Option<Seq<char>> {
    match o {
        Some(s) => Some(s@),
        None => None,
    }
}

impl View for Error {
    type V = ErrorView;

    closed spec fn view(&self) -> ErrorView {
        ErrorView {
            kind: self.kind@,
            status_code: self.status_code,
            msg: opt_string_view(self.msg),
        }
    }
}

/// What an error is answered with: a status, and the value of the `error`
/// field of the JSON body (`null` where it is `None`).
#[derive(Debug)]
pub struct ErrorReply {
    pub status: u16,
    pub error: Option<String>,
}

/// The reply that an error with the given view is answered with: the custom
/// message for a custom error, the stored message for every other kind.
pub open spec fn spec_reply(e: ErrorView) -> (u16, Option<Seq<char>>) {
    match e.kind {
        ErrorKindView::Custom(m) => (e.status_code, Some(m)),
        _ => (e.status_code, e.msg),
    }
}

pub open spec fn unit_result_view(r: Result<(), Error>) -> Result<(), ErrorView> {
    match r {
        Ok(()) => Ok(()),
        Err(e) => Err(e@),
    }
}

pub open spec fn reply_view(r: ErrorReply) -> (u16, Option<Seq<char>>) {
    (r.status, opt_string_view(r.error))
}

fn clone_opt(o: &Option<String>) -> (res: Option<String>)
    ensures
        opt_string_view(res) == opt_string_view(*o),
{
    match o {
        Some(s) => Some(s.clone()),
        None => None,
    }
}

impl Error {
    /// Errors that can occur with user login/register
    pub fn user_validation_err(msg: String) -> (e: Self)
        ensures
            e@ == (ErrorView {
                kind: ErrorKindView::InvalidUsrPwd,
                status_code: status::UNAUTHORIZED,
                msg: Some(msg@),
            }),
    {
        Error { kind: ErrorKind::InvalidUsrPwd, status_code: status::UNAUTHORIZED, msg: Some(msg) }
    }

    /// Invalid received POST request forms!
    pub fn invalid_forms(msg: String) -> (e: Self)
        ensures
            e@ == (ErrorView {
                kind: ErrorKindView::InvalidForm,
                status_code: status::BAD_REQUEST,
                msg: Some(msg@),
            }),
    {
        Error { kind: ErrorKind::InvalidForm, status_code: status::BAD_REQUEST, msg: Some(msg) }
    }

    /// Database Error
    pub fn database(message: String) -> (e: Self)
        ensures
            e@ == (ErrorView {
                kind: ErrorKindView::Database,
                status_code: status::INTERNAL_SERVER_ERROR,
                msg: Some(message@),
            }),
    {
        Error {
            kind: ErrorKind::Database,
            status_code: status::INTERNAL_SERVER_ERROR,
            msg: Some(message),
        }
    }

    /// A value that must be unique (a user name) is taken already
    pub fn unique_violation(msg: String) -> (e: Self)
        ensures
            e@ == (ErrorView {
                kind: ErrorKindView::UniqueViolation,
                status_code: status::CONFLICT,
                msg: Some(msg@),
            }),
    {
        Error { kind: ErrorKind::UniqueViolation, status_code: status::CONFLICT, msg: Some(msg) }
    }

    /// An error answered with the given message and status
    pub fn custom(msg: String, status_code: u16) -> (e: Self)
        ensures
            e@ == (ErrorView {
                kind: ErrorKindView::Custom(msg@),
                status_code: status_code,
                msg: None,
            }),
    {
        Error { kind: ErrorKind::Custom(msg), status_code, msg: None }
    }

    /// An error answered with the given message and status, that logs
    /// `log_msg`
    pub fn custom_with_log(msg: String, status_code: u16, log_msg: String) -> (e: Self)
        ensures
            e@ == (ErrorView {
                kind: ErrorKindView::Custom(msg@),
                status_code: status_code,
                msg: Some(log_msg@),
            }),
    {
        Error { kind: ErrorKind::Custom(msg), status_code, msg: Some(log_msg) }
    }

    /// The status and the body of the reply to this error
    pub fn to_json_reply(&self) -> (r: ErrorReply)
        ensures
            reply_view(r) == spec_reply(self@),
            r.status == self@.status_code,
            match self@.kind {
                ErrorKindView::Custom(m) => opt_string_view(r.error) == Some(m),
                _ => opt_string_view(r.error) == self@.msg,
            },
    {
        match &self.kind {
            ErrorKind::Custom(m) => ErrorReply { status: self.status_code, error: Some(m.clone()) },
            _ => ErrorReply { status: self.status_code, error: clone_opt(&self.msg) },
        }
    }

    /// The kind of this error
    pub fn kind(&self) -> (k: &ErrorKind)
        ensures
            k@ == self@.kind,
    {
        &self.kind
    }

    /// The status this error is answered with
    pub fn status_code(&self) -> (s: u16)
        ensures
            s == self@.status_code,
    {
        self.status_code
    }

    /// The message stored with this error (logged, and sent for every kind
    /// but a custom one)
    pub fn msg(&self) -> (m: Option<String>)
        ensures
            opt_string_view(m) == self@.msg,
    {
        clone_opt(&self.msg)
    }
}

/// `prefix` followed by `s`
pub fn concat(prefix: &str, s: &str) -> (res: String)
    ensures
        res@ == prefix@ + s@,
{
    let mut res = String::from_str(prefix);
    res.append(s);
    res
}

/// The ways a database operation can fail, held as plain values
#[derive(Debug)]
pub enum DbFailure {
    /// A row broke a unique constraint; the database's message
    UniqueViolation(String),
    /// Another error reported by the database; its message
    OtherDatabase(String),
    /// The query found no row; the error's description
    NotFound(String),
    /// Any other failure (connection, serialization, ...); its description
    Other(String),
}

/// The error a database failure is turned into
pub open spec fn db_failure_error(f: DbFailure) -> ErrorView {
    match f {
        DbFailure::UniqueViolation(m) => ErrorView {
            kind: ErrorKindView::UniqueViolation,
            status_code: status::CONFLICT,
            msg: Some(m@),
        },
        DbFailure::OtherDatabase(m) => ErrorView {
            kind: ErrorKindView::Database,
            status_code: status::INTERNAL_SERVER_ERROR,
            msg: Some(m@),
        },
        DbFailure::NotFound(d) => ErrorView {
            kind: ErrorKindView::Database,
            status_code: status::INTERNAL_SERVER_ERROR,
            msg: Some(d@),
        },
        DbFailure::Other(d) => ErrorView {
            kind: ErrorKindView::Database,
            status_code: status::INTERNAL_SERVER_ERROR,
            msg: Some(d@),
        },
    }
}

impl Error {
    /// A failed database operation: a unique violation keeps its kind, every
    /// other failure is a database error with the failure's message
    pub fn from_db_failure(f: DbFailure) -> (e: Self)
        ensures
            e@ == db_failure_error(f),
    {
        match f {
            DbFailure::UniqueViolation(m) => Error::unique_violation(m),
            DbFailure::OtherDatabase(m) => Error::database(m),
            DbFailure::NotFound(d) => Error::database(d),
            DbFailure::Other(d) => Error::database(d),
        }
    }

    /// The connection pool failed, with the given description
    pub fn from_pool_error(description: String) -> (e: Self)
        ensures
            e@ == (ErrorView {
                kind: ErrorKindView::Database,
                status_code: status::INTERNAL_SERVER_ERROR,
                msg: Some(description@),
            }),
    {
        Error::database(description)
    }

    /// A URL did not parse, with the parser's description
    pub fn from_url_error(description: String) -> (e: Self)
        ensures
            e@ == (ErrorView {
                kind: ErrorKindView::InvalidForm,
                status_code: status::BAD_REQUEST,
                msg: Some(description@),
            }),
    {
        Error::invalid_forms(description)
    }

    /// A URI did not parse, with the parser's description
    pub fn from_invalid_uri(description: String) -> (e: Self)
        ensures
            e@ == (ErrorView {
                kind: ErrorKindView::InvalidForm,
                status_code: status::BAD_REQUEST,
                msg: Some(description@),
            }),
    {
        Error::invalid_forms(description)
    }

    /// Hashing or checking a password failed, with bcrypt's description
    pub fn from_bcrypt_error(description: String) -> (e: Self)
        ensures
            e@ == (ErrorView {
                kind: ErrorKindView::InvalidUsrPwd,
                status_code: status::UNAUTHORIZED,
                msg: Some(description@),
            }),
    {
        Error::user_validation_err(description)
    }

    /// Making or checking a token failed, with the JWT library's description
    pub fn from_jwt_error(description: String) -> (e: Self)
        ensures
            e@ == (ErrorView {
                kind: ErrorKindView::Custom("JWT Error! "@ + description@),
                status_code: status::INTERNAL_SERVER_ERROR,
                msg: None,
            }),
    {
        Error::custom(concat("JWT Error! ", description.as_str()), status::INTERNAL_SERVER_ERROR)
    }

    /// A request body that did not deserialize as the endpoint's JSON, with
    /// the deserializer's description; answered with status 400
    pub fn from_body_error(description: String) -> (e: Self)
        ensures
            e@ == (ErrorView {
                kind: ErrorKindView::Custom("Request body deserialize error: "@ + description@),
                status_code: status::BAD_REQUEST,
                msg: None,
            }),
    {
        Error::custom(concat("Request body deserialize error: ", description.as_str()), status::BAD_REQUEST)
    }

    /// A header value was refused, with its description
    pub fn from_invalid_header(description: String) -> (e: Self)
        ensures
            e@ == (ErrorView {
                kind: ErrorKindView::Custom("INTERNAL SERVER ERROR! "@ + description@),
                status_code: status::INTERNAL_SERVER_ERROR,
                msg: None,
            }),
    {
        Error::custom(
            concat("INTERNAL SERVER ERROR! ", description.as_str()),
            status::INTERNAL_SERVER_ERROR,
        )
    }
}

/// Why a request was refused before or while it was handled
#[derive(Debug)]
pub enum RejectionCause {
    /// The service's own error
    Api(Error),
    /// The JSON body did not deserialize; the description of the failure
    BodyDeserialize(String),
    /// No route takes the request's method; the description of the refusal
    MethodNotAllowed(String),
    /// Anything else, described in the pretty and in the plain debug format
    Unhandled { pretty: String, debug: String },
}

/// The error a refusal is answered as
pub open spec fn rejection_error(cause: RejectionCause) -> ErrorView {
    match cause {
        RejectionCause::Api(e) => e@,
        RejectionCause::BodyDeserialize(d) => ErrorView {
            kind: ErrorKindView::Custom(d@),
            status_code: status::BAD_REQUEST,
            msg: None,
        },
        RejectionCause::MethodNotAllowed(d) => ErrorView {
            kind: ErrorKindView::Custom(d@),
            status_code: status::BAD_REQUEST,
            msg: None,
        },
        RejectionCause::Unhandled { pretty, debug } => ErrorView {
            kind: ErrorKindView::Custom(pretty@),
            status_code: status::INTERNAL_SERVER_ERROR,
            msg: Some(debug@),
        },
    }
}

/// The error a refused request is answered as: the service's own error as
/// it is, a body or method refusal with status 400, and anything else with
/// status 500 (logging its plain description)
pub fn rejection_error_of(cause: RejectionCause) -> (e: Error)
    ensures
        e@ == rejection_error(cause),
{
    match cause {
        RejectionCause::Api(e) => e,
        RejectionCause::BodyDeserialize(d) => Error::custom(d, status::BAD_REQUEST),
        RejectionCause::MethodNotAllowed(d) => Error::custom(d, status::BAD_REQUEST),
        RejectionCause::Unhandled { pretty, debug } => Error::custom_with_log(
            pretty,
            status::INTERNAL_SERVER_ERROR,
            debug,
        ),
    }
}

/// Returns the error reply for a refused request: the service's own error
/// is answered as it is, a body or method refusal with status 400, and
/// anything else with status 500
pub fn handle_rejection(cause: RejectionCause) -> (r: ErrorReply)
    ensures
        reply_view(r) == spec_reply(rejection_error(cause)),
        match cause {
            RejectionCause::Api(e) => r.status == e@.status_code,
            RejectionCause::BodyDeserialize(d) => r.status == status::BAD_REQUEST && opt_string_view(
                r.error,
            ) == Some(d@),
            RejectionCause::MethodNotAllowed(d) => r.status == status::BAD_REQUEST && opt_string_view(
                r.error,
            ) == Some(d@),
            RejectionCause::Unhandled { pretty, debug } => r.status == status::INTERNAL_SERVER_ERROR
                && opt_string_view(r.error) == Some(pretty@),
        },
{
    rejection_error_of(cause).to_json_reply()
}

} // verus!
