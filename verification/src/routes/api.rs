//! Link creation and lookup: checking a long URL, drawing a short link, and
//! checking a received path.
use vstd::prelude::*;
use vstd::string::*;

use rand::Rng;

use crate::db::{Link, TinyLink};
use crate::error::{Error, ErrorKindView, ErrorView, opt_string_view, unit_result_view};
use crate::parser::byte_len;
use crate::status;

verus! {

/// What parsing `input` as a `hyper::Uri` gives: the URI's scheme (if it has
/// one), or the description of the parse error
pub uninterp spec fn uri_scheme_outcome(input: Seq<char>) -> Result<Option<Seq<char>>, Seq<char>>;

/// Parses `input` as a `hyper::Uri` and takes its `scheme_str`, or describes
/// the parse error with `to_string`; claims only that the outcome is the one
/// the parser gives for this input
#[verifier::external_body]
fn uri_scheme(input: &str) -> (res: Result<Option<String>, String>)
    ensures
        match res {
            Ok(scheme) => uri_scheme_outcome(input@) == Ok::<Option<Seq<char>>, Seq<char>>(
                opt_string_view(scheme),
            ),
            Err(msg) => uri_scheme_outcome(input@) == Err::<Option<Seq<char>>, Seq<char>>(msg@),
        },
{
    match input.parse::<hyper::Uri>() {
        Ok(uri) => Ok(uri.scheme_str().map(|s| s.to_string())),
        Err(err) => Err(err.to_string()),
    }
}

/// An ASCII letter or digit
pub open spec fn is_alphanumeric(c: char) -> bool {
    ||| ('a' <= c && c <= 'z')
    ||| ('A' <= c && c <= 'Z')
    ||| ('0' <= c && c <= '9')
}

/// Draws `len` characters with `rand::thread_rng()` from the
/// `rand::distributions::Alphanumeric` distribution; claims that the string
/// has `len` characters, each an ASCII letter or digit (the distribution's
/// charset)
#[verifier::external_body]
fn random_alphanumeric(len: usize) -> (s: String)
    ensures
        s@.len() == len,
        forall|i: int| 0 <= i < len ==> is_alphanumeric(#[trigger] s@[i]),
{
    rand::thread_rng().sample_iter(&rand::distributions::Alphanumeric).take(len).map(char::from).collect()
}

/// The number of characters of a short link
pub const SHORT_LINK_LEN: usize = 6;

/// The refusal of a long URL whose scheme is neither http nor https
pub open spec fn bad_scheme_error() -> ErrorView {
    ErrorView {
        kind: ErrorKindView::InvalidForm,
        status_code: status::BAD_REQUEST,
        msg: Some("Form URI is not 'https' or 'http'"@),
    }
}

/// Whether a long URL is accepted: it parses as a URI whose scheme is http or
/// https; else the error it is refused with
pub open spec fn spec_check_long_url(long_url: Seq<char>) -> Result<(), ErrorView> {
    match uri_scheme_outcome(long_url) {
        Err(msg) => Err(
            ErrorView { kind: ErrorKindView::InvalidForm, status_code: status::BAD_REQUEST, msg: Some(msg) },
        ),
        Ok(scheme) => if scheme == Some("http"@) || scheme == Some("https"@) {
            Ok(())
        } else {
            Err(bad_scheme_error())
        },
    }
}

/// The decision on a parsed URI's scheme: http and https are accepted
pub fn check_scheme(scheme: Result<Option<String>, String>) -> (res: Result<(), Error>)
    ensures
        match scheme {
            Err(msg) => res matches Err(e) && e@ == (ErrorView {
                kind: ErrorKindView::InvalidForm,
                status_code: status::BAD_REQUEST,
                msg: Some(msg@),
            }),
            Ok(s) => if opt_string_view(s) == Some("http"@) || opt_string_view(s) == Some("https"@) {
                res is Ok
            } else {
                res matches Err(e) && e@ == bad_scheme_error()
            },
        },
{
    match scheme {
        Err(msg) => Err(Error::from_invalid_uri(msg)),
        Ok(Some(s)) => {
            let http = String::from_str("http");
            let https = String::from_str("https");
            if s == http || s == https {
                Ok(())
            } else {
                Err(Error::invalid_forms(String::from_str("Form URI is not 'https' or 'http'")))
            }
        },
        Ok(None) => Err(Error::invalid_forms(String::from_str("Form URI is not 'https' or 'http'"))),
    }
}

/// Checks that the received long URL is valid: the server only accepts
/// HTTP or HTTPS schemes
pub fn parse_form(long_url: &str) -> (res: Result<(), Error>)
    ensures
        unit_result_view(res) == spec_check_long_url(long_url@),
        res is Ok <==> (uri_scheme_outcome(long_url@) matches Ok(Some(s)) && (s == "http"@ || s
            == "https"@)),
{
    check_scheme(uri_scheme(long_url))
}

/// Prepares the row for a new link: the long URL is checked, and a random
/// short link of six ASCII letters and digits is drawn for it
pub fn create_link(new_link: Link) -> (res: Result<TinyLink, Error>)
    ensures
        res is Ok <==> (uri_scheme_outcome(new_link.long_url@) matches Ok(Some(s)) && (s == "http"@
            || s == "https"@)),
        match res {
            Ok(t) => {
                &&& spec_check_long_url(new_link.long_url@) is Ok
                &&& t.long_link@ == new_link.long_url@
                &&& t.short_link@.len() == SHORT_LINK_LEN
                &&& forall|i: int| 0 <= i < SHORT_LINK_LEN ==> is_alphanumeric(#[trigger] t.short_link@[i])
            },
            Err(e) => spec_check_long_url(new_link.long_url@) == Err::<(), ErrorView>(e@),
        },
{
    match parse_form(new_link.long_url.as_str()) {
        Err(e) => Err(e),
        Ok(()) => {
            let short = random_alphanumeric(SHORT_LINK_LEN);
            Ok(TinyLink { long_link: new_link.long_url, short_link: short })
        },
    }
}

/// The next step of a lookup by short link
#[derive(Debug)]
pub enum LookupStep {
    /// The path is refused: the not-found page is sent, and the database is
    /// not asked
    NotFoundPage,
    /// The database is asked for the long link stored under this path
    Query(String),
}

/// The page sent for a refused lookup path
pub open spec fn lookup_not_found_page() -> Seq<char> {
    "404.html"@
}

/// The next step of a lookup for the received path: the database is asked
/// only for a path longer than 5 bytes, else the not-found page
/// (`lookup_not_found_page`) is sent
pub fn lookup_step(recvd_path: String) -> (step: LookupStep)
    ensures
        match step {
            LookupStep::Query(p) => byte_len(recvd_path@) > 5 && p@ == recvd_path@,
            LookupStep::NotFoundPage => byte_len(recvd_path@) <= 5,
        },
{
    match valid_recvd_path(recvd_path) {
        Err(()) => LookupStep::NotFoundPage,
        Ok(full_path) => LookupStep::Query(full_path),
    }
}

/// The name of the page sent for a refused lookup path
pub fn not_found_page_name() -> (name: String)
    ensures
        name@ == lookup_not_found_page(),
{
    String::from_str("404.html")
}

/// Used for GET Requests
///
/// Checks if specified path matches requirements: longer than 5 bytes
pub fn valid_recvd_path(path: String) -> (res: Result<String, ()>)
    ensures
        match res {
            Ok(p) => p@ == path@ && byte_len(path@) > 5,
            Err(()) => byte_len(path@) <= 5,
        },
{
    if path.as_str().as_bytes().len() <= 5 {
        return Err(());
    }
    Ok(path)
}

} // verus!
