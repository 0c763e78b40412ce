//! The JSON replies to a stored link and to a looked-up link.
use vstd::prelude::*;
use vstd::string::*;

use crate::status;
use crate::structs::TinyLink;

verus! {

/// The body of a JSON reply
#[derive(Debug)]
pub enum ResponseBody {
    /// `{"url": ...}`
    Url(String),
    /// `{"short_link": ..., "long_link": ...}`
    Link { short_link: String, long_link: String },
    /// `{"error": ...}`
    Error(String),
}

/// A JSON reply: its status and its body
#[derive(Debug)]
pub struct JsonResponse {
    pub status: u16,
    pub body: ResponseBody,
}

/// An error reply with the given message and status
pub fn make_error_response(msg: &str, status_code: u16) -> (r: JsonResponse)
    ensures
        r.status == status_code,
        r.body matches ResponseBody::Error(m) && m@ == msg@,
{
    JsonResponse { status: status_code, body: ResponseBody::Error(String::from_str(msg)) }
}

/// Send back Short URL to user: the stored url with status 200, or the
/// description of the database failure with status 500
pub fn post_response(res: Result<String, String>) -> (r: JsonResponse)
    ensures
        match res {
            Ok(url) => r.status == status::OK && (r.body matches ResponseBody::Url(u) && u@ == url@),
            Err(e) => r.status == status::INTERNAL_SERVER_ERROR && (r.body matches ResponseBody::Error(
                m,
            ) && m@ == e@),
        },
{
    match res {
        Ok(success_result) => JsonResponse { status: status::OK, body: ResponseBody::Url(success_result) },
        Err(error) => make_error_response(error.as_str(), status::INTERNAL_SERVER_ERROR),
    }
}

/// Sends the looked-up link with status 200, or an error with status 500
/// where no link was found
pub fn get_response(path: Option<TinyLink>) -> (r: JsonResponse)
    ensures
        match path {
            Some(p) => r.status == status::OK && (r.body matches ResponseBody::Link {
                short_link,
                long_link,
            } && short_link@ == p.short_link@ && long_link@ == p.long_link@),
            None => r.status == status::INTERNAL_SERVER_ERROR && (r.body matches ResponseBody::Error(
                m,
            ) && m@ == "Specified path not found on DB!"@),
        },
{
    match path {
        Some(path) => JsonResponse {
            status: status::OK,
            body: ResponseBody::Link { short_link: path.short_link, long_link: path.long_link },
        },
        None => make_error_response("Specified path not found on DB!", status::INTERNAL_SERVER_ERROR),
    }
}

} // verus!
