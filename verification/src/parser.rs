//! Parsing of the link form (`url=...`) and of the path of a short link.
use vstd::prelude::*;
use vstd::string::*;
use vstd::utf8::*;

use crate::error::{concat, opt_string_view};
use crate::structs::ShortUrl;

verus! {

/// The (name, value) pairs that `application/x-www-form-urlencoded` decoding
/// gives for `body`, in order
pub uninterp spec fn form_pairs(body: Seq<u8>) -> Seq<(Seq<char>, Seq<char>)>;

/// Decodes a urlencoded form with `url::form_urlencoded::parse(..).into_owned()`;
/// claims only that the pairs are the ones the decoding gives for these bytes
#[verifier::external_body]
fn decode_form(body: &[u8]) -> (pairs: Vec<(String, String)>)
    ensures
        pairs.deep_view() == form_pairs(body@),
{
    url::form_urlencoded::parse(body).into_owned().collect()
}

/// What `url::Url::parse` gives for `input`: the serialized URL, or the
/// description of the parse error
pub uninterp spec fn url_parse_outcome(input: Seq<char>) -> Result<Seq<char>, Seq<char>>;

pub open spec fn result_view(r: Result<String, String>) -> Result<Seq<char>, Seq<char>> {
    match r {
        Ok(s) => Ok(s@),
        Err(m) => Err(m@),
    }
}

/// Parses `input` with `url::Url::parse` and serializes the result with
/// `to_string`, or describes the error with `to_string`; claims only that the
/// outcome is the one the parser gives for this input
#[verifier::external_body]
fn parse_url(input: &str) -> (res: Result<String, String>)
    ensures
        result_view(res) == url_parse_outcome(input@),
{
    match url::Url::parse(input) {
        Ok(url) => Ok(url.to_string()),
        Err(err) => Err(err.to_string()),
    }
}

/// The value of the last pair named `key`: a later pair of the same name
/// replaces an earlier one
pub open spec fn last_value(pairs: Seq<(Seq<char>, Seq<char>)>, key: Seq<char>) -> Option<Seq<char>>
    decreases pairs.len(),
{
    if pairs.len() == 0 {
        None
    } else if pairs.last().0 == key {
        Some(pairs.last().1)
    } else {
        last_value(pairs.drop_last(), key)
    }
}

/// The outcome of the link form: the serialized URL of the form's `url`
/// field, or an error message
pub open spec fn spec_parse_form(body: Seq<u8>) -> Result<Seq<char>, Seq<char>> {
    match last_value(form_pairs(body), "url"@) {
        None => Err("'url' key not found on received form"@),
        Some(input) => match url_parse_outcome(input) {
            Ok(url) => Ok(url),
            Err(msg) => Err("error: "@ + msg),
        },
    }
}

/// The value of the last field named `key` of a decoded form (a later field
/// of the same name replaces an earlier one)
pub fn form_field(pairs: &Vec<(String, String)>, key: &str) -> (v: Option<String>)
    ensures
        opt_string_view(v) == last_value(pairs.deep_view(), key@),
{
    let key = String::from_str(key);
    let ghost dv = pairs.deep_view();
    let mut found: Option<usize> = None;
    let mut i: usize = 0;
    while i < pairs.len()
        invariant
            i <= pairs.len(),
            dv == pairs.deep_view(),
            match found {
                Some(j) => j < i && last_value(dv.take(i as int), key@) == Some(dv[j as int].1),
                None => last_value(dv.take(i as int), key@) is None,
            },
        decreases pairs.len() - i,
    {
        assert(dv.take(i + 1).drop_last() =~= dv.take(i as int));
        if pairs[i].0 == key {
            found = Some(i);
        }
        i = i + 1;
    }
    assert(dv.take(pairs.len() as int) =~= dv);
    match found {
        None => None,
        Some(j) => Some(pairs[j].1.clone()),
    }
}

/// The outcome of the form once its url was parsed: the serialized URL, or
/// the parser's description after "error: "
pub fn url_field_outcome(parsed: Result<String, String>) -> (res: Result<String, String>)
    ensures
        match parsed {
            Ok(url) => result_view(res) == Ok::<Seq<char>, Seq<char>>(url@),
            Err(msg) => result_view(res) == Err::<Seq<char>, Seq<char>>("error: "@ + msg@),
        },
{
    match parsed {
        Ok(url) => Ok(url),
        Err(msg) => Err(concat("error: ", msg.as_str())),
    }
}

/// Checks that the received form holds a "url" field that parses as a URL
/// returns error if no "url" field is supplied or if Url::parse fails
pub fn parse_form(form_chunk: &[u8]) -> (res: Result<String, String>)
    ensures
        result_view(res) == spec_parse_form(form_chunk@),
        match last_value(form_pairs(form_chunk@), "url"@) {
            None => result_view(res) == Err::<Seq<char>, Seq<char>>(
                "'url' key not found on received form"@,
            ),
            Some(input) => match url_parse_outcome(input) {
                Ok(url) => result_view(res) == Ok::<Seq<char>, Seq<char>>(url),
                Err(msg) => result_view(res) == Err::<Seq<char>, Seq<char>>("error: "@ + msg),
            },
        },
{
    let pairs = decode_form(form_chunk);
    match form_field(&pairs, "url") {
        None => Err(String::from_str("'url' key not found on received form")),
        Some(input) => url_field_outcome(parse_url(input.as_str())),
    }
}

/// The length in bytes of a string with these characters
pub open spec fn byte_len(s: Seq<char>) -> nat {
    encode_utf8(s).len()
}

/// Checks if specified path matches requirements: the path without its first
/// character (the '/') must be longer than 5 bytes
pub fn validate_path(path: String) -> (res: Result<ShortUrl, String>)
    requires
        path@.len() > 0,
    ensures
        match res {
            Ok(short) => byte_len(path@.drop_first()) > 5 && short.short_url@ == path@.drop_first(),
            Err(msg) => byte_len(path@.drop_first()) <= 5
                && msg@ == "Invalid Path, the provided path must be 6 characters long"@,
        },
{
    let n = path.as_str().unicode_len();
    let rest = path.as_str().substring_char(1, n);
    assert(rest@ =~= path@.drop_first());
    if rest.as_bytes().len() <= 5 {
        Err(String::from_str("Invalid Path, the provided path must be 6 characters long"))
    } else {
        Ok(ShortUrl { short_url: String::from_str(rest) })
    }
}

} // verus!
