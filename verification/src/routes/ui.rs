//! Serving the embedded UI files: which file is sent, and its content type.
use vstd::prelude::*;
use vstd::string::*;

use crate::error::{Error, ErrorKindView, ErrorView};
use crate::status;

verus! {

/// The content type that `mime_guess` gives for a file name: the first type
/// it guesses from the extension, or "text/plain"
pub uninterp spec fn mime_for_path(path: Seq<char>) -> Seq<char>;

/// Guesses the content type of `path` with
/// `mime_guess::from_path(path).first_or_text_plain()`; claims only that the
/// type is the one `mime_guess` gives for this name
#[verifier::external_body]
fn guess_mime(path: &str) -> (m: String)
    ensures
        m@ == mime_for_path(path@),
{
    let mime = mime_guess::from_path(path).first_or_text_plain();
    let text: &str = mime.as_ref();
    text.to_string()
}

/// The file that is sent, and the content type it is sent with
#[derive(Debug)]
pub struct ServedFile {
    pub asset: String,
    pub content_type: String,
}

/// The names of the embedded files
pub open spec fn asset_names(assets: Seq<String>) -> Seq<Seq<char>> {
    assets.map_values(|s: String| s@)
}

fn has_asset(assets: &Vec<String>, name: &String) -> (b: bool)
    ensures
        b == asset_names(assets@).contains(name@),
{
    let mut i: usize = 0;
    while i < assets.len()
        invariant
            i <= assets.len(),
            forall|j: int| 0 <= j < i ==> assets@[j]@ != name@,
        decreases assets.len() - i,
    {
        if assets[i] == *name {
            assert(asset_names(assets@)[i as int] == name@);
            return true;
        }
        i = i + 1;
    }
    assert(!asset_names(assets@).contains(name@)) by {
        if asset_names(assets@).contains(name@) {
            let k = choose|k: int| 0 <= k < asset_names(assets@).len() && asset_names(assets@)[k] == name@;
            assert(assets@[k]@ == name@);
        }
    }
    false
}

/// The page sent in place of a missing file
pub open spec fn not_found_page() -> Seq<char> {
    "404.html"@
}

/// The refusal when neither the file nor the not-found page exists
pub open spec fn missing_file_error() -> ErrorView {
    ErrorView {
        kind: ErrorKindView::Custom("Could not find file"@),
        status_code: status::NOT_FOUND,
        msg: None,
    }
}

/// Which embedded file answers a request for `file`: the file itself, else
/// the not-found page; either is sent with the content type of `file`
pub fn serve_file(file: &str, assets: &Vec<String>) -> (res: Result<ServedFile, Error>)
    ensures
        if asset_names(assets@).contains(file@) {
            res matches Ok(f) && f.asset@ == file@ && f.content_type@ == mime_for_path(file@)
        } else if asset_names(assets@).contains(not_found_page()) {
            res matches Ok(f) && f.asset@ == not_found_page() && f.content_type@ == mime_for_path(file@)
        } else {
            res matches Err(e) && e@ == missing_file_error()
        },
{
    let content_type = guess_mime(file);
    let wanted = String::from_str(file);
    if has_asset(assets, &wanted) {
        Ok(ServedFile { asset: wanted, content_type })
    } else {
        let fallback = String::from_str("404.html");
        if has_asset(assets, &fallback) {
            Ok(ServedFile { asset: fallback, content_type })
        } else {
            Err(Error::custom(String::from_str("Could not find file"), status::NOT_FOUND))
        }
    }
}

/// The file that answers a request for the UI's index page
pub fn serve_index(assets: &Vec<String>) -> (res: Result<ServedFile, Error>)
    ensures
        if asset_names(assets@).contains("index.html"@) {
            res matches Ok(f) && f.asset@ == "index.html"@ && f.content_type@ == mime_for_path("index.html"@)
        } else if asset_names(assets@).contains(not_found_page()) {
            res matches Ok(f) && f.asset@ == not_found_page() && f.content_type@ == mime_for_path(
                "index.html"@,
            )
        } else {
            res matches Err(e) && e@ == missing_file_error()
        },
{
    serve_file("index.html", assets)
}

/// The file that answers a request for any other UI file
pub fn serve_other(file: &str, assets: &Vec<String>) -> (res: Result<ServedFile, Error>)
    ensures
        if asset_names(assets@).contains(file@) {
            res matches Ok(f) && f.asset@ == file@ && f.content_type@ == mime_for_path(file@)
        } else if asset_names(assets@).contains(not_found_page()) {
            res matches Ok(f) && f.asset@ == not_found_page() && f.content_type@ == mime_for_path(file@)
        } else {
            res matches Err(e) && e@ == missing_file_error()
        },
{
    serve_file(file, assets)
}

} // verus!
