//! The values the parser hands back.
use vstd::prelude::*;

verus! {

/// A long url, as received
#[derive(Clone, Debug)]
pub struct LongUrl {
    pub long_url: String,
}

/// A short url, the path that names a link
#[derive(Clone, Debug)]
pub struct ShortUrl {
    pub short_url: String,
}

/// A long link with its short link
#[derive(Clone, Debug)]
pub struct TinyLink {
    pub long_link: String,
    pub short_link: String,
}

} // verus!
