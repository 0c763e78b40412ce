//! A stored link together with its row id.
use vstd::prelude::*;

verus! {

/// A link as the database returns it, with its id
#[derive(Clone, Debug)]
pub struct TinyLink {
    pub id: i32,
    pub long_link: String,
    pub short_link: String,
}

} // verus!
