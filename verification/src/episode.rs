//! Episode records, fetched on demand for one podcast at a time.
use vstd::prelude::*;

verus! {

/// One episode of a podcast. Episodes belong to exactly one podcast
/// and are immutable value records once constructed from a response.
#[derive(Clone, Debug, PartialEq)]
pub struct Episode {
    pub uuid: String,
    pub file_size: i32,
    pub file_type: String,
    pub title: String,
    pub url: String,
    pub duration: u64,
}

} // verus!
