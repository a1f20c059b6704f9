use vstd::prelude::*;

use crate::models::Song;

verus! {

/// The answer to a song creation: the created records.
#[derive(Clone, Debug)]
pub struct Response {
    pub message: String,
    pub data: Vec<Song>,
}

} // verus!
