use vstd::prelude::*;

use crate::models::CoverArt;

verus! {

/// The answer to a cover art creation: the created records.
#[derive(Clone, Debug)]
pub struct Response {
    pub message: String,
    pub data: Vec<CoverArt>,
}

} // verus!
