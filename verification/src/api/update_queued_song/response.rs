use vstd::prelude::*;

verus! {

/// The answer to an upload: the ids of the updated queue items.
#[derive(Clone, Debug)]
pub struct Response {
    pub message: String,
    pub data: Vec<u128>,
}

} // verus!
