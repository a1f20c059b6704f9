use vstd::prelude::*;

verus! {

/// The answer to a wipe: the ids of the wiped queue items.
#[derive(Clone, Debug)]
pub struct Response {
    pub message: String,
    pub data: Vec<u128>,
}

} // verus!
