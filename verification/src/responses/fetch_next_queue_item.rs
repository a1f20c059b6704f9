use vstd::prelude::*;

verus! {

/// An item of the song queue, without the user who queued it.
#[derive(Clone, Debug)]
pub struct QueueItem {
    pub id: u128,
    pub filename: String,
    pub status: String,
}

/// The answer to a request for the next queue item.
#[derive(Clone, Debug)]
pub struct SongQueueItem {
    pub message: String,
    pub data: Vec<QueueItem>,
}

} // verus!
