use vstd::prelude::*;

verus! {

/// An item of the song queue: its id, the uploaded file name, its status and
/// the user who queued it.
#[derive(Clone, Debug)]
pub struct QueueItem {
    pub id: u128,
    pub filename: String,
    pub status: String,
    pub user_id: u128,
}

/// The answer to a request for the next queue item: empty `data` when the
/// queue is empty.
#[derive(Clone, Debug)]
pub struct SongQueueItem {
    pub message: String,
    pub data: Vec<QueueItem>,
}

} // verus!
