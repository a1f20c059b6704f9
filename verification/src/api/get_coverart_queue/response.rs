use vstd::prelude::*;

verus! {

/// An item of the cover art queue: its id, the type of its file and the song
/// it belongs to.
#[derive(Clone, Debug)]
pub struct CoverArtQueue {
    pub id: u128,
    pub file_type: String,
    pub song_queue_id: u128,
}

#[derive(Clone, Debug)]
pub struct Response {
    pub message: String,
    pub data: Vec<CoverArtQueue>,
}

} // verus!
