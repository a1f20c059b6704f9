use vstd::prelude::*;

verus! {

/// The metadata queued with a song.
#[derive(Clone, Debug)]
pub struct Metadata {
    pub song_queue_id: u128,
    pub album: String,
    pub album_artist: String,
    pub artist: String,
    pub disc: i32,
    pub disc_count: i32,
    pub duration: i64,
    pub genre: String,
    pub title: String,
    pub track: i32,
    pub track_count: i32,
    pub year: i32,
}

/// An item of the metadata queue; `created_at` is its RFC 3339 time stamp.
#[derive(Clone, Debug)]
pub struct QueueItem {
    pub id: u128,
    pub metadata: Metadata,
    pub created_at: String,
    pub song_queue_id: u128,
}

#[derive(Clone, Debug)]
pub struct Response {
    pub message: String,
    pub data: Vec<QueueItem>,
}

} // verus!
