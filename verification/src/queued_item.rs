use vstd::prelude::*;

use crate::models::{CoverArt, Song};

verus! {

/// A song taken from the song queue and saved to the file system at `path`.
#[derive(Clone, Debug)]
pub struct QueuedSong {
    pub id: u128,
    pub song: Song,
    pub path: String,
}

impl QueuedSong {
    /// The queued song that stands for "nothing saved": nil id, empty song,
    /// empty path.
    pub open spec fn is_empty(self) -> bool {
        &&& self.id == 0
        &&& self.song.is_empty()
        &&& self.path@.len() == 0
    }
}

impl Default for QueuedSong {
    fn default() -> (res: Self)
        ensures
            res.is_empty(),
    {
        QueuedSong { id: 0, song: Song::default(), path: String::new() }
    }
}

/// A cover art taken from the cover art queue and saved to the file system at `path`.
#[derive(Clone, Debug)]
pub struct QueuedCoverArt {
    pub id: u128,
    pub coverart: CoverArt,
    pub path: String,
}

impl QueuedCoverArt {
    /// The queued cover art that stands for "nothing saved".
    pub open spec fn is_empty(self) -> bool {
        &&& self.id == 0
        &&& self.coverart.is_empty()
        &&& self.path@.len() == 0
    }
}

impl Default for QueuedCoverArt {
    fn default() -> (res: Self)
        ensures
            res.is_empty(),
    {
        QueuedCoverArt { id: 0, coverart: CoverArt::default(), path: String::new() }
    }
}

} // verus!
