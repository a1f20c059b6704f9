use vstd::prelude::*;

use crate::api::fetch_next_queue_item::response::SongQueueItem;

verus! {

/// Tells whether the answer to a request for the next queue item found the
/// queue empty, and hands the answer on; an error that came instead of an
/// answer is handed on unchanged.
pub fn is_queue_empty(answer: Result<SongQueueItem, String>) -> (res: Result<(bool, SongQueueItem), String>)
    ensures
        match answer {
            Ok(item) => res == Ok::<(bool, SongQueueItem), String>((item.data@.len() == 0, item)),
            Err(e) => res == Err::<(bool, SongQueueItem), String>(e),
        },
{
    match answer {
        Ok(item) => {
            let empty = item.data.len() == 0;
            Ok((empty, item))
        },
        Err(e) => Err(e),
    }
}

} // verus!
