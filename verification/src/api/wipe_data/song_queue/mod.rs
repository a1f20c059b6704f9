use vstd::prelude::*;

use crate::config::App;
use crate::queued_item::QueuedSong;
use crate::request::{bearer_of, Body, BodyView, HttpRequest, Method, Payload, PayloadView, RequestView};

pub mod response;

verus! {

/// The request that wipes the file of a song queue item:
/// `PATCH <uri>/api/v2/song/queue/data/wipe` with `{"song_queue_id"}`, with
/// the login of `app`.
pub open spec fn wipe_song_queue_request(app: App, song_queue_id: u128) -> RequestView {
    RequestView {
        method: Method::Patch,
        url: app.uri@ + "/api/v2/song/queue/data/wipe"@,
        query: Seq::empty(),
        authorization: bearer_of(app),
        body: BodyView::Json(PayloadView::WipeSongQueue { song_queue_id }),
    }
}

/// Builds the request that wipes the queued file of `queued_song`.
pub fn wipe_data(app: &App, queued_song: &QueuedSong) -> (res: HttpRequest)
    requires
        crate::api::can_authorize(*app),
    ensures
        res@ == wipe_song_queue_request(*app, queued_song.id),
{
    let url = crate::request::join_url(&app.uri, "/api/v2/song/queue/data/wipe");
    let query = crate::request::no_query();
    let payload = Payload::WipeSongQueue { song_queue_id: queued_song.id };
    crate::request::authorized_request(app, Method::Patch, url, query, Body::Json(payload))
}

} // verus!
