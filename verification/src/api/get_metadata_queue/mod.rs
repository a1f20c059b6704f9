use vstd::prelude::*;

use crate::config::App;
use crate::request::{bearer_of, BodyView, HttpRequest, Method, RequestView};

pub mod response;

verus! {

/// The request for the metadata queued with a song:
/// `GET <uri>/api/v2/song/metadata/queue?song_queue_id=<id>`, with the login of `app`.
pub open spec fn metadata_queue_request(app: App, song_queue_id: u128) -> RequestView {
    RequestView {
        method: Method::Get,
        url: app.uri@ + "/api/v2/song/metadata/queue"@,
        query: seq![("song_queue_id"@, crate::ids::id_text(song_queue_id))],
        authorization: bearer_of(app),
        body: BodyView::Empty,
    }
}

/// Builds the request for the metadata queued with the song `song_queue_id`.
pub fn get(app: &App, song_queue_id: &u128) -> (res: HttpRequest)
    requires
        crate::api::can_authorize(*app),
    ensures
        res@ == metadata_queue_request(*app, *song_queue_id),
{
    let url = crate::request::join_url(&app.uri, "/api/v2/song/metadata/queue");
    let query = crate::request::id_query("song_queue_id", *song_queue_id);
    crate::request::authorized_request(app, Method::Get, url, query, crate::request::Body::Empty)
}

} // verus!
