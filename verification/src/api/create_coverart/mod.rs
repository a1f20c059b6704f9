use vstd::prelude::*;

use crate::config::App;
use crate::models::Song;
use crate::queued_item::QueuedCoverArt;
use crate::request::{bearer_of, Body, BodyView, HttpRequest, Method, Payload, PayloadView, RequestView};

pub mod response;

verus! {

/// The request that creates the cover art record of a song:
/// `POST <uri>/api/v2/coverart` with `{"song_id", "coverart_queue_id"}`, with
/// the login of `app`.
pub open spec fn create_coverart_request(app: App, song_id: u128, coverart_queue_id: u128) -> RequestView {
    RequestView {
        method: Method::Post,
        url: app.uri@ + "/api/v2/coverart"@,
        query: Seq::empty(),
        authorization: bearer_of(app),
        body: BodyView::Json(PayloadView::CreateCoverArt { song_id, coverart_queue_id }),
    }
}

/// Builds the request that creates the cover art record of `song` from
/// `queued_coverart`.
pub fn create(app: &App, song: &Song, queued_coverart: &QueuedCoverArt) -> (res: HttpRequest)
    requires
        crate::api::can_authorize(*app),
    ensures
        res@ == create_coverart_request(*app, song.id, queued_coverart.id),
{
    let url = crate::request::join_url(&app.uri, "/api/v2/coverart");
    let payload = get_payload(&song.id, &queued_coverart.id);
    let query = crate::request::no_query();
    crate::request::authorized_request(app, Method::Post, url, query, Body::Json(payload))
}

fn get_payload(song_id: &u128, coverart_queue_id: &u128) -> (res: Payload)
    ensures
        res@ == (PayloadView::CreateCoverArt { song_id: *song_id, coverart_queue_id: *coverart_queue_id }),
{
    Payload::CreateCoverArt { song_id: *song_id, coverart_queue_id: *coverart_queue_id }
}

} // verus!
