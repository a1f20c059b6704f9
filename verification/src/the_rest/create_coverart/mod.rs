use vstd::prelude::*;

use crate::api::create_coverart::create_coverart_request;
use crate::config::App;
use crate::request::{Body, HttpRequest, Method, Payload, PayloadView};

pub use crate::api::create_coverart::response;

verus! {

/// Builds the request that creates the cover art record of the song
/// `song_id` from the queued cover art `coverart_queue_id`.
pub fn create(app: &App, song_id: &u128, coverart_queue_id: &u128) -> (res: HttpRequest)
    requires
        crate::api::can_authorize(*app),
    ensures
        res@ == create_coverart_request(*app, *song_id, *coverart_queue_id),
{
    let url = crate::request::join_url(&app.uri, "/api/v2/coverart");
    let payload = get_payload(song_id, coverart_queue_id);
    let query = crate::request::no_query();
    crate::request::authorized_request(app, Method::Post, url, query, Body::Json(payload))
}

fn get_payload(song_id: &u128, coverart_queue_id: &u128) -> (res: Payload)
    ensures
        res@ == (PayloadView::CreateCoverArt { song_id: *song_id, coverart_queue_id: *coverart_queue_id }),
{
    Payload::CreateCoverArt { song_id: *song_id, coverart_queue_id: *coverart_queue_id }
}

} // verus!
