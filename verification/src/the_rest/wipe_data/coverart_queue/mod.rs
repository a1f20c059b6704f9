use vstd::prelude::*;

use crate::api::wipe_data::coverart_queue::wipe_coverart_queue_request;
use crate::config::App;
use crate::request::{Body, HttpRequest, Method, Payload};

pub use crate::api::wipe_data::coverart_queue::response;

verus! {

/// Builds the request that wipes the queued file of the cover art queue item
/// `coverart_queue_id`.
pub fn wipe_data(app: &App, coverart_queue_id: &u128) -> (res: HttpRequest)
    requires
        crate::api::can_authorize(*app),
    ensures
        res@ == wipe_coverart_queue_request(*app, *coverart_queue_id),
{
    let url = crate::request::join_url(&app.uri, "/api/v2/coverart/queue/data/wipe");
    let query = crate::request::no_query();
    let payload = Payload::WipeCoverArtQueue { coverart_queue_id: *coverart_queue_id };
    crate::request::authorized_request(app, Method::Patch, url, query, Body::Json(payload))
}

} // verus!
