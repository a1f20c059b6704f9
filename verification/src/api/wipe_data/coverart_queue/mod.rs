use vstd::prelude::*;

use crate::config::App;
use crate::queued_item::QueuedCoverArt;
use crate::request::{bearer_of, Body, BodyView, HttpRequest, Method, Payload, PayloadView, RequestView};

pub mod response;

verus! {

/// The request that wipes the file of a cover art queue item:
/// `PATCH <uri>/api/v2/coverart/queue/data/wipe` with `{"coverart_queue_id"}`,
/// with the login of `app`.
pub open spec fn wipe_coverart_queue_request(app: App, coverart_queue_id: u128) -> RequestView {
    RequestView {
        method: Method::Patch,
        url: app.uri@ + "/api/v2/coverart/queue/data/wipe"@,
        query: Seq::empty(),
        authorization: bearer_of(app),
        body: BodyView::Json(PayloadView::WipeCoverArtQueue { coverart_queue_id }),
    }
}

/// Builds the request that wipes the queued file of `queued_coverart`.
pub fn wipe_data(app: &App, queued_coverart: &QueuedCoverArt) -> (res: HttpRequest)
    requires
        crate::api::can_authorize(*app),
    ensures
        res@ == wipe_coverart_queue_request(*app, queued_coverart.id),
{
    let url = crate::request::join_url(&app.uri, "/api/v2/coverart/queue/data/wipe");
    let query = crate::request::no_query();
    let payload = Payload::WipeCoverArtQueue { coverart_queue_id: queued_coverart.id };
    crate::request::authorized_request(app, Method::Patch, url, query, Body::Json(payload))
}

} // verus!
