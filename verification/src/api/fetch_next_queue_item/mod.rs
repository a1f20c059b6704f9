use vstd::prelude::*;

use crate::config::App;
use crate::request::{bearer_of, BodyView, HttpRequest, Method, RequestView};

pub mod response;

verus! {

/// The request for the next item of the song queue:
/// `GET <uri>/api/v2/song/queue/next`, with the login of `app`.
pub open spec fn next_queue_item_request(app: App) -> RequestView {
    RequestView {
        method: Method::Get,
        url: app.uri@ + "/api/v2/song/queue/next"@,
        query: Seq::empty(),
        authorization: bearer_of(app),
        body: BodyView::Empty,
    }
}

/// Builds the request for the next item of the song queue.
pub fn fetch_next_queue_item(app: &App) -> (res: HttpRequest)
    requires
        crate::api::can_authorize(*app),
    ensures
        res@ == next_queue_item_request(*app),
{
    let url = crate::request::join_url(&app.uri, "/api/v2/song/queue/next");
    let query = crate::request::no_query();
    crate::request::authorized_request(app, Method::Get, url, query, crate::request::Body::Empty)
}

} // verus!
