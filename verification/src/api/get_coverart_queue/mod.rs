use vstd::prelude::*;

use crate::config::App;
use crate::request::{bearer_of, BodyView, HttpRequest, Method, RequestView};

pub mod response;

verus! {

/// The request for the cover art queued with a song:
/// `GET <uri>/api/v2/coverart/queue?song_queue_id=<id>`, with the login of `app`.
pub open spec fn coverart_queue_request(app: App, song_queue_id: u128) -> RequestView {
    RequestView {
        method: Method::Get,
        url: app.uri@ + "/api/v2/coverart/queue"@,
        query: seq![("song_queue_id"@, crate::ids::id_text(song_queue_id))],
        authorization: bearer_of(app),
        body: BodyView::Empty,
    }
}

/// The request for the file of a queued cover art:
/// `GET <uri>/api/v2/coverart/queue/data/<id>`, with the login of `app`.
pub open spec fn coverart_queue_data_request(app: App, coverart_queue_id: u128) -> RequestView {
    RequestView {
        method: Method::Get,
        url: app.uri@ + "/api/v2/coverart/queue/data/"@ + crate::ids::id_text(coverart_queue_id),
        query: Seq::empty(),
        authorization: bearer_of(app),
        body: BodyView::Empty,
    }
}

/// Builds the request for the cover art queued with the song `song_queue_id`.
pub fn get(app: &App, song_queue_id: &u128) -> (res: HttpRequest)
    requires
        crate::api::can_authorize(*app),
    ensures
        res@ == coverart_queue_request(*app, *song_queue_id),
{
    let url = crate::request::join_url(&app.uri, "/api/v2/coverart/queue");
    let query = crate::request::id_query("song_queue_id", *song_queue_id);
    crate::request::authorized_request(app, Method::Get, url, query, crate::request::Body::Empty)
}

/// Builds the request for the file of the queued cover art `coverart_queue_id`.
pub fn get_data(app: &App, coverart_queue_id: &u128) -> (res: HttpRequest)
    requires
        crate::api::can_authorize(*app),
    ensures
        res@ == coverart_queue_data_request(*app, *coverart_queue_id),
{
    let url = crate::request::join_url_id(&app.uri, "/api/v2/coverart/queue/data/", *coverart_queue_id);
    let query = crate::request::no_query();
    crate::request::authorized_request(app, Method::Get, url, query, crate::request::Body::Empty)
}

} // verus!
