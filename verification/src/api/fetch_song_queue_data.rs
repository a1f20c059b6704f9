use vstd::prelude::*;

use crate::config::App;
use crate::request::{bearer_of, BodyView, HttpRequest, Method, RequestView};

verus! {

/// The request for the uploaded file of a song queue item:
/// `GET <uri>/api/v2/song/queue/<id>`, with the login of `app`.
pub open spec fn song_queue_data_request(app: App, id: u128) -> RequestView {
    RequestView {
        method: Method::Get,
        url: app.uri@ + "/api/v2/song/queue/"@ + crate::ids::id_text(id),
        query: Seq::empty(),
        authorization: bearer_of(app),
        body: BodyView::Empty,
    }
}

/// Builds the request for the uploaded file of the song queue item `id`.
pub fn get_data(app: &App, id: &u128) -> (res: HttpRequest)
    requires
        crate::api::can_authorize(*app),
    ensures
        res@ == song_queue_data_request(*app, *id),
{
    let url = crate::request::join_url_id(&app.uri, "/api/v2/song/queue/", *id);
    let query = crate::request::no_query();
    crate::request::authorized_request(app, Method::Get, url, query, crate::request::Body::Empty)
}

} // verus!
