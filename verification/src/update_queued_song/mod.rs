use vstd::prelude::*;

use crate::api::update_queued_song::{song_upload, song_upload_body};
use crate::request::{HttpRequest, Method, RequestView};

pub mod response;

verus! {

/// The upload of an edited song file without any login:
/// `PATCH <base_url>/api/v2/song/queue/<id>` with the file at `song_path`.
pub open spec fn anonymous_update_request(base_url: Seq<char>, song_path: Seq<char>, song_queue_id: u128) -> RequestView {
    RequestView {
        method: Method::Patch,
        url: base_url + "/api/v2/song/queue/"@ + crate::ids::id_text(song_queue_id),
        query: Seq::empty(),
        authorization: None,
        body: song_upload(song_path),
    }
}

/// Builds the request that uploads the file at `song_path` to the song queue
/// item `song_queue_id`, without any login.
pub fn update_queued_song(base_url: &String, song_path: &String, song_queue_id: &u128) -> (res: HttpRequest)
    ensures
        res@ == anonymous_update_request(base_url@, song_path@, *song_queue_id),
{
    let url = crate::request::join_url_id(base_url, "/api/v2/song/queue/", *song_queue_id);
    let query = crate::request::no_query();
    let body = song_upload_body(song_path);
    HttpRequest { method: Method::Patch, url, query, authorization: None, body }
}

} // verus!
