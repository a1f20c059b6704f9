use vstd::prelude::*;

use crate::config::App;
use crate::queued_item::QueuedSong;
use crate::request::{bearer_of, Body, BodyView, HttpRequest, Method, RequestView};

pub mod response;

verus! {

/// The name under which the edited song file is uploaded.
pub open spec fn upload_file_name() -> Seq<char> {
    "track01.flac"@
}

/// The form that uploads the file at `path`: one part named `file`, sent
/// under the name `track01.flac`.
pub open spec fn song_upload(path: Seq<char>) -> BodyView {
    BodyView::Multipart { field: "file"@, path, file_name: upload_file_name() }
}

/// Builds the form that uploads the file at `path` as `track01.flac`.
pub fn song_upload_body(path: &String) -> (res: Body)
    ensures
        res@ == song_upload(path@),
{
    Body::Multipart {
        field: String::from_str("file"),
        path: path.clone(),
        file_name: String::from_str("track01.flac"),
    }
}

/// The request that replaces the file of a song queue item by the edited file:
/// `PATCH <uri>/api/v2/song/queue/<id>` with the file at the queued song's
/// path, with the login of `app`.
pub open spec fn update_queued_song_request(app: App, queued_song: QueuedSong) -> RequestView {
    RequestView {
        method: Method::Patch,
        url: app.uri@ + "/api/v2/song/queue/"@ + crate::ids::id_text(queued_song.id),
        query: Seq::empty(),
        authorization: bearer_of(app),
        body: song_upload(queued_song.path@),
    }
}

/// Builds the request that uploads the edited file of `queued_song`.
pub fn update_queued_song(app: &App, queued_song: &QueuedSong) -> (res: HttpRequest)
    requires
        crate::api::can_authorize(*app),
    ensures
        res@ == update_queued_song_request(*app, *queued_song),
{
    let url = crate::request::join_url_id(&app.uri, "/api/v2/song/queue/", queued_song.id);
    let query = crate::request::no_query();
    let body = song_upload_body(&queued_song.path);
    crate::request::authorized_request(app, Method::Patch, url, query, body)
}

} // verus!
