use vstd::prelude::*;

use crate::api::get_metadata_queue::response::Metadata;
use crate::config::App;
use crate::request::{
    bearer_of, Body, BodyView, CreateSongPayload, CreateSongPayloadView, HttpRequest, Method,
    Payload, PayloadView, RequestView,
};
use crate::text::decimal_text;

pub mod response;

verus! {

/// The fields of the song record made from queued metadata: the metadata's
/// texts and numbers, its year as the date text, the audio type, the user and
/// the song queue item.
pub open spec fn song_record(metadata: Metadata, user_id: u128, song_type: Seq<char>) -> CreateSongPayloadView {
    CreateSongPayloadView {
        album: metadata.album@,
        album_artist: metadata.album_artist@,
        artist: metadata.artist@,
        disc: metadata.disc,
        disc_count: metadata.disc_count,
        duration: metadata.duration,
        genre: metadata.genre@,
        title: metadata.title@,
        track: metadata.track,
        track_count: metadata.track_count,
        date: decimal_text(metadata.year as int),
        audio_type: song_type,
        user_id,
        song_queue_id: metadata.song_queue_id,
    }
}

/// The request that creates the song record: `POST <uri>/api/v2/song` with
/// the record as JSON, with the login of `app`.
pub open spec fn create_song_request(app: App, metadata: Metadata, user_id: u128, song_type: Seq<char>) -> RequestView {
    RequestView {
        method: Method::Post,
        url: app.uri@ + "/api/v2/song"@,
        query: Seq::empty(),
        authorization: bearer_of(app),
        body: BodyView::Json(PayloadView::CreateSong(song_record(metadata, user_id, song_type))),
    }
}

/// Builds the fields of the song record made from `metadata_queue`.
pub fn song_payload(metadata_queue: &Metadata, user_id: &u128, song_type: &String) -> (res: CreateSongPayload)
    ensures
        res@ == song_record(*metadata_queue, *user_id, song_type@),
{
    CreateSongPayload {
        album: metadata_queue.album.clone(),
        album_artist: metadata_queue.album_artist.clone(),
        artist: metadata_queue.artist.clone(),
        disc: metadata_queue.disc,
        disc_count: metadata_queue.disc_count,
        duration: metadata_queue.duration,
        genre: metadata_queue.genre.clone(),
        title: metadata_queue.title.clone(),
        track: metadata_queue.track,
        track_count: metadata_queue.track_count,
        date: crate::text::i32_to_decimal(metadata_queue.year),
        audio_type: song_type.clone(),
        user_id: *user_id,
        song_queue_id: metadata_queue.song_queue_id,
    }
}

/// Builds the request that creates the song record for `metadata_queue`.
pub fn create(app: &App, metadata_queue: &Metadata, user_id: &u128, song_type: &String) -> (res: HttpRequest)
    requires
        crate::api::can_authorize(*app),
    ensures
        res@ == create_song_request(*app, *metadata_queue, *user_id, song_type@),
{
    let payload = song_payload(metadata_queue, user_id, song_type);
    let url = crate::request::join_url(&app.uri, "/api/v2/song");
    let query = crate::request::no_query();
    crate::request::authorized_request(app, Method::Post, url, query, Body::Json(Payload::CreateSong(payload)))
}

} // verus!
