use vstd::prelude::*;
use vstd::utf8::encode_utf8;

use crate::api::{bearer_text, header_value_bytes};
use crate::config::App;

verus! {

/// The HTTP method of a request.
#[derive(Clone, Copy, Debug, PartialEq, Eq, Structural)]
pub enum Method {
    Get,
    Post,
    Patch,
}

/// One `name=value` pair of a request's query string.
#[derive(Clone, Debug)]
pub struct QueryParam {
    pub name: String,
    pub value: String,
}

/// The JSON body that creates a song record from the metadata of a queued song.
#[derive(Clone, Debug)]
pub struct CreateSongPayload {
    pub album: String,
    pub album_artist: String,
    pub artist: String,
    pub disc: i32,
    pub disc_count: i32,
    pub duration: i64,
    pub genre: String,
    pub title: String,
    pub track: i32,
    pub track_count: i32,
    pub date: String,
    pub audio_type: String,
    pub user_id: u128,
    pub song_queue_id: u128,
}

/// The JSON bodies that the service sends.
#[derive(Clone, Debug)]
pub enum Payload {
    /// `{"passphrase": ..}`
    ServiceLogin { passphrase: String },
    /// `{"access_token": ..}`
    RefreshToken { access_token: String },
    /// The fields of a new song record.
    CreateSong(CreateSongPayload),
    /// `{"song_id": .., "coverart_queue_id": ..}`
    CreateCoverArt { song_id: u128, coverart_queue_id: u128 },
    /// `{"song_queue_id": ..}`
    WipeSongQueue { song_queue_id: u128 },
    /// `{"coverart_queue_id": ..}`
    WipeCoverArtQueue { coverart_queue_id: u128 },
}

/// The body of a request.
#[derive(Clone, Debug)]
pub enum Body {
    Empty,
    Json(Payload),
    /// A multipart form with one file part: its field name, the file to read
    /// and the file name it is sent under.
    Multipart { field: String, path: String, file_name: String },
}

/// A request to one of the services, ready to be sent.
#[derive(Clone, Debug)]
pub struct HttpRequest {
    pub method: Method,
    pub url: String,
    pub query: Vec<QueryParam>,
    /// The value of the `Authorization` header, where the request carries one.
    pub authorization: Option<reqwest::header::HeaderValue>,
    pub body: Body,
}

/// The fields of a new song record, texts taken as character sequences.
pub struct CreateSongPayloadView {
    pub album: Seq<char>,
    pub album_artist: Seq<char>,
    pub artist: Seq<char>,
    pub disc: i32,
    pub disc_count: i32,
    pub duration: i64,
    pub genre: Seq<char>,
    pub title: Seq<char>,
    pub track: i32,
    pub track_count: i32,
    pub date: Seq<char>,
    pub audio_type: Seq<char>,
    pub user_id: u128,
    pub song_queue_id: u128,
}

pub enum PayloadView {
    ServiceLogin { passphrase: Seq<char> },
    RefreshToken { access_token: Seq<char> },
    CreateSong(CreateSongPayloadView),
    CreateCoverArt { song_id: u128, coverart_queue_id: u128 },
    WipeSongQueue { song_queue_id: u128 },
    WipeCoverArtQueue { coverart_queue_id: u128 },
}

pub enum BodyView {
    Empty,
    Json(PayloadView),
    Multipart { field: Seq<char>, path: Seq<char>, file_name: Seq<char> },
}

/// A request as its parts' contents: method, URL, query pairs, the bytes of
/// the `Authorization` header value and the body.
pub struct RequestView {
    pub method: Method,
    pub url: Seq<char>,
    pub query: Seq<(Seq<char>, Seq<char>)>,
    pub authorization: Option<Seq<u8>>,
    pub body: BodyView,
}

impl View for CreateSongPayload {
    type V = CreateSongPayloadView;

    open spec fn view(&self) -> CreateSongPayloadView {
        CreateSongPayloadView {
            album: self.album@,
            album_artist: self.album_artist@,
            artist: self.artist@,
            disc: self.disc,
            disc_count: self.disc_count,
            duration: self.duration,
            genre: self.genre@,
            title: self.title@,
            track: self.track,
            track_count: self.track_count,
            date: self.date@,
            audio_type: self.audio_type@,
            user_id: self.user_id,
            song_queue_id: self.song_queue_id,
        }
    }
}

impl View for Payload {
    type V = PayloadView;

    open spec fn view(&self) -> PayloadView {
        match self {
            Payload::ServiceLogin { passphrase } => PayloadView::ServiceLogin {
                passphrase: passphrase@,
            },
            Payload::RefreshToken { access_token } => PayloadView::RefreshToken {
                access_token: access_token@,
            },
            Payload::CreateSong(p) => PayloadView::CreateSong(p@),
            Payload::CreateCoverArt { song_id, coverart_queue_id } => PayloadView::CreateCoverArt {
                song_id: *song_id,
                coverart_queue_id: *coverart_queue_id,
            },
            Payload::WipeSongQueue { song_queue_id } => PayloadView::WipeSongQueue {
                song_queue_id: *song_queue_id,
            },
            Payload::WipeCoverArtQueue { coverart_queue_id } => PayloadView::WipeCoverArtQueue {
                coverart_queue_id: *coverart_queue_id,
            },
        }
    }
}

impl View for Body {
    type V = BodyView;

    open spec fn view(&self) -> BodyView {
        match self {
            Body::Empty => BodyView::Empty,
            Body::Json(p) => BodyView::Json(p@),
            Body::Multipart { field, path, file_name } => BodyView::Multipart {
                field: field@,
                path: path@,
                file_name: file_name@,
            },
        }
    }
}

pub open spec fn query_pair(q: QueryParam) -> (Seq<char>, Seq<char>) {
    (q.name@, q.value@)
}

impl View for HttpRequest {
    type V = RequestView;

    open spec fn view(&self) -> RequestView {
        RequestView {
            method: self.method,
            url: self.url@,
            query: self.query@.map_values(|q: QueryParam| query_pair(q)),
            authorization: match self.authorization {
                Some(v) => Some(header_value_bytes(v)),
                None => None,
            },
            body: self.body@,
        }
    }
}

/// The `Authorization` header contents of a request made with the login of `app`.
pub open spec fn bearer_of(app: App) -> Option<Seq<u8>> {
    Some(encode_utf8(bearer_text(app.token.token@)))
}

/// `base` followed by `path`.
pub fn join_url(base: &String, path: &str) -> (res: String)
    ensures
        res@ == base@ + path@,
{
    let mut url = base.clone();
    url.append(path);
    url
}

/// `base` followed by `path` and the hyphenated text of `id`.
pub fn join_url_id(base: &String, path: &str, id: u128) -> (res: String)
    ensures
        res@ == base@ + path@ + crate::ids::id_text(id),
{
    let mut url = join_url(base, path);
    let id_text = crate::ids::uuid_string(id);
    url.append(id_text.as_str());
    url
}

/// A request that carries the login of `app`.
pub fn authorized_request(app: &App, method: Method, url: String, query: Vec<QueryParam>, body: Body) -> (res: HttpRequest)
    requires
        crate::api::can_authorize(*app),
    ensures
        res.method == method,
        res.url == url,
        res.query == query,
        res@.authorization == bearer_of(*app),
        res.body == body,
{
    let (_, value) = crate::api::auth_header(app);
    HttpRequest { method, url, query, authorization: Some(value), body }
}

/// The one query pair `name=<hyphenated id>`.
pub fn id_query(name: &str, id: u128) -> (res: Vec<QueryParam>)
    ensures
        res@.map_values(|q: QueryParam| query_pair(q)) == seq![(name@, crate::ids::id_text(id))],
{
    let value = crate::ids::uuid_string(id);
    let mut query = Vec::new();
    query.push(QueryParam { name: String::from_str(name), value });
    proof {
        assert(query@.map_values(|q: QueryParam| query_pair(q)) =~= seq![(name@, crate::ids::id_text(id))]);
    }
    query
}

/// No query pairs.
pub fn no_query() -> (res: Vec<QueryParam>)
    ensures
        res@.map_values(|q: QueryParam| query_pair(q)) == Seq::<(Seq<char>, Seq<char>)>::empty(),
{
    let query: Vec<QueryParam> = Vec::new();
    proof {
        assert(query@.map_values(|q: QueryParam| query_pair(q)) =~= Seq::<(Seq<char>, Seq<char>)>::empty());
    }
    query
}

} // verus!
