use songparser::api::get_metadata_queue::response::Metadata;
use songparser::api::{auth_header, authorizes, header_text_is_allowed};
use songparser::config::App;
use songparser::models::{LoginResult, Song};
use songparser::queued_item::{QueuedCoverArt, QueuedSong};
use songparser::request::{Body, HttpRequest, Method, Payload};

const SONG_ID: u128 = 0x11111111_2222_3333_4444_555555555555;
const USER_ID: u128 = 0x99999999_8888_7777_6666_555555555555;

fn app_with_token(token: &str) -> App {
    let mut app = App::new(String::from("http://api.local"), String::from("http://auth.local"));
    app.token = LoginResult {
        id: 1,
        username: String::from("service"),
        token: String::from(token),
        token_type: String::from("JWT"),
        expiration: 100,
    };
    app
}

fn bearer(request: &HttpRequest) -> Option<Vec<u8>> {
    request.authorization.as_ref().map(|v| v.as_bytes().to_vec())
}

fn query(request: &HttpRequest) -> Vec<(String, String)> {
    request.query.iter().map(|q| (q.name.clone(), q.value.clone())).collect()
}

fn metadata() -> Metadata {
    Metadata {
        song_queue_id: SONG_ID,
        album: String::from("Album"),
        album_artist: String::from("Album Artist"),
        artist: String::from("Artist"),
        disc: 1,
        disc_count: 2,
        duration: 245,
        genre: String::from("Rock"),
        title: String::from("Title"),
        track: 3,
        track_count: 12,
        year: 1999,
    }
}

#[test]
fn auth_header_carries_bearer_token() {
    let app = app_with_token("abc.def");
    let (name, value) = auth_header(&app);
    assert_eq!(name.as_str(), "authorization");
    assert_eq!(value.as_bytes(), b"Bearer abc.def");
}

#[test]
fn header_text_rules() {
    assert!(header_text_is_allowed("Bearer abc"));
    assert!(header_text_is_allowed("tab\there"));
    assert!(header_text_is_allowed("caf\u{e9}"));
    assert!(!header_text_is_allowed("line\nbreak"));
    assert!(!header_text_is_allowed("del\u{7f}"));
    assert!(authorizes(&app_with_token("ok")));
    assert!(!authorizes(&app_with_token("bad\r\n")));
}

#[test]
fn next_queue_item_request() {
    let app = app_with_token("tok");
    let request = songparser::api::fetch_next_queue_item::fetch_next_queue_item(&app);
    assert_eq!(request.method, Method::Get);
    assert_eq!(request.url, "http://api.local/api/v2/song/queue/next");
    assert!(request.query.is_empty());
    assert_eq!(bearer(&request), Some(b"Bearer tok".to_vec()));
    assert!(matches!(request.body, Body::Empty));
}

#[test]
fn song_queue_data_request() {
    let app = app_with_token("tok");
    let request = songparser::api::fetch_song_queue_data::get_data(&app, &SONG_ID);
    assert_eq!(request.method, Method::Get);
    assert_eq!(request.url, "http://api.local/api/v2/song/queue/11111111-2222-3333-4444-555555555555");
    assert_eq!(bearer(&request), Some(b"Bearer tok".to_vec()));
}

#[test]
fn metadata_and_coverart_queue_requests() {
    let app = app_with_token("tok");
    let request = songparser::api::get_metadata_queue::get(&app, &SONG_ID);
    assert_eq!(request.url, "http://api.local/api/v2/song/metadata/queue");
    assert_eq!(
        query(&request),
        vec![(String::from("song_queue_id"), String::from("11111111-2222-3333-4444-555555555555"))]
    );
    let request = songparser::api::get_coverart_queue::get(&app, &SONG_ID);
    assert_eq!(request.url, "http://api.local/api/v2/coverart/queue");
    assert_eq!(
        query(&request),
        vec![(String::from("song_queue_id"), String::from("11111111-2222-3333-4444-555555555555"))]
    );
    let request = songparser::api::get_coverart_queue::get_data(&app, &USER_ID);
    assert_eq!(request.url, "http://api.local/api/v2/coverart/queue/data/99999999-8888-7777-6666-555555555555");
    assert!(request.query.is_empty());
}

#[test]
fn update_queued_song_uploads_the_file() {
    let app = app_with_token("tok");
    let queued_song = QueuedSong { id: SONG_ID, song: Song::default(), path: String::from("/root/a.flac") };
    let request = songparser::api::update_queued_song::update_queued_song(&app, &queued_song);
    assert_eq!(request.method, Method::Patch);
    assert_eq!(request.url, "http://api.local/api/v2/song/queue/11111111-2222-3333-4444-555555555555");
    assert_eq!(bearer(&request), Some(b"Bearer tok".to_vec()));
    match request.body {
        Body::Multipart { field, path, file_name } => {
            assert_eq!(field, "file");
            assert_eq!(path, "/root/a.flac");
            assert_eq!(file_name, "track01.flac");
        }
        other => panic!("unexpected body {other:?}"),
    }
}

#[test]
fn anonymous_update_has_no_login() {
    let request = songparser::update_queued_song::update_queued_song(
        &String::from("http://api.local"),
        &String::from("/root/b.flac"),
        &SONG_ID,
    );
    assert_eq!(request.url, "http://api.local/api/v2/song/queue/11111111-2222-3333-4444-555555555555");
    assert!(request.authorization.is_none());
}

#[test]
fn create_song_request_carries_the_metadata() {
    let app = app_with_token("tok");
    let request = songparser::api::create_song::create(&app, &metadata(), &USER_ID, &String::from("flac"));
    assert_eq!(request.method, Method::Post);
    assert_eq!(request.url, "http://api.local/api/v2/song");
    match request.body {
        Body::Json(Payload::CreateSong(p)) => {
            assert_eq!(p.album, "Album");
            assert_eq!(p.album_artist, "Album Artist");
            assert_eq!(p.artist, "Artist");
            assert_eq!(p.disc, 1);
            assert_eq!(p.disc_count, 2);
            assert_eq!(p.duration, 245);
            assert_eq!(p.genre, "Rock");
            assert_eq!(p.title, "Title");
            assert_eq!(p.track, 3);
            assert_eq!(p.track_count, 12);
            assert_eq!(p.date, "1999");
            assert_eq!(p.audio_type, "flac");
            assert_eq!(p.user_id, USER_ID);
            assert_eq!(p.song_queue_id, SONG_ID);
        }
        other => panic!("unexpected body {other:?}"),
    }
}

#[test]
fn create_coverart_and_wipe_requests() {
    let app = app_with_token("tok");
    let song = Song { id: 7, ..Song::default() };
    let queued_coverart = QueuedCoverArt { id: 9, ..QueuedCoverArt::default() };
    let request = songparser::api::create_coverart::create(&app, &song, &queued_coverart);
    assert_eq!(request.url, "http://api.local/api/v2/coverart");
    assert!(matches!(request.body, Body::Json(Payload::CreateCoverArt { song_id: 7, coverart_queue_id: 9 })));
    let request = songparser::the_rest::create_coverart::create(&app, &7, &9);
    assert!(matches!(request.body, Body::Json(Payload::CreateCoverArt { song_id: 7, coverart_queue_id: 9 })));

    let queued_song = QueuedSong { id: 5, ..QueuedSong::default() };
    let request = songparser::api::wipe_data::song_queue::wipe_data(&app, &queued_song);
    assert_eq!(request.method, Method::Patch);
    assert_eq!(request.url, "http://api.local/api/v2/song/queue/data/wipe");
    assert!(matches!(request.body, Body::Json(Payload::WipeSongQueue { song_queue_id: 5 })));
    let request = songparser::api::wipe_data::coverart_queue::wipe_data(&app, &queued_coverart);
    assert_eq!(request.url, "http://api.local/api/v2/coverart/queue/data/wipe");
    assert!(matches!(request.body, Body::Json(Payload::WipeCoverArtQueue { coverart_queue_id: 9 })));
    let request = songparser::the_rest::wipe_data::song_queue::wipe_data(&app, &5);
    assert!(matches!(request.body, Body::Json(Payload::WipeSongQueue { song_queue_id: 5 })));
    let request = songparser::the_rest::wipe_data::coverart_queue::wipe_data(&app, &9);
    assert!(matches!(request.body, Body::Json(Payload::WipeCoverArtQueue { coverart_queue_id: 9 })));
}

#[test]
fn login_and_refresh_requests_go_to_the_auth_service() {
    let app = app_with_token("old-token");
    let request = songparser::auth::service_login(&app, &String::from("secret"));
    assert_eq!(request.method, Method::Post);
    assert_eq!(request.url, "http://auth.local/api/v2/service/login");
    assert!(request.authorization.is_none());
    assert!(matches!(request.body, Body::Json(Payload::ServiceLogin { ref passphrase }) if passphrase == "secret"));
    let request = songparser::auth::token_refresh(&app);
    assert_eq!(request.url, "http://auth.local/api/v2/token/refresh");
    assert!(request.authorization.is_none());
    assert!(matches!(request.body, Body::Json(Payload::RefreshToken { ref access_token }) if access_token == "old-token"));
}
