use songparser::api::fetch_next_queue_item::response::{QueueItem, SongQueueItem};
use songparser::api::get_metadata_queue::response::Metadata;
use songparser::api::parsing::parse_response_into_bytes;
use songparser::api::service_token::response::Response as TokenResponse;
use songparser::api::refresh_token::response::Response as RefreshResponse;
use songparser::auth::{get_refresh_token, get_token};
use songparser::metadata::{all_metadata_types, coverart_applied, metadata_value, MetaKind, MetaValue};
use songparser::models::{CoverArt, CoverArtType, LoginResult, Song};
use songparser::parser::{coverart_type, created_coverart, created_song, queued_song_after_save, song_type};
use songparser::queue::is_queue_empty;
use songparser::queued_item::{QueuedCoverArt, QueuedSong};

fn login(token: &str) -> LoginResult {
    LoginResult {
        id: 3,
        username: String::from("svc"),
        token: String::from(token),
        token_type: String::from("JWT"),
        expiration: 1_700_000_000,
    }
}

#[test]
fn chunks_are_joined_in_order() {
    let chunks = vec![Ok(vec![1u8, 2]), Ok(vec![]), Ok(vec![3u8])];
    assert_eq!(parse_response_into_bytes(chunks), Ok(vec![1u8, 2, 3]));
    assert_eq!(parse_response_into_bytes(vec![]), Ok(vec![]));
}

#[test]
fn first_chunk_error_wins() {
    let chunks = vec![Ok(vec![1u8]), Err(String::from("reset")), Err(String::from("later"))];
    assert_eq!(parse_response_into_bytes(chunks), Err(String::from("reset")));
}

#[test]
fn token_answer_gives_first_login() {
    let answer = TokenResponse { message: String::from("ok"), data: vec![login("a"), login("b")] };
    let result = get_token(Ok(answer)).unwrap();
    assert_eq!(result.token, "a");
}

#[test]
fn empty_token_answer_is_an_error() {
    let answer = TokenResponse { message: String::from("none"), data: vec![] };
    assert_eq!(get_token(Ok(answer)).unwrap_err(), "No token returned");
    let answer = RefreshResponse { message: String::from("none"), data: vec![] };
    assert_eq!(get_refresh_token(Ok(answer)).unwrap_err(), "No token returned");
    assert_eq!(get_refresh_token(Err(String::from("timeout"))).unwrap_err(), "timeout");
}

#[test]
fn token_expiry_is_strictly_after_expiration() {
    let l = login("a");
    let at_expiration: i128 = 1_700_000_000i128 * 1_000_000_000;
    assert!(!l.token_expired_at(at_expiration));
    assert!(l.token_expired_at(at_expiration + 1));
    assert!(!l.token_expired_at(at_expiration - 1));
}

#[test]
fn queue_emptiness() {
    let empty = SongQueueItem { message: String::from("m"), data: vec![] };
    let (is_empty, item) = is_queue_empty(Ok(empty)).unwrap();
    assert!(is_empty);
    assert_eq!(item.message, "m");
    let full = SongQueueItem {
        message: String::from("m"),
        data: vec![QueueItem { id: 1, filename: String::from("f"), status: String::from("s"), user_id: 2 }],
    };
    assert!(!is_queue_empty(Ok(full)).unwrap().0);
    assert_eq!(is_queue_empty(Err(String::from("down"))).unwrap_err(), "down");
}

#[test]
fn metadata_values_per_tag() {
    let m = Metadata {
        song_queue_id: 1,
        album: String::from("A"),
        album_artist: String::from("AA"),
        artist: String::from("Ar"),
        disc: 1,
        disc_count: 2,
        duration: 10,
        genre: String::from("G"),
        title: String::from("T"),
        track: 4,
        track_count: 9,
        year: 2001,
    };
    let kinds = all_metadata_types();
    assert_eq!(kinds.len(), 10);
    assert_eq!(kinds[0], MetaKind::Album);
    assert_eq!(kinds[9], MetaKind::DiscCount);
    assert!(matches!(metadata_value(MetaKind::Album, &m), MetaValue::Text(ref s) if s == "A"));
    assert!(matches!(metadata_value(MetaKind::AlbumArtist, &m), MetaValue::Text(ref s) if s == "AA"));
    assert!(matches!(metadata_value(MetaKind::Artist, &m), MetaValue::Text(ref s) if s == "Ar"));
    assert!(matches!(metadata_value(MetaKind::Date, &m), MetaValue::Text(ref s) if s == "2001"));
    assert!(matches!(metadata_value(MetaKind::Disc, &m), MetaValue::Number(1)));
    assert!(matches!(metadata_value(MetaKind::Genre, &m), MetaValue::Text(ref s) if s == "G"));
    assert!(matches!(metadata_value(MetaKind::Title, &m), MetaValue::Text(ref s) if s == "T"));
    assert!(matches!(metadata_value(MetaKind::Track, &m), MetaValue::Number(4)));
    assert!(matches!(metadata_value(MetaKind::TrackCount, &m), MetaValue::Number(9)));
    assert!(matches!(metadata_value(MetaKind::DiscCount, &m), MetaValue::Number(2)));
}

#[test]
fn coverart_kinds() {
    assert_eq!(coverart_type(&String::from("png")), CoverArtType::PngExtension);
    assert_eq!(coverart_type(&String::from("jpeg")), CoverArtType::JpegExtension);
    assert_eq!(coverart_type(&String::from("jpg")), CoverArtType::JpgExtension);
    assert_eq!(coverart_type(&String::from("gif")), CoverArtType::Unspecified);
    assert_eq!(coverart_type(&String::from("PNG")), CoverArtType::Unspecified);
    assert_eq!(song_type(), "flac");
    assert!(coverart_applied(&vec![1u8]));
    assert!(!coverart_applied(&vec![]));
}

#[test]
fn failed_save_gives_empty_queued_song() {
    let song = Song { id: 4, filename: String::from("x.flac"), ..Song::default() };
    let saved = queued_song_after_save(8, song.clone(), String::from("/r/x.flac"), true);
    assert_eq!(saved.id, 8);
    assert_eq!(saved.path, "/r/x.flac");
    assert_eq!(saved.song.filename, "x.flac");
    let failed = queued_song_after_save(8, song, String::from("/r/x.flac"), false);
    assert_eq!(failed.id, 0);
    assert_eq!(failed.path, "");
    assert_eq!(failed.song.filename, "");
}

#[test]
fn created_records_are_kept_with_the_queued_files() {
    let queued_song = QueuedSong {
        id: 1,
        song: Song { directory: String::from("/root"), filename: String::from("s.flac"), ..Song::default() },
        path: String::from("/root/s.flac"),
    };
    let created = Song { id: 77, title: String::from("T"), ..Song::default() };
    let song = created_song(created, &queued_song);
    assert_eq!(song.id, 77);
    assert_eq!(song.title, "T");
    assert_eq!(song.directory, "/root");
    assert_eq!(song.filename, "s.flac");

    let queued_coverart = QueuedCoverArt {
        id: 2,
        coverart: CoverArt { directory: String::from("/root"), filename: String::from("c.png"), ..CoverArt::default() },
        path: String::from("/root/c.png"),
    };
    let created = CoverArt { id: 88, song_id: 77, ..CoverArt::default() };
    let coverart = created_coverart(created, &queued_coverart);
    assert_eq!(coverart.id, 88);
    assert_eq!(coverart.song_id, 77);
    assert_eq!(coverart.directory, "/root");
    assert_eq!(coverart.filename, "c.png");
}
