use songparser::api::create_coverart::response::Response as CreateCoverArtResponse;
use songparser::api::create_song::response::Response as CreateSongResponse;
use songparser::api::fetch_next_queue_item::response::{QueueItem, SongQueueItem};
use songparser::api::get_coverart_queue::response::{CoverArtQueue, Response as CoverArtQueueResponse};
use songparser::api::get_metadata_queue::response::{Metadata, QueueItem as MetadataItem, Response as MetadataResponse};
use songparser::api::refresh_token::response::Response as RefreshResponse;
use songparser::api::service_token::response::Response as TokenResponse;
use songparser::api::update_queued_song::response::Response as UpdateResponse;
use songparser::api::wipe_data::coverart_queue::response::Response as CoverArtWipeResponse;
use songparser::api::wipe_data::song_queue::response::Response as SongWipeResponse;
use songparser::metadata::{MetaKind, MetaValue};
use songparser::models::{CoverArt, CoverArtType, LoginResult, Song};
use songparser::request::{Body, HttpRequest, Payload};
use songparser::service::{Action, Event, Fault, Phase, Reply, Service, SECONDS_TO_SLEEP};

const SONG_QUEUE_ID: u128 = 0x0000000a_0000_0000_0000_00000000000b;
const USER_ID: u128 = 0x0000000c_0000_0000_0000_00000000000d;
const COVERART_QUEUE_ID: u128 = 0x0000000e_0000_0000_0000_00000000000f;
const NOW: i128 = 1_000i128 * 1_000_000_000;

fn login(token: &str, expiration: i64) -> LoginResult {
    LoginResult {
        id: 1,
        username: String::from("svc"),
        token: String::from(token),
        token_type: String::from("JWT"),
        expiration,
    }
}

fn start() -> (Service, Action) {
    Service::new(String::from("http://api"), String::from("http://auth"), &String::from("pass"))
}

fn sent(action: Action) -> (HttpRequest, Reply) {
    match action {
        Action::Send(request, reply) => (request, reply),
        other => panic!("expected a request, got {other:?}"),
    }
}

fn bearer(request: &HttpRequest) -> Vec<u8> {
    request.authorization.as_ref().unwrap().as_bytes().to_vec()
}

/// A started service that has logged in with a valid token and is about to
/// look at the queue.
fn logged_in() -> Service {
    let (service, action) = start();
    let (request, reply) = sent(action);
    assert_eq!(reply, Reply::Login);
    assert_eq!(request.url, "http://auth/api/v2/service/login");
    let answer = TokenResponse { message: String::from("ok"), data: vec![login("tok", 2_000)] };
    let (service, action) = service.step(Event::Login(Ok(answer)));
    assert!(matches!(action, Action::ReadClock));
    service
}

fn metadata() -> Metadata {
    Metadata {
        song_queue_id: SONG_QUEUE_ID,
        album: String::from("Album"),
        album_artist: String::from("AA"),
        artist: String::from("Artist"),
        disc: 1,
        disc_count: 1,
        duration: 200,
        genre: String::from("Jazz"),
        title: String::from("Title"),
        track: 2,
        track_count: 10,
        year: 1960,
    }
}

fn queue_answer() -> SongQueueItem {
    SongQueueItem {
        message: String::from("next"),
        data: vec![QueueItem {
            id: SONG_QUEUE_ID,
            filename: String::from("up.flac"),
            status: String::from("pending"),
            user_id: USER_ID,
        }],
    }
}

#[test]
fn failed_login_stops_with_minus_one() {
    let (service, _) = start();
    let (service, action) = service.step(Event::Login(Err(String::from("refused"))));
    assert!(matches!(action, Action::Exit(-1)));
    assert!(matches!(service.phase, Phase::Stopped));
    let (service, _) = start();
    let empty = TokenResponse { message: String::from("none"), data: vec![] };
    let (_, action) = service.step(Event::Login(Ok(empty)));
    assert!(matches!(action, Action::Exit(-1)));
}

#[test]
fn expired_token_is_refreshed_and_failure_retries_at_once() {
    let (service, _) = start();
    let answer = TokenResponse { message: String::from("ok"), data: vec![login("old", 10)] };
    let (service, _) = service.step(Event::Login(Ok(answer)));
    let (service, action) = service.step(Event::Clock(NOW));
    let (request, reply) = sent(action);
    assert_eq!(reply, Reply::Refresh);
    assert_eq!(request.url, "http://auth/api/v2/token/refresh");
    assert!(request.authorization.is_none());
    assert!(matches!(request.body, Body::Json(Payload::RefreshToken { ref access_token }) if access_token == "old"));

    let (service, action) = service.step(Event::Refresh(Err(String::from("down"))));
    assert!(matches!(action, Action::ReadClock));
    assert_eq!(service.app.token.token, "old");

    let (service, _) = service.step(Event::Clock(NOW));
    let answer = RefreshResponse { message: String::from("ok"), data: vec![login("new", 5_000)] };
    let (service, action) = service.step(Event::Refresh(Ok(answer)));
    let (request, reply) = sent(action);
    assert_eq!(reply, Reply::NextQueueItem);
    assert_eq!(bearer(&request), b"Bearer new".to_vec());
    assert_eq!(service.app.token.token, "new");
}

#[test]
fn empty_queue_sleeps_then_checks_the_token_again() {
    let service = logged_in();
    let (service, action) = service.step(Event::Clock(NOW));
    let (request, reply) = sent(action);
    assert_eq!(reply, Reply::NextQueueItem);
    assert_eq!(request.url, "http://api/api/v2/song/queue/next");
    assert_eq!(bearer(&request), b"Bearer tok".to_vec());
    let empty = SongQueueItem { message: String::from("empty"), data: vec![] };
    let (service, action) = service.step(Event::Queue(Ok(empty)));
    assert!(matches!(action, Action::Sleep(SECONDS_TO_SLEEP)));
    assert_eq!(SECONDS_TO_SLEEP, 5);
    let (_, action) = service.step(Event::Woke);
    assert!(matches!(action, Action::ReadClock));
}

#[test]
fn failure_in_the_middle_of_a_round_sleeps() {
    let service = logged_in();
    let (service, _) = service.step(Event::Clock(NOW));
    let (service, _) = service.step(Event::Queue(Ok(queue_answer())));
    let (service, action) = service.step(Event::Bytes(Err(String::from("broken pipe"))));
    assert!(matches!(action, Action::Sleep(5)));
    assert!(matches!(service.phase, Phase::Sleeping));
    assert_eq!(service.app.token.token, "tok");
}

#[test]
fn empty_metadata_answer_aborts() {
    let service = logged_in();
    let (service, _) = service.step(Event::Clock(NOW));
    let (service, _) = service.step(Event::Queue(Ok(queue_answer())));
    let (service, _) = service.step(Event::Bytes(Ok(vec![1, 2, 3])));
    let (service, _) = service.step(Event::SongSaved {
        song: Song::default(),
        path: String::from("/root/s.flac"),
        saved: true,
    });
    let empty = MetadataResponse { message: String::from("none"), data: vec![] };
    let (_, action) = service.step(Event::Metadata(Ok(empty)));
    assert!(matches!(action, Action::Abort(Fault::EmptyAnswer)));
}

#[test]
fn token_that_cannot_be_sent_aborts() {
    let (service, _) = start();
    let answer = TokenResponse { message: String::from("ok"), data: vec![login("bad\ntoken", 2_000)] };
    let (service, _) = service.step(Event::Login(Ok(answer)));
    let (_, action) = service.step(Event::Clock(NOW));
    assert!(matches!(action, Action::Abort(Fault::InvalidToken)));
}

#[test]
fn unexpected_event_leaves_the_service_as_it_was() {
    let service = logged_in();
    let (service, action) = service.step(Event::Woke);
    assert!(matches!(action, Action::Abort(Fault::UnexpectedEvent)));
    assert!(matches!(service.phase, Phase::AwaitClock));
}

#[test]
fn failed_song_save_continues_with_the_empty_queued_song() {
    let service = logged_in();
    let (service, _) = service.step(Event::Clock(NOW));
    let (service, _) = service.step(Event::Queue(Ok(queue_answer())));
    let (service, _) = service.step(Event::Bytes(Ok(vec![9])));
    let (_, action) = service.step(Event::SongSaved {
        song: Song { filename: String::from("lost.flac"), ..Song::default() },
        path: String::from("/root/lost.flac"),
        saved: false,
    });
    let (request, reply) = sent(action);
    assert_eq!(reply, Reply::Metadata);
    let query: Vec<(String, String)> = request.query.iter().map(|q| (q.name.clone(), q.value.clone())).collect();
    assert_eq!(query, vec![(String::from("song_queue_id"), String::from("00000000-0000-0000-0000-000000000000"))]);
}

#[test]
fn a_whole_round() {
    let service = logged_in();
    let (service, _) = service.step(Event::Clock(NOW));
    let (service, action) = service.step(Event::Queue(Ok(queue_answer())));
    let (request, reply) = sent(action);
    assert_eq!(reply, Reply::SongData);
    assert_eq!(request.url, "http://api/api/v2/song/queue/0000000a-0000-0000-0000-00000000000b");

    let (service, action) = service.step(Event::Bytes(Ok(vec![1, 2, 3])));
    assert!(matches!(action, Action::SaveSong(ref d) if *d == vec![1u8, 2, 3]));

    let saved_song = Song {
        directory: String::from("/root"),
        filename: String::from("s.flac"),
        data: vec![1, 2, 3],
        ..Song::default()
    };
    let (service, action) = service.step(Event::SongSaved {
        song: saved_song,
        path: String::from("/root/s.flac"),
        saved: true,
    });
    let (request, reply) = sent(action);
    assert_eq!(reply, Reply::Metadata);
    assert_eq!(request.url, "http://api/api/v2/song/metadata/queue");
    assert_eq!(request.query[0].value, "0000000a-0000-0000-0000-00000000000b");

    let answer = MetadataResponse {
        message: String::from("ok"),
        data: vec![MetadataItem {
            id: 3,
            metadata: metadata(),
            created_at: String::from("2024-01-01T00:00:00Z"),
            song_queue_id: SONG_QUEUE_ID,
        }],
    };
    let (service, action) = service.step(Event::Metadata(Ok(answer)));
    let (request, reply) = sent(action);
    assert_eq!(reply, Reply::CoverArtQueue);
    assert_eq!(request.url, "http://api/api/v2/coverart/queue");

    let answer = CoverArtQueueResponse {
        message: String::from("ok"),
        data: vec![CoverArtQueue { id: COVERART_QUEUE_ID, file_type: String::from("jpeg"), song_queue_id: SONG_QUEUE_ID }],
    };
    let (service, action) = service.step(Event::CoverArtQueue(Ok(answer)));
    let (request, reply) = sent(action);
    assert_eq!(reply, Reply::CoverArtData);
    assert_eq!(request.url, "http://api/api/v2/coverart/queue/data/0000000e-0000-0000-0000-00000000000f");

    let (service, action) = service.step(Event::Bytes(Ok(vec![7, 7])));
    assert!(matches!(action, Action::SaveCoverArt(CoverArtType::JpegExtension, ref t, ref d) if t == "jpeg" && *d == vec![7u8, 7]));

    let saved_coverart = CoverArt {
        directory: String::from("/root"),
        filename: String::from("c.jpeg"),
        file_type: String::from("jpeg"),
        ..CoverArt::default()
    };
    let (mut service, mut action) = service.step(Event::CoverArtSaved {
        coverart: saved_coverart,
        path: String::from("/root/c.jpeg"),
    });
    let mut written = Vec::new();
    loop {
        match action {
            Action::WriteTag(path, kind, value) => {
                assert_eq!(path, "/root/s.flac");
                written.push((kind, value));
                let (s, a) = service.step(Event::FileDone(Ok(())));
                service = s;
                action = a;
            }
            other => {
                action = other;
                break;
            }
        }
    }
    let kinds: Vec<MetaKind> = written.iter().map(|(k, _)| *k).collect();
    assert_eq!(
        kinds,
        vec![
            MetaKind::Album,
            MetaKind::AlbumArtist,
            MetaKind::Artist,
            MetaKind::Date,
            MetaKind::Disc,
            MetaKind::Genre,
            MetaKind::Title,
            MetaKind::Track,
            MetaKind::TrackCount,
            MetaKind::DiscCount,
        ]
    );
    assert!(matches!(written[3].1, MetaValue::Text(ref s) if s == "1960"));
    assert!(matches!(written[8].1, MetaValue::Number(10)));
    assert!(matches!(action, Action::CheckCoverArt(ref p) if p == "/root/s.flac"));

    let (service, action) = service.step(Event::CoverArtPresence(Ok(true)));
    assert!(matches!(action, Action::RemoveCoverArt(ref p) if p == "/root/s.flac"));
    let (service, action) = service.step(Event::FileDone(Ok(())));
    assert!(matches!(action, Action::SetCoverArt(ref s, ref c) if s == "/root/s.flac" && c == "/root/c.jpeg"));

    let (service, action) = service.step(Event::CoverArtApplied(Ok(vec![7, 7])));
    let (request, reply) = sent(action);
    assert_eq!(reply, Reply::SongUpdate);
    assert_eq!(request.url, "http://api/api/v2/song/queue/0000000a-0000-0000-0000-00000000000b");

    let update = UpdateResponse { message: String::from("ok"), data: vec![SONG_QUEUE_ID] };
    let (service, action) = service.step(Event::SongUpdated(Ok(update)));
    let (request, reply) = sent(action);
    assert_eq!(reply, Reply::SongCreation);
    match request.body {
        Body::Json(Payload::CreateSong(ref p)) => {
            assert_eq!(p.audio_type, "flac");
            assert_eq!(p.date, "1960");
            assert_eq!(p.user_id, USER_ID);
            assert_eq!(p.song_queue_id, SONG_QUEUE_ID);
        }
        ref other => panic!("unexpected body {other:?}"),
    }

    let created = CreateSongResponse {
        message: String::from("ok"),
        data: vec![Song { id: 500, title: String::from("Title"), ..Song::default() }],
    };
    let (service, action) = service.step(Event::SongCreated(Ok(created)));
    let (request, reply) = sent(action);
    assert_eq!(reply, Reply::CoverArtCreation);
    assert!(matches!(request.body, Body::Json(Payload::CreateCoverArt { song_id: 500, coverart_queue_id: COVERART_QUEUE_ID })));

    let created = CreateCoverArtResponse {
        message: String::from("ok"),
        data: vec![CoverArt { id: 600, song_id: 500, ..CoverArt::default() }],
    };
    let (service, action) = service.step(Event::CoverArtCreated(Ok(created)));
    let (request, reply) = sent(action);
    assert_eq!(reply, Reply::SongWipe);
    assert!(matches!(request.body, Body::Json(Payload::WipeSongQueue { song_queue_id: SONG_QUEUE_ID })));

    let wiped = SongWipeResponse { message: String::from("ok"), data: vec![SONG_QUEUE_ID] };
    let (service, action) = service.step(Event::SongWiped(Ok(wiped)));
    let (request, reply) = sent(action);
    assert_eq!(reply, Reply::CoverArtWipe);
    assert!(matches!(request.body, Body::Json(Payload::WipeCoverArtQueue { coverart_queue_id: COVERART_QUEUE_ID })));

    let wiped = CoverArtWipeResponse { message: String::from("ok"), data: vec![COVERART_QUEUE_ID] };
    let (service, action) = service.step(Event::CoverArtWiped(Ok(wiped)));
    match action {
        Action::RemoveSongFile(ref song) => {
            assert_eq!(song.id, 500);
            assert_eq!(song.directory, "/root");
            assert_eq!(song.filename, "s.flac");
        }
        ref other => panic!("unexpected action {other:?}"),
    }
    let (service, action) = service.step(Event::FileDone(Err(String::from("gone"))));
    match action {
        Action::RemoveCoverArtFile(ref coverart) => {
            assert_eq!(coverart.id, 600);
            assert_eq!(coverart.directory, "/root");
            assert_eq!(coverart.filename, "c.jpeg");
        }
        ref other => panic!("unexpected action {other:?}"),
    }
    let (service, action) = service.step(Event::FileDone(Ok(())));
    assert!(matches!(action, Action::Sleep(5)));
    assert!(matches!(service.phase, Phase::Sleeping));
}
