use vstd::prelude::*;

use crate::api::create_coverart::create_coverart_request;
use crate::api::create_song::create_song_request;
use crate::api::fetch_next_queue_item::next_queue_item_request;
use crate::api::fetch_next_queue_item::response::SongQueueItem;
use crate::api::fetch_song_queue_data::song_queue_data_request;
use crate::api::get_coverart_queue::response::{CoverArtQueue, Response as CoverArtQueueResponse};
use crate::api::get_coverart_queue::{coverart_queue_data_request, coverart_queue_request};
use crate::api::get_metadata_queue::metadata_queue_request;
use crate::api::get_metadata_queue::response::{Metadata, Response as MetadataResponse};
use crate::api::refresh_token::response::Response as RefreshTokenResponse;
use crate::api::service_token::response::Response as ServiceTokenResponse;
use crate::api::update_queued_song::update_queued_song_request;
use crate::api::update_queued_song::response::Response as UpdateResponse;
use crate::api::create_song::response::Response as CreateSongResponse;
use crate::api::create_coverart::response::Response as CreateCoverArtResponse;
use crate::api::wipe_data::coverart_queue::wipe_coverart_queue_request;
use crate::api::wipe_data::coverart_queue::response::Response as CoverArtWipeResponse;
use crate::api::wipe_data::song_queue::wipe_song_queue_request;
use crate::api::wipe_data::song_queue::response::Response as SongWipeResponse;
use crate::api::can_authorize;
use crate::auth::{service_login_request, token_refresh_request};
use crate::config::App;
use crate::metadata::{meta_value_of, metadata_kinds, MetaKind, MetaValue, MetaValueView};
use crate::models::{CoverArt, CoverArtType, LoginResult, Song};
use crate::parser::{coverart_type_of, flac_type};
use crate::queued_item::{QueuedCoverArt, QueuedSong};
use crate::request::{HttpRequest, RequestView};

verus! {

/// How long the service waits between two looks at the song queue.
pub const SECONDS_TO_SLEEP: u64 = 5;

/// The song queue item being worked on and the user who queued it.
#[derive(Clone, Copy, Debug)]
pub struct Job {
    pub song_queue_id: u128,
    pub user_id: u128,
}

/// A job whose song file is saved and whose metadata has arrived.
#[derive(Clone, Debug)]
pub struct Prepared {
    pub job: Job,
    pub queued_song: QueuedSong,
    pub metadata: Metadata,
}

/// A job whose song file and cover art file are both saved.
#[derive(Clone, Debug)]
pub struct Ready {
    pub job: Job,
    pub queued_song: QueuedSong,
    pub metadata: Metadata,
    pub queued_coverart: QueuedCoverArt,
}

/// A job whose song and cover art records have been created.
#[derive(Clone, Debug)]
pub struct Finished {
    pub ready: Ready,
    pub song: Song,
    pub coverart: CoverArt,
}

/// Where the service stands: what it is waiting for, and what it knows of the
/// job in hand.
#[derive(Clone, Debug)]
pub enum Phase {
    /// The service login was sent.
    AwaitLogin,
    /// The time was asked for, to see whether the token has expired.
    AwaitClock,
    /// A token refresh was sent.
    AwaitRefresh,
    /// The next item of the song queue was asked for.
    AwaitQueue,
    /// The song file of the job was asked for.
    AwaitSongData(Job),
    /// The song file is being saved.
    AwaitSongSaved(Job),
    /// The metadata queued with the song was asked for.
    AwaitMetadata(Job, QueuedSong),
    /// The cover art queued with the song was asked for.
    AwaitCoverArtQueue(Prepared),
    /// The cover art file was asked for.
    AwaitCoverArtData(Prepared, CoverArtQueue),
    /// The cover art file is being saved.
    AwaitCoverArtSaved(Prepared, CoverArtQueue),
    /// The tag with this index is being written into the song file.
    AwaitTag(Ready, usize),
    /// The song file is being checked for a cover art.
    AwaitCoverArtCheck(Ready),
    /// The old cover art is being removed from the song file.
    AwaitCoverArtRemoval(Ready),
    /// The cover art is being written into the song file.
    AwaitCoverArtApplied(Ready),
    /// The edited song file is being uploaded.
    AwaitSongUpdate(Ready),
    /// The song record creation was sent.
    AwaitSongCreated(Ready),
    /// The cover art record creation was sent.
    AwaitCoverArtCreated(Ready, Song),
    /// The song queue wipe was sent.
    AwaitSongWipe(Finished),
    /// The cover art queue wipe was sent.
    AwaitCoverArtWipe(Finished),
    /// The song file is being removed; the cover art file is next.
    AwaitSongFileRemoval(CoverArt),
    /// The cover art file is being removed.
    AwaitCoverArtFileRemoval,
    /// The service sleeps before its next round.
    Sleeping,
    /// The service has stopped.
    Stopped,
}

/// Which answer a request waits for, and so which event it comes back as.
#[derive(Clone, Copy, Debug, PartialEq, Eq, Structural)]
pub enum Reply {
    Login,
    Refresh,
    NextQueueItem,
    SongData,
    Metadata,
    CoverArtQueue,
    CoverArtData,
    SongUpdate,
    SongCreation,
    CoverArtCreation,
    SongWipe,
    CoverArtWipe,
}

/// Why the service stops abnormally.
#[derive(Clone, Copy, Debug, PartialEq, Eq, Structural)]
pub enum Fault {
    /// An answer that must hold at least one record held none.
    EmptyAnswer,
    /// The token cannot stand in the `Authorization` header.
    InvalidToken,
    /// An event came that the service was not waiting for.
    UnexpectedEvent,
}

/// What the world tells the service.
#[derive(Debug)]
pub enum Event {
    Login(Result<ServiceTokenResponse, String>),
    /// The current time, in nanoseconds since the Unix epoch.
    Clock(i128),
    Refresh(Result<RefreshTokenResponse, String>),
    Queue(Result<SongQueueItem, String>),
    /// The body of a file download.
    Bytes(Result<Vec<u8>, String>),
    /// The song file was written (or not) to the file system as `song`, at `path`.
    SongSaved { song: Song, path: String, saved: bool },
    Metadata(Result<MetadataResponse, String>),
    CoverArtQueue(Result<CoverArtQueueResponse, String>),
    /// The cover art file was written to the file system as `coverart`, at `path`.
    CoverArtSaved { coverart: CoverArt, path: String },
    /// A file operation (a tag written, a cover art or a file removed) ended.
    FileDone(Result<(), String>),
    /// Whether the song file holds a cover art.
    CoverArtPresence(Result<bool, String>),
    /// The picture that was written into the song file.
    CoverArtApplied(Result<Vec<u8>, String>),
    SongUpdated(Result<UpdateResponse, String>),
    SongCreated(Result<CreateSongResponse, String>),
    CoverArtCreated(Result<CreateCoverArtResponse, String>),
    SongWiped(Result<SongWipeResponse, String>),
    CoverArtWiped(Result<CoverArtWipeResponse, String>),
    /// The sleep is over.
    Woke,
}

/// What the service asks the world to do next.
#[derive(Clone, Debug)]
pub enum Action {
    /// Send the request and hand back its answer as the given reply.
    Send(HttpRequest, Reply),
    /// Hand back the current time.
    ReadClock,
    /// Save the downloaded song file.
    SaveSong(Vec<u8>),
    /// Save the downloaded cover art file of the given kind and type name.
    SaveCoverArt(CoverArtType, String, Vec<u8>),
    /// Write the tag into the song file at the path.
    WriteTag(String, MetaKind, MetaValue),
    /// Check whether the song file at the path holds a cover art.
    CheckCoverArt(String),
    /// Remove the cover art from the song file at the path.
    RemoveCoverArt(String),
    /// Write the cover art file (second path) into the song file (first path).
    SetCoverArt(String, String),
    /// Remove the song's file.
    RemoveSongFile(Song),
    /// Remove the cover art's file.
    RemoveCoverArtFile(CoverArt),
    /// Sleep for this many seconds.
    Sleep(u64),
    /// Stop the process with this exit code.
    Exit(i32),
    /// Stop abnormally.
    Abort(Fault),
}

pub enum ActionView {
    Send(RequestView, Reply),
    ReadClock,
    SaveSong(Seq<u8>),
    SaveCoverArt(CoverArtType, Seq<char>, Seq<u8>),
    WriteTag(Seq<char>, MetaKind, MetaValueView),
    CheckCoverArt(Seq<char>),
    RemoveCoverArt(Seq<char>),
    SetCoverArt(Seq<char>, Seq<char>),
    RemoveSongFile(Song),
    RemoveCoverArtFile(CoverArt),
    Sleep(u64),
    Exit(i32),
    Abort(Fault),
}

impl View for Action {
    type V = ActionView;

    open spec fn view(&self) -> ActionView {
        match self {
            Action::Send(r, reply) => ActionView::Send(r@, *reply),
            Action::ReadClock => ActionView::ReadClock,
            Action::SaveSong(d) => ActionView::SaveSong(d@),
            Action::SaveCoverArt(k, t, d) => ActionView::SaveCoverArt(*k, t@, d@),
            Action::WriteTag(p, k, v) => ActionView::WriteTag(p@, *k, v@),
            Action::CheckCoverArt(p) => ActionView::CheckCoverArt(p@),
            Action::RemoveCoverArt(p) => ActionView::RemoveCoverArt(p@),
            Action::SetCoverArt(s, c) => ActionView::SetCoverArt(s@, c@),
            Action::RemoveSongFile(s) => ActionView::RemoveSongFile(*s),
            Action::RemoveCoverArtFile(c) => ActionView::RemoveCoverArtFile(*c),
            Action::Sleep(n) => ActionView::Sleep(*n),
            Action::Exit(c) => ActionView::Exit(*c),
            Action::Abort(f) => ActionView::Abort(*f),
        }
    }
}

/// The service: its configuration and login, and where it stands.
#[derive(Clone, Debug)]
pub struct Service {
    pub app: App,
    pub phase: Phase,
}

// ---------------------------------------------------------------------------
// The transition table.
// ---------------------------------------------------------------------------

/// The same configuration, now logged in as `login`.
pub open spec fn with_token(app: App, login: LoginResult) -> App {
    App { token: login, ..app }
}

/// End the round: sleep, then look at the queue again.
pub open spec fn go_to_sleep(app: App) -> (Service, ActionView) {
    (Service { app, phase: Phase::Sleeping }, ActionView::Sleep(SECONDS_TO_SLEEP))
}

/// Stop abnormally for `fault`.
pub open spec fn abort(app: App, fault: Fault) -> (Service, ActionView) {
    (Service { app, phase: Phase::Stopped }, ActionView::Abort(fault))
}

/// Send `request` to the music API with the login of `app` and wait in
/// `phase`; a token that cannot be sent stops the service.
pub open spec fn send_authorized(app: App, phase: Phase, request: RequestView, reply: Reply) -> (Service, ActionView) {
    if can_authorize(app) {
        (Service { app, phase }, ActionView::Send(request, reply))
    } else {
        abort(app, Fault::InvalidToken)
    }
}

/// Ask for the next item of the song queue.
pub open spec fn look_at_queue(app: App) -> (Service, ActionView) {
    send_authorized(app, Phase::AwaitQueue, next_queue_item_request(app), Reply::NextQueueItem)
}

/// Ask for the time, to see whether the token has expired.
pub open spec fn check_token(app: App) -> (Service, ActionView) {
    (Service { app, phase: Phase::AwaitClock }, ActionView::ReadClock)
}

/// Write the tag with index `index` into the song file of `ready`.
pub open spec fn write_tag(app: App, ready: Ready, index: int) -> (Service, ActionView) {
    (
        Service { app, phase: Phase::AwaitTag(ready, index as usize) },
        ActionView::WriteTag(
            ready.queued_song.path@,
            metadata_kinds()[index],
            meta_value_of(metadata_kinds()[index], ready.metadata),
        ),
    )
}

/// Write the cover art file of `ready` into its song file.
pub open spec fn set_coverart(app: App, ready: Ready) -> (Service, ActionView) {
    (
        Service { app, phase: Phase::AwaitCoverArtApplied(ready) },
        ActionView::SetCoverArt(ready.queued_song.path@, ready.queued_coverart.path@),
    )
}

/// The answer to the step of a service in `phase` that is given `event`.
/// Every case but the saving of the song file gives a single outcome; there
/// the empty queued song that stands for a failed save is only known by its
/// contents, so the outcome is stated by `song_saved_step`.
pub open spec fn next(app: App, phase: Phase, event: Event) -> (Service, ActionView) {
    let unexpected = (Service { app, phase }, ActionView::Abort(Fault::UnexpectedEvent));
    match phase {
        Phase::AwaitLogin => match event {
            Event::Login(Ok(r)) => if r.data@.len() > 0 {
                check_token(with_token(app, r.data@[0]))
            } else {
                (Service { app, phase: Phase::Stopped }, ActionView::Exit(-1i32))
            },
            Event::Login(Err(_)) => (Service { app, phase: Phase::Stopped }, ActionView::Exit(-1i32)),
            _ => unexpected,
        },
        Phase::AwaitClock => match event {
            Event::Clock(now) => if app.token.expired_at(now as int) {
                (
                    Service { app, phase: Phase::AwaitRefresh },
                    ActionView::Send(token_refresh_request(app), Reply::Refresh),
                )
            } else {
                look_at_queue(app)
            },
            _ => unexpected,
        },
        Phase::AwaitRefresh => match event {
            Event::Refresh(Ok(r)) => if r.data@.len() > 0 {
                look_at_queue(with_token(app, r.data@[0]))
            } else {
                check_token(app)
            },
            Event::Refresh(Err(_)) => check_token(app),
            _ => unexpected,
        },
        Phase::AwaitQueue => match event {
            Event::Queue(Ok(item)) => if item.data@.len() == 0 {
                go_to_sleep(app)
            } else {
                let job = Job { song_queue_id: item.data@[0].id, user_id: item.data@[0].user_id };
                send_authorized(
                    app,
                    Phase::AwaitSongData(job),
                    song_queue_data_request(app, job.song_queue_id),
                    Reply::SongData,
                )
            },
            Event::Queue(Err(_)) => go_to_sleep(app),
            _ => unexpected,
        },
        Phase::AwaitSongData(job) => match event {
            Event::Bytes(Ok(bytes)) => (
                Service { app, phase: Phase::AwaitSongSaved(job) },
                ActionView::SaveSong(bytes@),
            ),
            Event::Bytes(Err(_)) => go_to_sleep(app),
            _ => unexpected,
        },
        Phase::AwaitSongSaved(job) => unexpected,
        Phase::AwaitMetadata(job, queued_song) => match event {
            Event::Metadata(Ok(r)) => if r.data@.len() == 0 {
                abort(app, Fault::EmptyAnswer)
            } else {
                let prepared = Prepared { job, queued_song, metadata: r.data@[0].metadata };
                send_authorized(
                    app,
                    Phase::AwaitCoverArtQueue(prepared),
                    coverart_queue_request(app, queued_song.id),
                    Reply::CoverArtQueue,
                )
            },
            Event::Metadata(Err(_)) => go_to_sleep(app),
            _ => unexpected,
        },
        Phase::AwaitCoverArtQueue(prepared) => match event {
            Event::CoverArtQueue(Ok(r)) => if r.data@.len() == 0 {
                abort(app, Fault::EmptyAnswer)
            } else {
                let queue = r.data@[0];
                send_authorized(
                    app,
                    Phase::AwaitCoverArtData(prepared, queue),
                    coverart_queue_data_request(app, queue.id),
                    Reply::CoverArtData,
                )
            },
            Event::CoverArtQueue(Err(_)) => go_to_sleep(app),
            _ => unexpected,
        },
        Phase::AwaitCoverArtData(prepared, queue) => match event {
            Event::Bytes(Ok(bytes)) => (
                Service { app, phase: Phase::AwaitCoverArtSaved(prepared, queue) },
                ActionView::SaveCoverArt(coverart_type_of(queue.file_type@), queue.file_type@, bytes@),
            ),
            Event::Bytes(Err(_)) => go_to_sleep(app),
            _ => unexpected,
        },
        Phase::AwaitCoverArtSaved(prepared, queue) => match event {
            Event::CoverArtSaved { coverart, path } => {
                let ready = Ready {
                    job: prepared.job,
                    queued_song: prepared.queued_song,
                    metadata: prepared.metadata,
                    queued_coverart: QueuedCoverArt { id: queue.id, coverart, path },
                };
                write_tag(app, ready, 0)
            },
            _ => unexpected,
        },
        Phase::AwaitTag(ready, index) => match event {
            Event::FileDone(Ok(_)) => if index + 1 < metadata_kinds().len() {
                write_tag(app, ready, index + 1)
            } else {
                (
                    Service { app, phase: Phase::AwaitCoverArtCheck(ready) },
                    ActionView::CheckCoverArt(ready.queued_song.path@),
                )
            },
            Event::FileDone(Err(_)) => go_to_sleep(app),
            _ => unexpected,
        },
        Phase::AwaitCoverArtCheck(ready) => match event {
            Event::CoverArtPresence(Ok(present)) => if present {
                (
                    Service { app, phase: Phase::AwaitCoverArtRemoval(ready) },
                    ActionView::RemoveCoverArt(ready.queued_song.path@),
                )
            } else {
                set_coverart(app, ready)
            },
            Event::CoverArtPresence(Err(_)) => go_to_sleep(app),
            _ => unexpected,
        },
        Phase::AwaitCoverArtRemoval(ready) => match event {
            Event::FileDone(Ok(_)) => set_coverart(app, ready),
            Event::FileDone(Err(_)) => go_to_sleep(app),
            _ => unexpected,
        },
        Phase::AwaitCoverArtApplied(ready) => match event {
            Event::CoverArtApplied(Ok(_)) => send_authorized(
                app,
                Phase::AwaitSongUpdate(ready),
                update_queued_song_request(app, ready.queued_song),
                Reply::SongUpdate,
            ),
            Event::CoverArtApplied(Err(_)) => go_to_sleep(app),
            _ => unexpected,
        },
        Phase::AwaitSongUpdate(ready) => match event {
            Event::SongUpdated(Ok(_)) => send_authorized(
                app,
                Phase::AwaitSongCreated(ready),
                create_song_request(app, ready.metadata, ready.job.user_id, flac_type()),
                Reply::SongCreation,
            ),
            Event::SongUpdated(Err(_)) => go_to_sleep(app),
            _ => unexpected,
        },
        Phase::AwaitSongCreated(ready) => match event {
            Event::SongCreated(Ok(r)) => if r.data@.len() == 0 {
                abort(app, Fault::EmptyAnswer)
            } else {
                let song = r.data@[0].placed(
                    ready.queued_song.song.directory,
                    ready.queued_song.song.filename,
                );
                send_authorized(
                    app,
                    Phase::AwaitCoverArtCreated(ready, song),
                    create_coverart_request(app, song.id, ready.queued_coverart.id),
                    Reply::CoverArtCreation,
                )
            },
            Event::SongCreated(Err(_)) => go_to_sleep(app),
            _ => unexpected,
        },
        Phase::AwaitCoverArtCreated(ready, song) => match event {
            Event::CoverArtCreated(Ok(r)) => if r.data@.len() == 0 {
                abort(app, Fault::EmptyAnswer)
            } else {
                let coverart = r.data@[0].placed(
                    ready.queued_coverart.coverart.directory,
                    ready.queued_coverart.coverart.filename,
                );
                let finished = Finished { ready, song, coverart };
                send_authorized(
                    app,
                    Phase::AwaitSongWipe(finished),
                    wipe_song_queue_request(app, ready.queued_song.id),
                    Reply::SongWipe,
                )
            },
            Event::CoverArtCreated(Err(_)) => go_to_sleep(app),
            _ => unexpected,
        },
        Phase::AwaitSongWipe(finished) => match event {
            Event::SongWiped(Ok(_)) => send_authorized(
                app,
                Phase::AwaitCoverArtWipe(finished),
                wipe_coverart_queue_request(app, finished.ready.queued_coverart.id),
                Reply::CoverArtWipe,
            ),
            Event::SongWiped(Err(_)) => go_to_sleep(app),
            _ => unexpected,
        },
        Phase::AwaitCoverArtWipe(finished) => match event {
            Event::CoverArtWiped(Ok(_)) => (
                Service { app, phase: Phase::AwaitSongFileRemoval(finished.coverart) },
                ActionView::RemoveSongFile(finished.song),
            ),
            Event::CoverArtWiped(Err(_)) => go_to_sleep(app),
            _ => unexpected,
        },
        Phase::AwaitSongFileRemoval(coverart) => match event {
            Event::FileDone(_) => (
                Service { app, phase: Phase::AwaitCoverArtFileRemoval },
                ActionView::RemoveCoverArtFile(coverart),
            ),
            _ => unexpected,
        },
        Phase::AwaitCoverArtFileRemoval => match event {
            Event::FileDone(_) => go_to_sleep(app),
            _ => unexpected,
        },
        Phase::Sleeping => match event {
            Event::Woke => check_token(app),
            _ => unexpected,
        },
        Phase::Stopped => unexpected,
    }
}

/// The step of a service that waits for its song file to be saved: the
/// queued song is the saved song under the job's queue item where saving went
/// through, and the empty queued song where it did not; then the metadata
/// queued with that queued song's id is asked for.
pub open spec fn song_saved_step(app: App, job: Job, event: Event, after: Service, action: ActionView) -> bool {
    match event {
        Event::SongSaved { song, path, saved } => if can_authorize(app) {
            &&& after.app == app
            &&& after.phase matches Phase::AwaitMetadata(j, queued_song)
            &&& j == job
            &&& (saved ==> queued_song == QueuedSong { id: job.song_queue_id, song, path })
            &&& (!saved ==> queued_song.is_empty())
            &&& action == ActionView::Send(metadata_queue_request(app, queued_song.id), Reply::Metadata)
        } else {
            (after, action) == abort(app, Fault::InvalidToken)
        },
        _ => (after, action) == (Service { app, phase: Phase::AwaitSongSaved(job) }, ActionView::Abort(Fault::UnexpectedEvent)),
    }
}

/// The step relation of the service: from `before`, given `event`, it goes
/// to `after` and asks for `action`.
pub open spec fn step_spec(before: Service, event: Event, after: Service, action: ActionView) -> bool {
    match before.phase {
        Phase::AwaitSongSaved(job) => song_saved_step(before.app, job, event, after, action),
        _ => (after, action) == next(before.app, before.phase, event),
    }
}

// ---------------------------------------------------------------------------
// The service itself.
// ---------------------------------------------------------------------------

fn go_to_sleep_now(app: App) -> (res: (Service, Action))
    ensures
        (res.0, res.1@) == go_to_sleep(app),
{
    (Service { app, phase: Phase::Sleeping }, Action::Sleep(SECONDS_TO_SLEEP))
}

fn abort_now(app: App, fault: Fault) -> (res: (Service, Action))
    ensures
        (res.0, res.1@) == abort(app, fault),
{
    (Service { app, phase: Phase::Stopped }, Action::Abort(fault))
}

fn check_token_now(app: App) -> (res: (Service, Action))
    ensures
        (res.0, res.1@) == check_token(app),
{
    (Service { app, phase: Phase::AwaitClock }, Action::ReadClock)
}

fn stay(app: App, phase: Phase) -> (res: (Service, Action))
    ensures
        res.0 == (Service { app, phase }),
        res.1@ == ActionView::Abort(Fault::UnexpectedEvent),
{
    (Service { app, phase }, Action::Abort(Fault::UnexpectedEvent))
}

fn look_at_queue_now(app: App) -> (res: (Service, Action))
    ensures
        (res.0, res.1@) == look_at_queue(app),
{
    if crate::api::authorizes(&app) {
        let request = crate::api::fetch_next_queue_item::fetch_next_queue_item(&app);
        (Service { app, phase: Phase::AwaitQueue }, Action::Send(request, Reply::NextQueueItem))
    } else {
        abort_now(app, Fault::InvalidToken)
    }
}

fn write_tag_now(app: App, ready: Ready, index: usize) -> (res: (Service, Action))
    requires
        index < metadata_kinds().len(),
    ensures
        (res.0, res.1@) == write_tag(app, ready, index as int),
{
    let kind = crate::metadata::metadata_type_at(index);
    let value = crate::metadata::metadata_value(kind, &ready.metadata);
    let path = ready.queued_song.path.clone();
    (Service { app, phase: Phase::AwaitTag(ready, index) }, Action::WriteTag(path, kind, value))
}

fn set_coverart_now(app: App, ready: Ready) -> (res: (Service, Action))
    ensures
        (res.0, res.1@) == set_coverart(app, ready),
{
    let song_path = ready.queued_song.path.clone();
    let coverart_path = ready.queued_coverart.path.clone();
    (
        Service { app, phase: Phase::AwaitCoverArtApplied(ready) },
        Action::SetCoverArt(song_path, coverart_path),
    )
}

impl Service {
    /// Starts the service for the music API at `uri` and the authentication
    /// service at `auth_uri`: it logs in with `passphrase`.
    pub fn new(uri: String, auth_uri: String, passphrase: &String) -> (res: (Service, Action))
        ensures
            res.0.app.uri == uri,
            res.0.app.auth_uri == auth_uri,
            res.0.app.token.is_empty(),
            res.0.app.root_directory@.len() == 0,
            res.0.phase == Phase::AwaitLogin,
            res.1@ == ActionView::Send(service_login_request(res.0.app, passphrase@), Reply::Login),
    {
        let app = App::new(uri, auth_uri);
        let request = crate::auth::service_login(&app, passphrase);
        (Service { app, phase: Phase::AwaitLogin }, Action::Send(request, Reply::Login))
    }

    /// Takes the service one step further: given what happened, it moves on
    /// and tells what to do next.
    pub fn step(self, event: Event) -> (res: (Service, Action))
        ensures
            step_spec(self, event, res.0, res.1@),
    {
        let app = self.app;
        match self.phase {
            Phase::AwaitLogin => on_login(app, event),
            Phase::AwaitClock => on_clock(app, event),
            Phase::AwaitRefresh => on_refresh(app, event),
            Phase::AwaitQueue => on_queue(app, event),
            Phase::AwaitSongData(job) => on_song_data(app, job, event),
            Phase::AwaitSongSaved(job) => on_song_saved(app, job, event),
            Phase::AwaitMetadata(job, queued_song) => on_metadata(app, job, queued_song, event),
            Phase::AwaitCoverArtQueue(prepared) => on_coverart_queue(app, prepared, event),
            Phase::AwaitCoverArtData(prepared, queue) => on_coverart_data(app, prepared, queue, event),
            Phase::AwaitCoverArtSaved(prepared, queue) => on_coverart_saved(app, prepared, queue, event),
            Phase::AwaitTag(ready, index) => on_tag(app, ready, index, event),
            Phase::AwaitCoverArtCheck(ready) => on_coverart_check(app, ready, event),
            Phase::AwaitCoverArtRemoval(ready) => on_coverart_removal(app, ready, event),
            Phase::AwaitCoverArtApplied(ready) => on_coverart_applied(app, ready, event),
            Phase::AwaitSongUpdate(ready) => on_song_update(app, ready, event),
            Phase::AwaitSongCreated(ready) => on_song_created(app, ready, event),
            Phase::AwaitCoverArtCreated(ready, song) => on_coverart_created(app, ready, song, event),
            Phase::AwaitSongWipe(finished) => on_song_wipe(app, finished, event),
            Phase::AwaitCoverArtWipe(finished) => on_coverart_wipe(app, finished, event),
            Phase::AwaitSongFileRemoval(coverart) => on_song_file_removal(app, coverart, event),
            Phase::AwaitCoverArtFileRemoval => on_coverart_file_removal(app, event),
            Phase::Sleeping => on_sleeping(app, event),
            Phase::Stopped => stay(app, Phase::Stopped),
        }
    }
}

fn on_login(app: App, event: Event) -> (res: (Service, Action))
    ensures
        (res.0, res.1@) == next(app, Phase::AwaitLogin, event),
{
    match event {
        Event::Login(Ok(r)) => {
            let mut data = r.data;
            if data.len() > 0 {
                let login = data.remove(0);
                check_token_now(App { token: login, ..app })
            } else {
                (Service { app, phase: Phase::Stopped }, Action::Exit(-1))
            }
        },
        Event::Login(Err(_)) => (Service { app, phase: Phase::Stopped }, Action::Exit(-1)),
        _ => stay(app, Phase::AwaitLogin),
    }
}

fn on_clock(app: App, event: Event) -> (res: (Service, Action))
    ensures
        (res.0, res.1@) == next(app, Phase::AwaitClock, event),
{
    match event {
        Event::Clock(now) => {
            if app.token.token_expired_at(now) {
                let request = crate::auth::token_refresh(&app);
                (Service { app, phase: Phase::AwaitRefresh }, Action::Send(request, Reply::Refresh))
            } else {
                look_at_queue_now(app)
            }
        },
        _ => stay(app, Phase::AwaitClock),
    }
}

fn on_refresh(app: App, event: Event) -> (res: (Service, Action))
    ensures
        (res.0, res.1@) == next(app, Phase::AwaitRefresh, event),
{
    match event {
        Event::Refresh(Ok(r)) => {
            let mut data = r.data;
            if data.len() > 0 {
                let login = data.remove(0);
                look_at_queue_now(App { token: login, ..app })
            } else {
                check_token_now(app)
            }
        },
        Event::Refresh(Err(_)) => check_token_now(app),
        _ => stay(app, Phase::AwaitRefresh),
    }
}

fn on_queue(app: App, event: Event) -> (res: (Service, Action))
    ensures
        (res.0, res.1@) == next(app, Phase::AwaitQueue, event),
{
    match event {
        Event::Queue(Ok(item)) => {
            if item.data.len() == 0 {
                go_to_sleep_now(app)
            } else {
                let job = Job { song_queue_id: item.data[0].id, user_id: item.data[0].user_id };
                if crate::api::authorizes(&app) {
                    let request = crate::api::fetch_song_queue_data::get_data(&app, &job.song_queue_id);
                    (Service { app, phase: Phase::AwaitSongData(job) }, Action::Send(request, Reply::SongData))
                } else {
                    abort_now(app, Fault::InvalidToken)
                }
            }
        },
        Event::Queue(Err(_)) => go_to_sleep_now(app),
        _ => stay(app, Phase::AwaitQueue),
    }
}

fn on_song_data(app: App, job: Job, event: Event) -> (res: (Service, Action))
    ensures
        (res.0, res.1@) == next(app, Phase::AwaitSongData(job), event),
{
    match event {
        Event::Bytes(Ok(bytes)) => (Service { app, phase: Phase::AwaitSongSaved(job) }, Action::SaveSong(bytes)),
        Event::Bytes(Err(_)) => go_to_sleep_now(app),
        _ => stay(app, Phase::AwaitSongData(job)),
    }
}

fn on_song_saved(app: App, job: Job, event: Event) -> (res: (Service, Action))
    ensures
        song_saved_step(app, job, event, res.0, res.1@),
{
    match event {
        Event::SongSaved { song, path, saved } => {
            let queued_song = crate::parser::queued_song_after_save(job.song_queue_id, song, path, saved);
            if crate::api::authorizes(&app) {
                let request = crate::api::get_metadata_queue::get(&app, &queued_song.id);
                (
                    Service { app, phase: Phase::AwaitMetadata(job, queued_song) },
                    Action::Send(request, Reply::Metadata),
                )
            } else {
                abort_now(app, Fault::InvalidToken)
            }
        },
        _ => stay(app, Phase::AwaitSongSaved(job)),
    }
}

fn on_metadata(app: App, job: Job, queued_song: QueuedSong, event: Event) -> (res: (Service, Action))
    ensures
        (res.0, res.1@) == next(app, Phase::AwaitMetadata(job, queued_song), event),
{
    match event {
        Event::Metadata(Ok(r)) => {
            let mut data = r.data;
            if data.len() == 0 {
                abort_now(app, Fault::EmptyAnswer)
            } else {
                let item = data.remove(0);
                if crate::api::authorizes(&app) {
                    let request = crate::api::get_coverart_queue::get(&app, &queued_song.id);
                    let prepared = Prepared { job, queued_song, metadata: item.metadata };
                    (
                        Service { app, phase: Phase::AwaitCoverArtQueue(prepared) },
                        Action::Send(request, Reply::CoverArtQueue),
                    )
                } else {
                    abort_now(app, Fault::InvalidToken)
                }
            }
        },
        Event::Metadata(Err(_)) => go_to_sleep_now(app),
        _ => stay(app, Phase::AwaitMetadata(job, queued_song)),
    }
}

fn on_coverart_queue(app: App, prepared: Prepared, event: Event) -> (res: (Service, Action))
    ensures
        (res.0, res.1@) == next(app, Phase::AwaitCoverArtQueue(prepared), event),
{
    match event {
        Event::CoverArtQueue(Ok(r)) => {
            let mut data = r.data;
            if data.len() == 0 {
                abort_now(app, Fault::EmptyAnswer)
            } else {
                let queue = data.remove(0);
                if crate::api::authorizes(&app) {
                    let request = crate::api::get_coverart_queue::get_data(&app, &queue.id);
                    (
                        Service { app, phase: Phase::AwaitCoverArtData(prepared, queue) },
                        Action::Send(request, Reply::CoverArtData),
                    )
                } else {
                    abort_now(app, Fault::InvalidToken)
                }
            }
        },
        Event::CoverArtQueue(Err(_)) => go_to_sleep_now(app),
        _ => stay(app, Phase::AwaitCoverArtQueue(prepared)),
    }
}

fn on_coverart_data(app: App, prepared: Prepared, queue: CoverArtQueue, event: Event) -> (res: (Service, Action))
    ensures
        (res.0, res.1@) == next(app, Phase::AwaitCoverArtData(prepared, queue), event),
{
    match event {
        Event::Bytes(Ok(bytes)) => {
            let kind = crate::parser::coverart_type(&queue.file_type);
            let file_type = queue.file_type.clone();
            (
                Service { app, phase: Phase::AwaitCoverArtSaved(prepared, queue) },
                Action::SaveCoverArt(kind, file_type, bytes),
            )
        },
        Event::Bytes(Err(_)) => go_to_sleep_now(app),
        _ => stay(app, Phase::AwaitCoverArtData(prepared, queue)),
    }
}

fn on_coverart_saved(app: App, prepared: Prepared, queue: CoverArtQueue, event: Event) -> (res: (Service, Action))
    ensures
        (res.0, res.1@) == next(app, Phase::AwaitCoverArtSaved(prepared, queue), event),
{
    match event {
        Event::CoverArtSaved { coverart, path } => {
            let queued_coverart = crate::parser::init_queued_coverart(queue.id, coverart, path);
            let ready = Ready {
                job: prepared.job,
                queued_song: prepared.queued_song,
                metadata: prepared.metadata,
                queued_coverart,
            };
            write_tag_now(app, ready, 0)
        },
        _ => stay(app, Phase::AwaitCoverArtSaved(prepared, queue)),
    }
}

fn on_tag(app: App, ready: Ready, index: usize, event: Event) -> (res: (Service, Action))
    ensures
        (res.0, res.1@) == next(app, Phase::AwaitTag(ready, index), event),
{
    match event {
        Event::FileDone(Ok(_)) => {
            if index < crate::metadata::METADATA_TYPE_COUNT - 1 {
                write_tag_now(app, ready, index + 1)
            } else {
                let path = ready.queued_song.path.clone();
                (Service { app, phase: Phase::AwaitCoverArtCheck(ready) }, Action::CheckCoverArt(path))
            }
        },
        Event::FileDone(Err(_)) => go_to_sleep_now(app),
        _ => stay(app, Phase::AwaitTag(ready, index)),
    }
}

fn on_coverart_check(app: App, ready: Ready, event: Event) -> (res: (Service, Action))
    ensures
        (res.0, res.1@) == next(app, Phase::AwaitCoverArtCheck(ready), event),
{
    match event {
        Event::CoverArtPresence(Ok(present)) => {
            if present {
                let path = ready.queued_song.path.clone();
                (Service { app, phase: Phase::AwaitCoverArtRemoval(ready) }, Action::RemoveCoverArt(path))
            } else {
                set_coverart_now(app, ready)
            }
        },
        Event::CoverArtPresence(Err(_)) => go_to_sleep_now(app),
        _ => stay(app, Phase::AwaitCoverArtCheck(ready)),
    }
}

fn on_coverart_removal(app: App, ready: Ready, event: Event) -> (res: (Service, Action))
    ensures
        (res.0, res.1@) == next(app, Phase::AwaitCoverArtRemoval(ready), event),
{
    match event {
        Event::FileDone(Ok(_)) => set_coverart_now(app, ready),
        Event::FileDone(Err(_)) => go_to_sleep_now(app),
        _ => stay(app, Phase::AwaitCoverArtRemoval(ready)),
    }
}

fn on_coverart_applied(app: App, ready: Ready, event: Event) -> (res: (Service, Action))
    ensures
        (res.0, res.1@) == next(app, Phase::AwaitCoverArtApplied(ready), event),
{
    match event {
        Event::CoverArtApplied(Ok(_)) => {
            if crate::api::authorizes(&app) {
                let request = crate::api::update_queued_song::update_queued_song(&app, &ready.queued_song);
                (Service { app, phase: Phase::AwaitSongUpdate(ready) }, Action::Send(request, Reply::SongUpdate))
            } else {
                abort_now(app, Fault::InvalidToken)
            }
        },
        Event::CoverArtApplied(Err(_)) => go_to_sleep_now(app),
        _ => stay(app, Phase::AwaitCoverArtApplied(ready)),
    }
}

fn on_song_update(app: App, ready: Ready, event: Event) -> (res: (Service, Action))
    ensures
        (res.0, res.1@) == next(app, Phase::AwaitSongUpdate(ready), event),
{
    match event {
        Event::SongUpdated(Ok(_)) => {
            if crate::api::authorizes(&app) {
                let song_type = crate::parser::song_type();
                let request = crate::api::create_song::create(&app, &ready.metadata, &ready.job.user_id, &song_type);
                (Service { app, phase: Phase::AwaitSongCreated(ready) }, Action::Send(request, Reply::SongCreation))
            } else {
                abort_now(app, Fault::InvalidToken)
            }
        },
        Event::SongUpdated(Err(_)) => go_to_sleep_now(app),
        _ => stay(app, Phase::AwaitSongUpdate(ready)),
    }
}

fn on_song_created(app: App, ready: Ready, event: Event) -> (res: (Service, Action))
    ensures
        (res.0, res.1@) == next(app, Phase::AwaitSongCreated(ready), event),
{
    match event {
        Event::SongCreated(Ok(r)) => {
            let mut data = r.data;
            if data.len() == 0 {
                abort_now(app, Fault::EmptyAnswer)
            } else {
                let created = data.remove(0);
                let song = crate::parser::created_song(created, &ready.queued_song);
                if crate::api::authorizes(&app) {
                    let request = crate::api::create_coverart::create(&app, &song, &ready.queued_coverart);
                    (
                        Service { app, phase: Phase::AwaitCoverArtCreated(ready, song) },
                        Action::Send(request, Reply::CoverArtCreation),
                    )
                } else {
                    abort_now(app, Fault::InvalidToken)
                }
            }
        },
        Event::SongCreated(Err(_)) => go_to_sleep_now(app),
        _ => stay(app, Phase::AwaitSongCreated(ready)),
    }
}

fn on_coverart_created(app: App, ready: Ready, song: Song, event: Event) -> (res: (Service, Action))
    ensures
        (res.0, res.1@) == next(app, Phase::AwaitCoverArtCreated(ready, song), event),
{
    match event {
        Event::CoverArtCreated(Ok(r)) => {
            let mut data = r.data;
            if data.len() == 0 {
                abort_now(app, Fault::EmptyAnswer)
            } else {
                let created = data.remove(0);
                let coverart = crate::parser::created_coverart(created, &ready.queued_coverart);
                if crate::api::authorizes(&app) {
                    let request = crate::api::wipe_data::song_queue::wipe_data(&app, &ready.queued_song);
                    let finished = Finished { ready, song, coverart };
                    (
                        Service { app, phase: Phase::AwaitSongWipe(finished) },
                        Action::Send(request, Reply::SongWipe),
                    )
                } else {
                    abort_now(app, Fault::InvalidToken)
                }
            }
        },
        Event::CoverArtCreated(Err(_)) => go_to_sleep_now(app),
        _ => stay(app, Phase::AwaitCoverArtCreated(ready, song)),
    }
}

fn on_song_wipe(app: App, finished: Finished, event: Event) -> (res: (Service, Action))
    ensures
        (res.0, res.1@) == next(app, Phase::AwaitSongWipe(finished), event),
{
    match event {
        Event::SongWiped(Ok(_)) => {
            if crate::api::authorizes(&app) {
                let request = crate::api::wipe_data::coverart_queue::wipe_data(&app, &finished.ready.queued_coverart);
                (
                    Service { app, phase: Phase::AwaitCoverArtWipe(finished) },
                    Action::Send(request, Reply::CoverArtWipe),
                )
            } else {
                abort_now(app, Fault::InvalidToken)
            }
        },
        Event::SongWiped(Err(_)) => go_to_sleep_now(app),
        _ => stay(app, Phase::AwaitSongWipe(finished)),
    }
}

fn on_coverart_wipe(app: App, finished: Finished, event: Event) -> (res: (Service, Action))
    ensures
        (res.0, res.1@) == next(app, Phase::AwaitCoverArtWipe(finished), event),
{
    match event {
        Event::CoverArtWiped(Ok(_)) => (
            Service { app, phase: Phase::AwaitSongFileRemoval(finished.coverart) },
            Action::RemoveSongFile(finished.song),
        ),
        Event::CoverArtWiped(Err(_)) => go_to_sleep_now(app),
        _ => stay(app, Phase::AwaitCoverArtWipe(finished)),
    }
}

fn on_song_file_removal(app: App, coverart: CoverArt, event: Event) -> (res: (Service, Action))
    ensures
        (res.0, res.1@) == next(app, Phase::AwaitSongFileRemoval(coverart), event),
{
    match event {
        Event::FileDone(_) => (
            Service { app, phase: Phase::AwaitCoverArtFileRemoval },
            Action::RemoveCoverArtFile(coverart),
        ),
        _ => stay(app, Phase::AwaitSongFileRemoval(coverart)),
    }
}

fn on_coverart_file_removal(app: App, event: Event) -> (res: (Service, Action))
    ensures
        (res.0, res.1@) == next(app, Phase::AwaitCoverArtFileRemoval, event),
{
    match event {
        Event::FileDone(_) => go_to_sleep_now(app),
        _ => stay(app, Phase::AwaitCoverArtFileRemoval),
    }
}

fn on_sleeping(app: App, event: Event) -> (res: (Service, Action))
    ensures
        (res.0, res.1@) == next(app, Phase::Sleeping, event),
{
    match event {
        Event::Woke => check_token_now(app),
        _ => stay(app, Phase::Sleeping),
    }
}

} // verus!
