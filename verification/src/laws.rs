use vstd::prelude::*;

use crate::api::can_authorize;
use crate::api::fetch_next_queue_item::next_queue_item_request;
use crate::api::fetch_song_queue_data::song_queue_data_request;
use crate::ids::id_text;
use crate::metadata::{meta_value_of, metadata_kinds, MetaKind, MetaValueView};
use crate::request::{bearer_of, BodyView, Method};
use crate::service::{
    step_spec, ActionView, Event, Fault, Phase, Reply, Service, SECONDS_TO_SLEEP,
};

verus! {

/// `url` lies under `base`: it starts with it.
pub open spec fn under(url: Seq<char>, base: Seq<char>) -> bool {
    base.len() <= url.len() && url.subrange(0, base.len() as int) =~= base
}

pub broadcast proof fn lemma_under_concat(a: Seq<char>, b: Seq<char>)
    ensures
        #[trigger] under(a + b, a),
{
    assert((a + b).subrange(0, a.len() as int) =~= a);
}

pub broadcast proof fn lemma_under_concat3(a: Seq<char>, b: Seq<char>, c: Seq<char>)
    ensures
        #[trigger] under(a + b + c, a),
{
    assert((a + b + c).subrange(0, a.len() as int) =~= a);
}

/// A step never changes the base URLs nor the root directory.
pub proof fn law_configuration_is_kept(before: Service, event: Event, after: Service, action: ActionView)
    requires
        step_spec(before, event, after, action),
    ensures
        after.app.uri == before.app.uri,
        after.app.auth_uri == before.app.auth_uri,
        after.app.root_directory == before.app.root_directory,
{
}

/// The login changes only when the authentication service answers a login
/// or a refresh with at least one login, and then it becomes the first one.
pub proof fn law_token_changes_only_on_login(before: Service, event: Event, after: Service, action: ActionView)
    requires
        step_spec(before, event, after, action),
    ensures
        after.app.token == before.app.token || {
            ||| before.phase == Phase::AwaitLogin && (event matches Event::Login(Ok(r))
                && r.data@.len() > 0 && after.app.token == r.data@[0])
            ||| before.phase == Phase::AwaitRefresh && (event matches Event::Refresh(Ok(r))
                && r.data@.len() > 0 && after.app.token == r.data@[0])
        },
{
}

/// Every request to the music API goes under its base URL and carries
/// `Authorization: Bearer <token>` with the current token; every request to
/// the authentication service goes under its own base URL and carries no
/// `Authorization` header.
pub proof fn law_requests_carry_the_login(before: Service, event: Event, after: Service, action: ActionView)
    requires
        step_spec(before, event, after, action),
    ensures
        action matches ActionView::Send(request, reply) ==> {
            if reply == Reply::Login || reply == Reply::Refresh {
                &&& request.authorization is None
                &&& under(request.url, after.app.auth_uri@)
            } else {
                &&& request.authorization == bearer_of(after.app)
                &&& can_authorize(after.app)
                &&& under(request.url, after.app.uri@)
            }
        },
{
    broadcast use lemma_under_concat, lemma_under_concat3;

}

/// The failure that a service waiting in `phase` can be told of, in the
/// middle of a round: an error where an answer or a file operation was awaited.
pub open spec fn failure_in_round(phase: Phase, event: Event) -> bool {
    match phase {
        Phase::AwaitQueue => event matches Event::Queue(Err(_)),
        Phase::AwaitSongData(_) => event matches Event::Bytes(Err(_)),
        Phase::AwaitMetadata(_, _) => event matches Event::Metadata(Err(_)),
        Phase::AwaitCoverArtQueue(_) => event matches Event::CoverArtQueue(Err(_)),
        Phase::AwaitCoverArtData(_, _) => event matches Event::Bytes(Err(_)),
        Phase::AwaitTag(_, _) => event matches Event::FileDone(Err(_)),
        Phase::AwaitCoverArtCheck(_) => event matches Event::CoverArtPresence(Err(_)),
        Phase::AwaitCoverArtRemoval(_) => event matches Event::FileDone(Err(_)),
        Phase::AwaitCoverArtApplied(_) => event matches Event::CoverArtApplied(Err(_)),
        Phase::AwaitSongUpdate(_) => event matches Event::SongUpdated(Err(_)),
        Phase::AwaitSongCreated(_) => event matches Event::SongCreated(Err(_)),
        Phase::AwaitCoverArtCreated(_, _) => event matches Event::CoverArtCreated(Err(_)),
        Phase::AwaitSongWipe(_) => event matches Event::SongWiped(Err(_)),
        Phase::AwaitCoverArtWipe(_) => event matches Event::CoverArtWiped(Err(_)),
        _ => false,
    }
}

/// A failure in the middle of a round gives the round up: the service
/// sleeps, with its configuration and login unchanged.
pub proof fn law_failure_ends_the_round(before: Service, event: Event, after: Service, action: ActionView)
    requires
        step_spec(before, event, after, action),
        failure_in_round(before.phase, event),
    ensures
        after == (Service { app: before.app, phase: Phase::Sleeping }),
        action == ActionView::Sleep(SECONDS_TO_SLEEP),
{
}

/// A failed refresh (an error, or an answer without a login) goes straight
/// back to the token check, without sleeping.
pub proof fn law_failed_refresh_retries_at_once(before: Service, event: Event, after: Service, action: ActionView)
    requires
        step_spec(before, event, after, action),
        before.phase == Phase::AwaitRefresh,
        event matches Event::Refresh(answer) && (answer is Err || (answer matches Ok(r) && r.data@.len() == 0)),
    ensures
        after == (Service { app: before.app, phase: Phase::AwaitClock }),
        action == ActionView::ReadClock,
{
}

/// A failed service login (an error, or an answer without a login) stops
/// the service with exit code -1.
pub proof fn law_failed_login_stops(before: Service, event: Event, after: Service, action: ActionView)
    requires
        step_spec(before, event, after, action),
        before.phase == Phase::AwaitLogin,
        event matches Event::Login(answer) && (answer is Err || (answer matches Ok(r) && r.data@.len() == 0)),
    ensures
        after.phase == Phase::Stopped,
        action == ActionView::Exit(-1i32),
{
}

/// The token is checked before every look at the queue: after a login, and
/// after every sleep, the service asks for the time; an expired token is
/// refreshed, a valid one leads to the queue.
pub proof fn law_token_checked_before_queue(before: Service, event: Event, after: Service, action: ActionView)
    requires
        step_spec(before, event, after, action),
    ensures
        (before.phase == Phase::Sleeping && event is Woke) ==> action == ActionView::ReadClock,
        event matches Event::Clock(now) ==> before.phase == Phase::AwaitClock ==> {
            if before.app.token.expired_at(now as int) {
                action matches ActionView::Send(_, reply) && reply == Reply::Refresh
            } else if can_authorize(before.app) {
                action == ActionView::Send(next_queue_item_request(before.app), Reply::NextQueueItem)
            } else {
                action == ActionView::Abort(Fault::InvalidToken)
            }
        },
{
}

/// An empty queue ends the round; otherwise the file of its first item is
/// fetched, for the user who queued it.
pub proof fn law_queue_answer(before: Service, event: Event, after: Service, action: ActionView)
    requires
        step_spec(before, event, after, action),
        before.phase == Phase::AwaitQueue,
        can_authorize(before.app),
        event matches Event::Queue(Ok(item)),
    ensures
        event matches Event::Queue(Ok(item)) && if item.data@.len() == 0 {
            action == ActionView::Sleep(SECONDS_TO_SLEEP)
        } else {
            &&& action == ActionView::Send(song_queue_data_request(before.app, item.data@[0].id), Reply::SongData)
            &&& after.phase matches Phase::AwaitSongData(job)
            &&& job.song_queue_id == item.data@[0].id
            &&& job.user_id == item.data@[0].user_id
        },
{
}

/// What holds of every state the service can be in: the tag index stays
/// within the tags, the queued song of a round is the round's queue item or
/// the empty queued song, and the created records are kept where the queued
/// files were saved.
pub open spec fn consistent(s: Service) -> bool {
    match s.phase {
        Phase::AwaitMetadata(job, queued_song) => queued_song.id == job.song_queue_id || queued_song.is_empty(),
        Phase::AwaitCoverArtQueue(p) => p.queued_song.id == p.job.song_queue_id || p.queued_song.is_empty(),
        Phase::AwaitCoverArtData(p, _) => p.queued_song.id == p.job.song_queue_id || p.queued_song.is_empty(),
        Phase::AwaitCoverArtSaved(p, _) => p.queued_song.id == p.job.song_queue_id || p.queued_song.is_empty(),
        Phase::AwaitTag(r, index) => {
            &&& index < metadata_kinds().len()
            &&& r.queued_song.id == r.job.song_queue_id || r.queued_song.is_empty()
        },
        Phase::AwaitCoverArtCheck(r) => r.queued_song.id == r.job.song_queue_id || r.queued_song.is_empty(),
        Phase::AwaitCoverArtRemoval(r) => r.queued_song.id == r.job.song_queue_id || r.queued_song.is_empty(),
        Phase::AwaitCoverArtApplied(r) => r.queued_song.id == r.job.song_queue_id || r.queued_song.is_empty(),
        Phase::AwaitSongUpdate(r) => r.queued_song.id == r.job.song_queue_id || r.queued_song.is_empty(),
        Phase::AwaitSongCreated(r) => r.queued_song.id == r.job.song_queue_id || r.queued_song.is_empty(),
        Phase::AwaitCoverArtCreated(r, song) => {
            &&& r.queued_song.id == r.job.song_queue_id || r.queued_song.is_empty()
            &&& song.directory == r.queued_song.song.directory
            &&& song.filename == r.queued_song.song.filename
        },
        Phase::AwaitSongWipe(f) => {
            &&& f.ready.queued_song.id == f.ready.job.song_queue_id || f.ready.queued_song.is_empty()
            &&& f.song.directory == f.ready.queued_song.song.directory
            &&& f.song.filename == f.ready.queued_song.song.filename
            &&& f.coverart.directory == f.ready.queued_coverart.coverart.directory
            &&& f.coverart.filename == f.ready.queued_coverart.coverart.filename
        },
        Phase::AwaitCoverArtWipe(f) => {
            &&& f.ready.queued_song.id == f.ready.job.song_queue_id || f.ready.queued_song.is_empty()
            &&& f.song.directory == f.ready.queued_song.song.directory
            &&& f.song.filename == f.ready.queued_song.song.filename
            &&& f.coverart.directory == f.ready.queued_coverart.coverart.directory
            &&& f.coverart.filename == f.ready.queued_coverart.coverart.filename
        },
        _ => true,
    }
}

/// A newly started service is consistent.
pub proof fn law_start_is_consistent(s: Service)
    requires
        s.phase == Phase::AwaitLogin,
    ensures
        consistent(s),
{
}

/// Every step keeps the service consistent.
pub proof fn law_step_keeps_consistency(before: Service, event: Event, after: Service, action: ActionView)
    requires
        consistent(before),
        step_spec(before, event, after, action),
    ensures
        consistent(after),
{
}

/// Tags are written one after the other, in order, each with the value the
/// metadata gives it; after the last one the song file is checked for a
/// cover art.
pub proof fn law_tags_in_order(before: Service, event: Event, after: Service, action: ActionView)
    requires
        consistent(before),
        step_spec(before, event, after, action),
        before.phase matches Phase::AwaitTag(_, _),
        event matches Event::FileDone(Ok(_)),
    ensures
        before.phase matches Phase::AwaitTag(ready, index) && if index + 1 < metadata_kinds().len() {
            &&& after.phase == Phase::AwaitTag(ready, (index + 1) as usize)
            &&& action == ActionView::WriteTag(
                ready.queued_song.path@,
                metadata_kinds()[index + 1],
                meta_value_of(metadata_kinds()[index + 1], ready.metadata),
            )
        } else {
            action == ActionView::CheckCoverArt(ready.queued_song.path@)
        },
{
}

/// The files removed at the end of a round are the song and cover art
/// records just created, kept where the round's queued files were saved.
pub proof fn law_cleanup_removes_the_round_files(before: Service, event: Event, after: Service, action: ActionView)
    requires
        consistent(before),
        step_spec(before, event, after, action),
    ensures
        action matches ActionView::RemoveSongFile(song) ==> {
            before.phase matches Phase::AwaitCoverArtWipe(f) && {
                &&& song == f.song
                &&& song.directory == f.ready.queued_song.song.directory
                &&& song.filename == f.ready.queued_song.song.filename
                &&& after.phase == Phase::AwaitSongFileRemoval(f.coverart)
            }
        },
{
}

/// The service stops abnormally only where there is cause: a token that
/// cannot be sent, an answer without the record it must hold, or an event
/// that was not awaited (which leaves the service as it was).
pub proof fn law_aborts_have_a_cause(before: Service, event: Event, after: Service, action: ActionView)
    requires
        step_spec(before, event, after, action),
    ensures
        action == ActionView::Abort(Fault::InvalidToken) ==> !can_authorize(after.app),
        action == ActionView::Abort(Fault::UnexpectedEvent) ==> after == before,
        action == ActionView::Abort(Fault::EmptyAnswer) ==> {
            ||| event matches Event::Metadata(Ok(r)) && r.data@.len() == 0
            ||| event matches Event::CoverArtQueue(Ok(r)) && r.data@.len() == 0
            ||| event matches Event::SongCreated(Ok(r)) && r.data@.len() == 0
            ||| event matches Event::CoverArtCreated(Ok(r)) && r.data@.len() == 0
        },
{
}

/// After a round given up on a failure, waking up leads back to the token
/// check, with the same configuration and login.
pub proof fn law_round_restarts_after_failure(
    s0: Service,
    e0: Event,
    s1: Service,
    a1: ActionView,
    s2: Service,
    a2: ActionView,
)
    requires
        step_spec(s0, e0, s1, a1),
        failure_in_round(s0.phase, e0),
        step_spec(s1, Event::Woke, s2, a2),
    ensures
        a2 == ActionView::ReadClock,
        s2 == (Service { app: s0.app, phase: Phase::AwaitClock }),
{
}

/// A stopped service stays stopped: whatever it is told, it does nothing
/// but report the event as unexpected.
pub proof fn law_stopped_is_final(before: Service, event: Event, after: Service, action: ActionView)
    requires
        before.phase == Phase::Stopped,
        step_spec(before, event, after, action),
    ensures
        after == before,
        action == ActionView::Abort(Fault::UnexpectedEvent),
{
}

/// The cover art is written into the song file whether or not the song file
/// already held a picture: without one it is written at once, with one the
/// old picture is removed first and, once removed, the new one is written.
/// Either way the picture written is the queued cover art file, into the
/// queued song file.
pub proof fn law_coverart_is_always_set(before: Service, event: Event, after: Service, action: ActionView)
    requires
        step_spec(before, event, after, action),
    ensures
        before.phase matches Phase::AwaitCoverArtCheck(ready) ==> (event matches Event::CoverArtPresence(Ok(present)) ==> if present {
            &&& after.phase == Phase::AwaitCoverArtRemoval(ready)
            &&& action == ActionView::RemoveCoverArt(ready.queued_song.path@)
        } else {
            &&& after.phase == Phase::AwaitCoverArtApplied(ready)
            &&& action == ActionView::SetCoverArt(ready.queued_song.path@, ready.queued_coverart.path@)
        }),
        before.phase matches Phase::AwaitCoverArtRemoval(ready) ==> (event matches Event::FileDone(Ok(_)) ==> {
            &&& after.phase == Phase::AwaitCoverArtApplied(ready)
            &&& action == ActionView::SetCoverArt(ready.queued_song.path@, ready.queued_coverart.path@)
        }),
{
}

/// The edited song is uploaded only once the cover art has been written into
/// it: the upload is sent only from a service that waited for the cover art
/// and was told it was written. The upload is `PATCH <uri>/api/v2/song/queue/<id>`
/// for the queued song's queue item, and its one file part is the queued
/// song's own file, sent as `track01.flac` under the field `file`.
pub proof fn law_upload_follows_coverart_and_sends_the_song(
    before: Service,
    event: Event,
    after: Service,
    action: ActionView,
)
    requires
        step_spec(before, event, after, action),
    ensures
        action matches ActionView::Send(request, reply) ==> (reply == Reply::SongUpdate ==> {
            &&& event matches Event::CoverArtApplied(Ok(_))
            &&& before.phase matches Phase::AwaitCoverArtApplied(ready)
            &&& after.phase == Phase::AwaitSongUpdate(ready)
            &&& request.method == Method::Patch
            &&& request.url == before.app.uri@ + "/api/v2/song/queue/"@ + id_text(ready.queued_song.id)
            &&& request.body == BodyView::Multipart {
                field: "file"@,
                path: ready.queued_song.path@,
                file_name: "track01.flac"@,
            }
        }),
{
}

/// Every tag written carries, for its kind, the matching field of the
/// queued metadata: the album for the album, the album artist for the album
/// artist, the artist for the artist, the year in decimal for the date, and
/// the disc, track and count numbers for theirs; and it is written into the
/// queued song file. The first tag, written as soon as the cover art file is
/// saved, is the album.
pub proof fn law_tags_carry_their_own_field(before: Service, event: Event, after: Service, action: ActionView)
    requires
        step_spec(before, event, after, action),
    ensures
        action matches ActionView::WriteTag(path, kind, value) ==> {
            after.phase matches Phase::AwaitTag(ready, _) && {
                let m = ready.metadata;
                &&& path == ready.queued_song.path@
                &&& kind == MetaKind::Album ==> value == MetaValueView::Text(m.album@)
                &&& kind == MetaKind::AlbumArtist ==> value == MetaValueView::Text(m.album_artist@)
                &&& kind == MetaKind::Artist ==> value == MetaValueView::Text(m.artist@)
                &&& kind == MetaKind::Date ==> value == MetaValueView::Text(crate::text::decimal_text(m.year as int))
                &&& kind == MetaKind::Disc ==> value == MetaValueView::Number(m.disc)
                &&& kind == MetaKind::Genre ==> value == MetaValueView::Text(m.genre@)
                &&& kind == MetaKind::Title ==> value == MetaValueView::Text(m.title@)
                &&& kind == MetaKind::Track ==> value == MetaValueView::Number(m.track)
                &&& kind == MetaKind::TrackCount ==> value == MetaValueView::Number(m.track_count)
                &&& kind == MetaKind::DiscCount ==> value == MetaValueView::Number(m.disc_count)
            }
        },
        before.phase matches Phase::AwaitCoverArtSaved(prepared, _) ==> (event matches Event::CoverArtSaved { .. } ==> {
            &&& after.phase matches Phase::AwaitTag(_, index) && index == 0
            &&& action == ActionView::WriteTag(
                prepared.queued_song.path@,
                MetaKind::Album,
                MetaValueView::Text(prepared.metadata.album@),
            )
        }),
{
}

/// The cover art asked for, once the metadata has arrived, is the one queued
/// with the round's queued song: the query names the queued song's queue item,
/// whatever ids the metadata answer holds; for a song that was saved, that is
/// the item taken from the song queue.
pub proof fn law_coverart_asked_for_the_queued_song(before: Service, event: Event, after: Service, action: ActionView)
    requires
        step_spec(before, event, after, action),
        can_authorize(before.app),
    ensures
        before.phase matches Phase::AwaitMetadata(job, queued_song) ==> (event matches Event::Metadata(Ok(r)) ==> (r.data@.len() > 0 ==> {
            &&& action matches ActionView::Send(request, reply) && {
                &&& reply == Reply::CoverArtQueue
                &&& request.method == Method::Get
                &&& request.url == before.app.uri@ + "/api/v2/coverart/queue"@
                &&& request.query == seq![("song_queue_id"@, id_text(queued_song.id))]
                &&& consistent(before) && !queued_song.is_empty() ==> request.query == seq![("song_queue_id"@, id_text(job.song_queue_id))]
            }
            &&& after.phase matches Phase::AwaitCoverArtQueue(p) && p.queued_song == queued_song && p.job == job
        })),
{
}

/// Cleanup removes both files of the round, whatever becomes of the first
/// removal: once both queues are wiped, the song file is removed, and then,
/// whether that removal went through or not, the cover art file is removed.
pub proof fn law_cleanup_removes_both_files(
    s0: Service,
    e0: Event,
    s1: Service,
    a1: ActionView,
    e1: Event,
    s2: Service,
    a2: ActionView,
)
    requires
        step_spec(s0, e0, s1, a1),
        s0.phase matches Phase::AwaitCoverArtWipe(_),
        e0 matches Event::CoverArtWiped(Ok(_)),
        step_spec(s1, e1, s2, a2),
        e1 matches Event::FileDone(_),
    ensures
        s0.phase matches Phase::AwaitCoverArtWipe(f) && {
            &&& a1 == ActionView::RemoveSongFile(f.song)
            &&& a2 == ActionView::RemoveCoverArtFile(f.coverart)
            &&& s2.phase == Phase::AwaitCoverArtFileRemoval
        },
{
}

/// While the song file is being removed, any outcome of that removal leads
/// to the removal of the cover art file held for it.
pub proof fn law_song_removal_leads_to_coverart_removal(before: Service, event: Event, after: Service, action: ActionView)
    requires
        step_spec(before, event, after, action),
        event matches Event::FileDone(_),
    ensures
        before.phase matches Phase::AwaitSongFileRemoval(coverart) ==> {
            &&& after.phase == Phase::AwaitCoverArtFileRemoval
            &&& action == ActionView::RemoveCoverArtFile(coverart)
        },
{
}

} // verus!
