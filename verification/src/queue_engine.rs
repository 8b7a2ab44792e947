//! The native queue's playback engine, as decisions: which events the queue
//! takes, what to do with the next queued item, which output device to use,
//! and how to resume the suspended context once the queue drains.
//!
//! Opening devices, downloading and decoding happen outside; the functions
//! here say what to do and update the interface state.

use vstd::prelude::*;

use crate::album_tracks::requested_one;
use crate::app::{nothing_changes, only_changes, App, AppRequest, Changes, IoEvent};
use crate::queue::{
    available_in, label_of, queue_item_source, source_available, source_label, source_of_uri,
    BuildFeatures, QueueItemSource, SuspendedContext,
};
use crate::text::{concat, push_str};
use crate::track::{same_track, same_tracks, TrackInfo};

verus! {

// ---------------------------------------------------------------------------
// Routing
// ---------------------------------------------------------------------------

/// What the queue does with a playback event.
#[derive(Debug, Clone, Copy, PartialEq, Eq, Structural)]
pub enum QueueRoute {
    /// Play the next queued item.
    Advance,
    Pause,
    Seek(u32),
    Volume(u8),
    /// Skip the queued track: advance to the next queued item.
    SkipQueued,
    /// A forward-only queue has no "previous": restart the queued track.
    RestartQueued,
    /// A new playback starts: drop the queue slot (keeping the queued items),
    /// then let the event through.
    ClearSlotThenPass,
    /// Not the queue's event.
    Pass,
}

/// What the queue does with `e` when a decoded queued track does (`slot`)
/// or does not own the output. Every start, a bare resume included, drops
/// the queue slot and passes on, so the per-source starts run on a clean
/// slot.
pub open spec fn queue_route_of(e: IoEvent, slot: bool) -> QueueRoute {
    match e {
        IoEvent::AdvanceNativeQueue => QueueRoute::Advance,
        IoEvent::PausePlayback => if slot {
            QueueRoute::Pause
        } else {
            QueueRoute::Pass
        },
        IoEvent::StartPlayback(_, _, _) => QueueRoute::ClearSlotThenPass,
        IoEvent::Seek(ms) => if slot {
            QueueRoute::Seek(ms)
        } else {
            QueueRoute::Pass
        },
        IoEvent::ChangeVolume(v) => if slot {
            QueueRoute::Volume(v)
        } else {
            QueueRoute::Pass
        },
        IoEvent::NextTrack => if slot {
            QueueRoute::SkipQueued
        } else {
            QueueRoute::Pass
        },
        IoEvent::PreviousTrack | IoEvent::ForcePreviousTrack => if slot {
            QueueRoute::RestartQueued
        } else {
            QueueRoute::Pass
        },
        _ => QueueRoute::Pass,
    }
}

/// Decide what the queue does with `event`, given whether a decoded queued
/// track owns the output.
pub fn queue_route(event: &IoEvent, slot: bool) -> (r: QueueRoute)
    ensures
        r == queue_route_of(*event, slot),
{
    match event {
        IoEvent::AdvanceNativeQueue => QueueRoute::Advance,
        IoEvent::PausePlayback => if slot {
            QueueRoute::Pause
        } else {
            QueueRoute::Pass
        },
        IoEvent::StartPlayback(_, _, _) => QueueRoute::ClearSlotThenPass,
        IoEvent::Seek(ms) => if slot {
            QueueRoute::Seek(*ms)
        } else {
            QueueRoute::Pass
        },
        IoEvent::ChangeVolume(v) => if slot {
            QueueRoute::Volume(*v)
        } else {
            QueueRoute::Pass
        },
        IoEvent::NextTrack => if slot {
            QueueRoute::SkipQueued
        } else {
            QueueRoute::Pass
        },
        IoEvent::PreviousTrack | IoEvent::ForcePreviousTrack => if slot {
            QueueRoute::RestartQueued
        } else {
            QueueRoute::Pass
        },
        _ => QueueRoute::Pass,
    }
}

// ---------------------------------------------------------------------------
// Advancing
// ---------------------------------------------------------------------------

/// Take the head of the native queue, if any.
pub fn take_queue_head(app: &mut App) -> (r: Option<TrackInfo>)
    ensures
        old(app).native_queue@.len() == 0 ==> r is None && final(app).native_queue@ == old(
            app,
        ).native_queue@,
        old(app).native_queue@.len() > 0 ==> r == Some(old(app).native_queue@[0])
            && final(app).native_queue@ == old(app).native_queue@.drop_first(),
        final(app).queue_selected_index == old(app).queue_selected_index,
        only_changes(*old(app), *final(app), Changes { queue: true, ..nothing_changes() }),
{
    if app.native_queue.len() == 0 {
        None
    } else {
        let head = app.native_queue.remove(0);
        assert(app.native_queue@ =~= old(app).native_queue@.drop_first());
        Some(head)
    }
}

/// What to do with a queued item.
#[derive(Debug, Clone, PartialEq)]
pub enum QueuedPlan {
    /// Skip it, telling the user why.
    Skip(String),
    /// Play `uri` through `source`.
    Play(QueueItemSource, String),
}

/// The message for an item without a uri.
pub open spec fn no_uri_message() -> Seq<char> {
    "Skipped a queued track with no URI"@
}

/// The message for an item whose source this build cannot play.
pub open spec fn unavailable_message(source: QueueItemSource) -> Seq<char> {
    label_of(source) + " playback isn't available in this build"@
}

/// The plan for a queued item: skip it without a uri or when its source is
/// not in this build; otherwise play its uri through its source.
pub open spec fn queued_plan_ok(p: QueuedPlan, t: TrackInfo, features: BuildFeatures) -> bool {
    match t.uri {
        None => p matches QueuedPlan::Skip(m) && m@ == no_uri_message(),
        Some(u) => {
            let s = source_of_uri(u@);
            if available_in(s, features) {
                p == QueuedPlan::Play(s, u)
            } else {
                p matches QueuedPlan::Skip(m) && m@ == unavailable_message(s)
            }
        },
    }
}

/// Plan what to do with a queued item in a build with `features`.
pub fn plan_queued_item(track: &TrackInfo, features: BuildFeatures) -> (p: QueuedPlan)
    ensures
        queued_plan_ok(p, *track, features),
{
    match &track.uri {
        None => QueuedPlan::Skip("Skipped a queued track with no URI".to_owned()),
        Some(uri) => {
            let source = queue_item_source(uri.as_str());
            if source_available(source, features) {
                QueuedPlan::Play(source, uri.clone())
            } else {
                QueuedPlan::Skip(concat(source_label(source), " playback isn't available in this build"))
            }
        },
    }
}

/// Which output device the queue slot uses.
#[derive(Debug, Clone, Copy, PartialEq, Eq, Structural)]
pub enum PlayerChoice {
    /// Keep the slot's own player (advancing within the queue).
    ReuseSlot,
    /// Reuse the suspended decoded context's player (no device hand-off).
    ReuseSuspended,
    /// Pause native Spotify and open a fresh device.
    OpenFresh,
}

/// The queue slot's player by priority: the slot's own, the suspended
/// context's, a fresh one.
pub open spec fn player_choice(slot_player: bool, suspended_player: bool) -> PlayerChoice {
    if slot_player {
        PlayerChoice::ReuseSlot
    } else if suspended_player {
        PlayerChoice::ReuseSuspended
    } else {
        PlayerChoice::OpenFresh
    }
}

/// Choose the queue slot's player, in priority order: the slot's own, the
/// suspended context's, a fresh one.
pub fn choose_queue_player(slot_player: bool, suspended_player: bool) -> (c: PlayerChoice)
    ensures
        c == player_choice(slot_player, suspended_player),
{
    if slot_player {
        PlayerChoice::ReuseSlot
    } else if suspended_player {
        PlayerChoice::ReuseSuspended
    } else {
        PlayerChoice::OpenFresh
    }
}

/// Drop the queue slot when a new playback starts: the queue no longer owns
/// the output and no suspended context is kept; the queued items stay.
/// Returns whether a queued track owned the output (its player is then to
/// be stopped).
pub fn release_queue_slot(app: &mut App) -> (had_slot: bool)
    ensures
        had_slot == old(app).queue_owns_playback,
        !final(app).queue_owns_playback,
        final(app).queue_suspended is None,
        only_changes(*old(app), *final(app), Changes { slot: true, ..nothing_changes() }),
{
    let had_slot = app.queue_owns_playback;
    app.queue_owns_playback = false;
    app.queue_suspended = None;
    had_slot
}

/// A queued track now plays: the queue owns the output.
pub fn claim_queue_slot(app: &mut App)
    ensures
        final(app).queue_owns_playback,
        final(app).queue_suspended == old(app).queue_suspended,
        only_changes(*old(app), *final(app), Changes { slot: true, ..nothing_changes() }),
{
    app.queue_owns_playback = true;
}

// ---------------------------------------------------------------------------
// Resuming
// ---------------------------------------------------------------------------

/// Which decoded source a context belongs to.
#[derive(Debug, Clone, Copy, PartialEq, Eq, Structural)]
pub enum DecodedSource {
    Local,
    Subsonic,
    YouTube,
}

/// What to do once the queue drains.
#[derive(Debug, Clone, PartialEq)]
pub enum ResumePlan {
    /// Nothing was suspended: stop the slot.
    Finish,
    /// The context was exhausted: tear it down and stop the slot.
    TeardownContext(DecodedSource),
    /// Resume a decoded context at a track and position.
    ResumeContext(DecodedSource, usize, u64),
    /// Reconnect to a radio station (stop the slot first).
    RestartRadio(TrackInfo),
    /// Reload a Spotify context at the resume track (stop the slot first).
    ResumeSpotify(Option<String>, Option<String>),
}

/// The plan for a suspended context.
pub open spec fn resume_plan_ok(p: ResumePlan, s: Option<SuspendedContext>) -> bool {
    match s {
        None => p == ResumePlan::Finish,
        Some(SuspendedContext::Local { resume_index, resume_position_ms }) => match resume_index {
            None => p == ResumePlan::TeardownContext(DecodedSource::Local),
            Some(i) => p == ResumePlan::ResumeContext(DecodedSource::Local, i, resume_position_ms),
        },
        Some(SuspendedContext::Subsonic { resume_index, resume_position_ms }) => match resume_index {
            None => p == ResumePlan::TeardownContext(DecodedSource::Subsonic),
            Some(i) => p == ResumePlan::ResumeContext(DecodedSource::Subsonic, i, resume_position_ms),
        },
        Some(SuspendedContext::YouTube { resume_index, resume_position_ms }) => match resume_index {
            None => p == ResumePlan::TeardownContext(DecodedSource::YouTube),
            Some(i) => p == ResumePlan::ResumeContext(DecodedSource::YouTube, i, resume_position_ms),
        },
        Some(SuspendedContext::Radio { station }) => p matches ResumePlan::RestartRadio(t)
            && same_track(t, station),
        Some(SuspendedContext::Spotify { context_uri, resume_track_uri }) => p
            == ResumePlan::ResumeSpotify(context_uri, resume_track_uri),
    }
}

/// Plan the resume of the suspended context once the queue drains.
pub fn plan_resume(suspended: Option<SuspendedContext>) -> (p: ResumePlan)
    ensures
        resume_plan_ok(p, suspended),
{
    match suspended {
        None => ResumePlan::Finish,
        Some(SuspendedContext::Local { resume_index, resume_position_ms }) => match resume_index {
            None => ResumePlan::TeardownContext(DecodedSource::Local),
            Some(i) => ResumePlan::ResumeContext(DecodedSource::Local, i, resume_position_ms),
        },
        Some(SuspendedContext::Subsonic { resume_index, resume_position_ms }) => match resume_index {
            None => ResumePlan::TeardownContext(DecodedSource::Subsonic),
            Some(i) => ResumePlan::ResumeContext(DecodedSource::Subsonic, i, resume_position_ms),
        },
        Some(SuspendedContext::YouTube { resume_index, resume_position_ms }) => match resume_index {
            None => ResumePlan::TeardownContext(DecodedSource::YouTube),
            Some(i) => ResumePlan::ResumeContext(DecodedSource::YouTube, i, resume_position_ms),
        },
        Some(SuspendedContext::Radio { station }) => ResumePlan::RestartRadio(station),
        Some(SuspendedContext::Spotify { context_uri, resume_track_uri }) => ResumePlan::ResumeSpotify(
            context_uri,
            resume_track_uri,
        ),
    }
}

/// How a downloaded context (Subsonic, YouTube) resumes at `index`.
#[derive(Debug, Clone, Copy, PartialEq, Eq, Structural)]
pub enum ContextResume {
    /// The same track's download is still held: replay it and seek.
    Replay,
    /// Move the context to `index` and play it anew.
    PlayIndex(usize),
}

/// How a context resumes at `index` given its live position.
pub open spec fn context_resume_of(index: usize, live_index: Option<usize>) -> ContextResume {
    if live_index == Some(index) {
        ContextResume::Replay
    } else {
        ContextResume::PlayIndex(index)
    }
}

/// Resume at `index` a context whose live position is `live_index` (when
/// its session still exists): the held download is replayed when the index
/// is unchanged.
pub fn plan_context_resume(index: usize, live_index: Option<usize>) -> (r: ContextResume)
    ensures
        r == context_resume_of(index, live_index),
{
    match live_index {
        Some(i) => if i == index {
            ContextResume::Replay
        } else {
            ContextResume::PlayIndex(index)
        },
        None => ContextResume::PlayIndex(index),
    }
}

/// Reconnect to a radio station after the queue: seed the track table with
/// the station (so the start resolves it) and start playing its uri. A
/// station without a uri cannot be reconnected.
pub fn resume_radio(app: &mut App, station: TrackInfo)
    ensures
        match station.uri {
            Some(u) => {
                &&& same_tracks(final(app).track_table.tracks@, seq![station])
                &&& final(app).track_table.selected_index == old(app).track_table.selected_index
                &&& final(app).track_table.context == old(app).track_table.context
                &&& final(app).dispatched@ == old(app).dispatched@.push(
                    IoEvent::StartPlayback(Some(u), None, None),
                )
                &&& only_changes(
                    *old(app),
                    *final(app),
                    Changes { track_table: true, dispatched: true, ..nothing_changes() },
                )
            },
            None => only_changes(*old(app), *final(app), nothing_changes()),
        },
{
    if let Some(uri) = station.uri.clone() {
        let mut rows: Vec<TrackInfo> = Vec::new();
        rows.push(station);
        app.track_table.tracks = rows;
        app.dispatch(IoEvent::StartPlayback(Some(uri), None, None));
    }
}

/// Reload a Spotify context after the queue.
pub fn resume_spotify(app: &mut App, context_uri: Option<String>, resume_track_uri: Option<String>)
    ensures
        final(app).dispatched@ == old(app).dispatched@.push(
            IoEvent::ResumeSpotifyContext(context_uri, resume_track_uri),
        ),
        only_changes(*old(app), *final(app), Changes { dispatched: true, ..nothing_changes() }),
{
    app.dispatch(IoEvent::ResumeSpotifyContext(context_uri, resume_track_uri));
}

/// Whether the queue slot's player is stopped once the queue drains under
/// `plan`. A resumed Subsonic or YouTube context reloads the sink it shares
/// with the slot, and a resumed local context keeps the slot's player when it
/// is the context's own (`shared`); every other outcome stops it.
pub open spec fn stops_slot_player(plan: ResumePlan, shared: bool) -> bool {
    match plan {
        ResumePlan::ResumeContext(DecodedSource::Local, _, _) => !shared,
        ResumePlan::ResumeContext(_, _, _) => false,
        _ => true,
    }
}

/// Decide whether the queue slot's player is stopped under `plan`.
pub fn slot_player_stops(plan: &ResumePlan, shared: bool) -> (r: bool)
    ensures
        r == stops_slot_player(*plan, shared),
{
    match plan {
        ResumePlan::ResumeContext(DecodedSource::Local, _, _) => !shared,
        ResumePlan::ResumeContext(_, _, _) => false,
        _ => true,
    }
}

/// The note shown when the queue drains with nothing to resume.
pub open spec fn queue_finished_message() -> Seq<char> {
    "Queue finished"@
}

/// The state changes, from `a` to `b`, once the queue drained under `plan`
/// (besides the slot itself). `slot_player` says whether a decoded queued
/// track still owned the output.
pub open spec fn drained_effect(a: App, b: App, plan: ResumePlan, slot_player: bool) -> bool {
    match plan {
        ResumePlan::Finish => if slot_player {
            &&& requested_one(
                a,
                b,
                |r: AppRequest|
                    r matches AppRequest::StatusMessage(m, secs) && m@ == queue_finished_message()
                        && secs == 3,
            )
            &&& only_changes(a, b, Changes { slot: true, requests: true, ..nothing_changes() })
        } else {
            only_changes(a, b, Changes { slot: true, ..nothing_changes() })
        },
        ResumePlan::RestartRadio(station) => match station.uri {
            Some(u) => {
                &&& same_tracks(b.track_table.tracks@, seq![station])
                &&& b.track_table.selected_index == a.track_table.selected_index
                &&& b.track_table.context == a.track_table.context
                &&& b.dispatched@ == a.dispatched@.push(IoEvent::StartPlayback(Some(u), None, None))
                &&& only_changes(
                    a,
                    b,
                    Changes { slot: true, track_table: true, dispatched: true, ..nothing_changes() },
                )
            },
            None => only_changes(a, b, Changes { slot: true, ..nothing_changes() }),
        },
        ResumePlan::ResumeSpotify(context_uri, resume_track_uri) => {
            &&& b.dispatched@ == a.dispatched@.push(
                IoEvent::ResumeSpotifyContext(context_uri, resume_track_uri),
            )
            &&& only_changes(a, b, Changes { slot: true, dispatched: true, ..nothing_changes() })
        },
        _ => only_changes(a, b, Changes { slot: true, ..nothing_changes() }),
    }
}

/// The queue has drained: give up the slot, take the suspended context and
/// resume it, or finish. A radio station is reconnected and a Spotify
/// context reloaded here; a decoded context is resumed or torn down by the
/// caller as the returned plan says. With nothing suspended, the user is
/// told the queue finished when a queued track still owned the output
/// (`slot_player`).
pub fn resume_or_finish(app: &mut App, slot_player: bool) -> (plan: ResumePlan)
    ensures
        resume_plan_ok(plan, old(app).queue_suspended),
        final(app).queue_suspended is None,
        !final(app).queue_owns_playback,
        drained_effect(*old(app), *final(app), plan, slot_player),
{
    let suspended = app.queue_suspended.take();
    app.queue_owns_playback = false;
    let plan = plan_resume(suspended);
    match &plan {
        ResumePlan::Finish => {
            if slot_player {
                let msg = "Queue finished".to_owned();
                proof {
                    reveal_strlit("Queue finished");
                    assert(msg@ =~= queue_finished_message());
                }
                app.request(AppRequest::StatusMessage(msg, 3));
                assert(app.requests@.drop_last() =~= old(app).requests@);
            }
        },
        ResumePlan::RestartRadio(station) => {
            let copy = station.duplicate();
            resume_radio(app, copy);
            proof {
                if station.uri is Some {
                    assert(same_track(app.track_table.tracks@[0], *station));
                }
            }
        },
        ResumePlan::ResumeSpotify(context_uri, resume_track_uri) => {
            resume_spotify(app, context_uri.clone(), resume_track_uri.clone());
        },
        _ => {},
    }
    plan
}

// ---------------------------------------------------------------------------
// Laws
// ---------------------------------------------------------------------------

/// An explicit new playback takes the output back from the queue: every
/// start drops the slot (the queued items stay) and lets the start through.
pub proof fn law_new_playback_releases_the_queue_slot(
    ctx: Option<String>,
    list: Option<Vec<String>>,
    off: Option<usize>,
    slot: bool,
)
    ensures
        queue_route_of(IoEvent::StartPlayback(ctx, list, off), slot) == QueueRoute::ClearSlotThenPass,
{
}

/// A queued item is played only through a source this build carries, and
/// always through the source its uri names.
pub proof fn law_items_play_only_through_available_sources(
    p: QueuedPlan,
    t: TrackInfo,
    features: BuildFeatures,
)
    requires
        queued_plan_ok(p, t, features),
    ensures
        p matches QueuedPlan::Play(s, u) ==> available_in(s, features) && t.uri == Some(u) && s
            == source_of_uri(u@),
{
}

/// While a decoded queued track owns the output, the queue takes every
/// transport control for its own player: pause pauses it, a seek to `ms`
/// seeks it to `ms`, a volume change sets it to `v`, Next skips to the next
/// queued item and Previous restarts the queued track. None of them falls
/// through. Without such a track, none of them is the queue's.
pub proof fn law_the_slot_owns_the_transport(ms: u32, v: u8)
    ensures
        queue_route_of(IoEvent::PausePlayback, true) == QueueRoute::Pause,
        queue_route_of(IoEvent::Seek(ms), true) == QueueRoute::Seek(ms),
        queue_route_of(IoEvent::ChangeVolume(v), true) == QueueRoute::Volume(v),
        queue_route_of(IoEvent::NextTrack, true) == QueueRoute::SkipQueued,
        queue_route_of(IoEvent::PreviousTrack, true) == QueueRoute::RestartQueued,
        queue_route_of(IoEvent::ForcePreviousTrack, true) == QueueRoute::RestartQueued,
        queue_route_of(IoEvent::PausePlayback, false) == QueueRoute::Pass,
        queue_route_of(IoEvent::Seek(ms), false) == QueueRoute::Pass,
        queue_route_of(IoEvent::ChangeVolume(v), false) == QueueRoute::Pass,
        queue_route_of(IoEvent::NextTrack, false) == QueueRoute::Pass,
        queue_route_of(IoEvent::PreviousTrack, false) == QueueRoute::Pass,
        queue_route_of(IoEvent::ForcePreviousTrack, false) == QueueRoute::Pass,
{
}

/// The queue consumes exactly its own events: advancing the native queue
/// (always), the transport controls while a queued track owns the output,
/// and nothing else; a start is let through after the slot is cleared.
pub proof fn law_queue_takes_only_its_own_events(e: IoEvent, slot: bool)
    ensures
        e is AdvanceNativeQueue <==> queue_route_of(e, slot) == QueueRoute::Advance,
        e is StartPlayback <==> queue_route_of(e, slot) == QueueRoute::ClearSlotThenPass,
        !slot ==> (queue_route_of(e, slot) == QueueRoute::Pass <==> !(e is AdvanceNativeQueue
            || e is StartPlayback)),
        slot ==> (queue_route_of(e, slot) == QueueRoute::Pass <==> !(e is AdvanceNativeQueue
            || e is StartPlayback || e is PausePlayback || e is Seek || e is ChangeVolume
            || e is NextTrack || e is PreviousTrack || e is ForcePreviousTrack)),
{
}

/// Once the queue drains, a suspended context is taken up where it was
/// left: a decoded context resumes at its saved track and position (or is
/// torn down when it had nothing left to play), a radio station is
/// reconnected, and a Spotify context reloads at its saved track. Only with
/// nothing suspended does the queue simply finish.
pub proof fn law_drained_queue_resumes_where_it_left_off(p: ResumePlan, s: Option<SuspendedContext>)
    requires
        resume_plan_ok(p, s),
    ensures
        p == ResumePlan::Finish <==> s is None,
        s matches Some(SuspendedContext::Local { resume_index: Some(i), resume_position_ms: ms })
            ==> p == ResumePlan::ResumeContext(DecodedSource::Local, i, ms),
        s matches Some(SuspendedContext::Subsonic { resume_index: Some(i), resume_position_ms: ms })
            ==> p == ResumePlan::ResumeContext(DecodedSource::Subsonic, i, ms),
        s matches Some(SuspendedContext::YouTube { resume_index: Some(i), resume_position_ms: ms })
            ==> p == ResumePlan::ResumeContext(DecodedSource::YouTube, i, ms),
        p is TeardownContext ==> (s matches Some(SuspendedContext::Local { resume_index: None, .. })
            || s matches Some(SuspendedContext::Subsonic { resume_index: None, .. })
            || s matches Some(SuspendedContext::YouTube { resume_index: None, .. })),
        s matches Some(SuspendedContext::Spotify { context_uri: c, resume_track_uri: t }) ==> p
            == ResumePlan::ResumeSpotify(c, t),
        s matches Some(SuspendedContext::Radio { station }) ==> (p matches ResumePlan::RestartRadio(x)
            && x.uri == station.uri && x.name == station.name),
{
}

/// A queued item is skipped only when it cannot be played here: an item
/// with a uri whose source this build carries is always played, through
/// that source and at that uri; a skipped item tells the user why.
pub proof fn law_playable_items_are_never_skipped(p: QueuedPlan, t: TrackInfo, features: BuildFeatures)
    requires
        queued_plan_ok(p, t, features),
    ensures
        (t.uri matches Some(u) && available_in(source_of_uri(u@), features)) ==> p == QueuedPlan::Play(
            source_of_uri(t.uri->0@),
            t.uri->0,
        ),
        p is Skip <==> (t.uri is None || !available_in(source_of_uri(t.uri->0@), features)),
        p matches QueuedPlan::Skip(m) ==> m@.len() > 0,
{
    reveal_strlit("Skipped a queued track with no URI");
    reveal_strlit(" playback isn't available in this build");
}

/// The queue slot's player keeps playing after the queue drains only when
/// the context being resumed plays through that very player (a resumed
/// Subsonic or YouTube context, or a local context sharing it); finishing,
/// tearing down, and handing over to radio or Spotify always stop it.
pub proof fn law_slot_player_stops_unless_reused(p: ResumePlan, shared: bool)
    ensures
        !stops_slot_player(p, shared) ==> p is ResumeContext,
        p == ResumePlan::Finish ==> stops_slot_player(p, shared),
        p is TeardownContext ==> stops_slot_player(p, shared),
        p is RestartRadio ==> stops_slot_player(p, shared),
        p is ResumeSpotify ==> stops_slot_player(p, shared),
        p matches ResumePlan::ResumeContext(DecodedSource::Local, _, _) ==> (stops_slot_player(p, shared)
            <==> !shared),
        p matches ResumePlan::ResumeContext(DecodedSource::Subsonic, _, _) ==> !stops_slot_player(p, shared),
        p matches ResumePlan::ResumeContext(DecodedSource::YouTube, _, _) ==> !stops_slot_player(p, shared),
{
}

/// When the queue drains with nothing to resume, the user is told "Queue
/// finished" for three seconds, but only when a queued track was still
/// playing; nothing is sent to the playback side.
pub proof fn law_finished_queue_is_announced(a: App, b: App, slot_player: bool)
    requires
        drained_effect(a, b, ResumePlan::Finish, slot_player),
    ensures
        slot_player ==> b.requests@ == a.requests@.push(
            b.requests@.last(),
        ) && (b.requests@.last() matches AppRequest::StatusMessage(m, secs) && m@ == "Queue finished"@
            && secs == 3),
        !slot_player ==> b.requests == a.requests,
        b.dispatched == a.dispatched,
{
    if slot_player {
        assert(b.requests@ =~= b.requests@.drop_last().push(b.requests@.last()));
    }
}

/// The queue opens a fresh output device only when it has no player to
/// reuse: it keeps its own player when it has one, and otherwise borrows
/// the suspended context's.
pub proof fn law_fresh_device_only_as_a_last_resort(slot_player: bool, suspended_player: bool)
    ensures
        player_choice(slot_player, suspended_player) == PlayerChoice::OpenFresh <==> (!slot_player
            && !suspended_player),
        slot_player ==> player_choice(slot_player, suspended_player) == PlayerChoice::ReuseSlot,
        player_choice(slot_player, suspended_player) == PlayerChoice::ReuseSuspended ==> suspended_player
            && !slot_player,
{
}

/// A resumed context replays the download it still holds only when it
/// resumes at the very track that download is for; any other resume plays
/// the resume track afresh, at that track.
pub proof fn law_replay_only_the_held_track(index: usize, live_index: Option<usize>)
    ensures
        context_resume_of(index, live_index) == ContextResume::Replay <==> live_index == Some(index),
        context_resume_of(index, live_index) matches ContextResume::PlayIndex(i) ==> i == index,
{
}

} // verus!
