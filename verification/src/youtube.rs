//! The YouTube source: its URIs, the metadata snapshot a play starts from,
//! which playback events it takes while it may own the session, and the
//! plans for starting, skipping within and committing its queue.
//!
//! Downloading and decoding happen outside; this module decides what to do
//! with the answers.

use vstd::prelude::*;

use crate::app::{
    nothing_changes, only_changes, App, Changes, IoEvent, Paged, SearchResultBlock, SearchResults,
    TrackTableContext,
};
use crate::text::{concat, has_prefix, push_str, starts_with, str_eq, suffix_from};
use crate::track::{copy_strings, same_track, same_tracks, TrackInfo};

verus! {

// ---------------------------------------------------------------------------
// URIs
// ---------------------------------------------------------------------------

/// Whether a URI belongs to the YouTube source.
pub fn is_youtube_uri(uri: &str) -> (b: bool)
    ensures
        b == has_prefix(uri@, "youtube:"@),
{
    starts_with(uri, "youtube:")
}

/// The video id of a `youtube:` URI (what follows the scheme).
pub fn video_id_from_uri(uri: &str) -> (r: Option<String>)
    ensures
        r is Some <==> has_prefix(uri@, "youtube:"@),
        r matches Some(id) ==> "youtube:"@ + id@ == uri@,
{
    if starts_with(uri, "youtube:") {
        proof {
            reveal_strlit("youtube:");
        }
        let id = suffix_from(uri, 8);
        proof {
            assert("youtube:"@ + id@ =~= uri@);
        }
        Some(id)
    } else {
        None
    }
}

/// The video id a playlist edit names: the id of a `youtube:` URI, or the
/// reference itself when it is a bare id.
pub fn video_id_or_ref(video_ref: &str) -> (r: String)
    ensures
        has_prefix(video_ref@, "youtube:"@) ==> "youtube:"@ + r@ == video_ref@,
        !has_prefix(video_ref@, "youtube:"@) ==> r@ == video_ref@,
{
    match video_id_from_uri(video_ref) {
        Some(id) => id,
        None => video_ref.to_owned(),
    }
}

/// The `youtube:` URI of a video id.
pub fn uri_for_video_id(id: &str) -> (r: String)
    ensures
        r@ == "youtube:"@ + id@,
{
    concat("youtube:", id)
}

// ---------------------------------------------------------------------------
// Metadata snapshot
// ---------------------------------------------------------------------------

/// The first track of `ts` whose uri is `uri`.
pub open spec fn first_with_uri(ts: Seq<TrackInfo>, uri: Seq<char>) -> Option<TrackInfo>
    decreases ts.len(),
{
    if ts.len() == 0 {
        None
    } else if ts[0].uri matches Some(u) && u@ == uri {
        Some(ts[0])
    } else {
        first_with_uri(ts.drop_first(), uri)
    }
}

/// The row for `uri`: from the track table, else from the search results.
pub open spec fn row_for_uri(table: Seq<TrackInfo>, search: Option<Seq<TrackInfo>>, uri: Seq<char>) -> Option<TrackInfo> {
    match first_with_uri(table, uri) {
        Some(t) => Some(t),
        None => match search {
            Some(s) => first_with_uri(s, uri),
            None => None,
        },
    }
}

/// The rows for `uris`, in order, dropping uris found in neither view.
pub open spec fn snapshot_of(table: Seq<TrackInfo>, search: Option<Seq<TrackInfo>>, uris: Seq<String>) -> Seq<TrackInfo>
    decreases uris.len(),
{
    if uris.len() == 0 {
        seq![]
    } else {
        let rest = snapshot_of(table, search, uris.drop_last());
        match row_for_uri(table, search, uris.last()@) {
            Some(t) => rest.push(t),
            None => rest,
        }
    }
}

/// A copy of the first track of `ts` whose uri is `uri`.
fn find_by_uri(ts: &[TrackInfo], uri: &str) -> (r: Option<TrackInfo>)
    ensures
        match (r, first_with_uri(ts@, uri@)) {
            (Some(x), Some(t)) => same_track(x, t),
            (None, None) => true,
            _ => false,
        },
{
    let n = ts.len();
    let mut i: usize = 0;
    proof {
        assert(ts@.subrange(0, n as int) =~= ts@);
    }
    while i < n
        invariant
            n == ts@.len(),
            i <= n,
            first_with_uri(ts@, uri@) == first_with_uri(ts@.subrange(i as int, n as int), uri@),
        decreases n - i,
    {
        proof {
            assert(ts@.subrange(i as int, n as int).drop_first() =~= ts@.subrange(
                i as int + 1,
                n as int,
            ));
            assert(ts@.subrange(i as int, n as int)[0] == ts@[i as int]);
        }
        let hit = match &ts[i].uri {
            Some(u) => str_eq(u.as_str(), uri),
            None => false,
        };
        if hit {
            return Some(ts[i].duplicate());
        }
        i += 1;
    }
    None
}

/// Snapshot the tracks for `uris`, preserving their order, looking each up
/// in the track table and then in the search results; a uri found in
/// neither is dropped.
pub fn snapshot_tracks(table: &[TrackInfo], search: Option<&[TrackInfo]>, uris: &[String]) -> (r: Vec<TrackInfo>)
    ensures
        same_tracks(
            r@,
            snapshot_of(
                table@,
                match search {
                    Some(s) => Some(s@),
                    None => None,
                },
                uris@,
            ),
        ),
{
    let ghost sv = match search {
        Some(s) => Some(s@),
        None => None,
    };
    let mut r: Vec<TrackInfo> = Vec::new();
    let n = uris.len();
    let mut i: usize = 0;
    while i < n
        invariant
            n == uris@.len(),
            i <= n,
            sv == match search {
                Some(s) => Some(s@),
                None => None::<Seq<TrackInfo>>,
            },
            same_tracks(r@, snapshot_of(table@, sv, uris@.take(i as int))),
        decreases n - i,
    {
        proof {
            assert(uris@.take(i as int + 1).drop_last() =~= uris@.take(i as int));
            assert(uris@.take(i as int + 1).last() == uris@[i as int]);
        }
        let uri = uris[i].as_str();
        let found = match find_by_uri(table, uri) {
            Some(t) => Some(t),
            None => match search {
                Some(s) => find_by_uri(s, uri),
                None => None,
            },
        };
        let ghost before = r@;
        if let Some(t) = found {
            r.push(t);
            proof {
                let snap = snapshot_of(table@, sv, uris@.take(i as int + 1));
                assert forall|k: int| 0 <= k < r@.len() implies same_track(#[trigger] r@[k], snap[k]) by {
                    if k < before.len() {
                        assert(r@[k] == before[k]);
                    }
                }
            }
        }
        i += 1;
    }
    proof {
        assert(uris@.take(n as int) =~= uris@);
    }
    r
}

/// Whether `t` is the row of the video `video_ref` (given by bare id or by
/// URI), with `uri` the URI of `video_ref` read as a bare id.
pub open spec fn is_video_row(t: TrackInfo, video_ref: Seq<char>, uri: Seq<char>) -> bool {
    ||| t.id matches Some(x) && x@ == video_ref
    ||| t.uri matches Some(x) && x@ == video_ref
    ||| t.uri matches Some(x) && x@ == uri
}

/// The first row of `ts` that is the video's.
pub open spec fn first_video_row(ts: Seq<TrackInfo>, video_ref: Seq<char>, uri: Seq<char>) -> Option<TrackInfo>
    decreases ts.len(),
{
    if ts.len() == 0 {
        None
    } else if is_video_row(ts[0], video_ref, uri) {
        Some(ts[0])
    } else {
        first_video_row(ts.drop_first(), video_ref, uri)
    }
}

/// A copy of the first row of `ts` that is the video's.
fn find_video_in(ts: &Vec<TrackInfo>, video_ref: &str, uri: &str) -> (r: Option<TrackInfo>)
    ensures
        match (r, first_video_row(ts@, video_ref@, uri@)) {
            (Some(x), Some(t)) => same_track(x, t),
            (None, None) => true,
            _ => false,
        },
{
    let n = ts.len();
    let mut i: usize = 0;
    proof {
        assert(ts@.subrange(0, n as int) =~= ts@);
    }
    while i < n
        invariant
            n == ts@.len(),
            i <= n,
            first_video_row(ts@, video_ref@, uri@) == first_video_row(
                ts@.subrange(i as int, n as int),
                video_ref@,
                uri@,
            ),
        decreases n - i,
    {
        proof {
            assert(ts@.subrange(i as int, n as int).drop_first() =~= ts@.subrange(
                i as int + 1,
                n as int,
            ));
            assert(ts@.subrange(i as int, n as int)[0] == ts@[i as int]);
        }
        let t = &ts[i];
        let by_id = match &t.id {
            Some(x) => str_eq(x.as_str(), video_ref),
            None => false,
        };
        let by_uri = match &t.uri {
            Some(x) => str_eq(x.as_str(), video_ref) || str_eq(x.as_str(), uri),
            None => false,
        };
        if by_id || by_uri {
            return Some(t.duplicate());
        }
        i += 1;
    }
    None
}

/// A video's row in the browse views, found by bare id or `youtube:` URI:
/// in the search results first, else in the track table.
pub fn find_video_row(
    search: &Option<Paged<TrackInfo>>,
    table: &Vec<TrackInfo>,
    video_ref: &str,
) -> (r: Option<TrackInfo>)
    ensures
        ({
            let uri = "youtube:"@ + video_ref@;
            let expected = match search {
                Some(p) => match first_video_row(p.items@, video_ref@, uri) {
                    Some(t) => Some(t),
                    None => first_video_row(table@, video_ref@, uri),
                },
                None => first_video_row(table@, video_ref@, uri),
            };
            match (r, expected) {
                (Some(x), Some(t)) => same_track(x, t),
                (None, None) => true,
                _ => false,
            }
        }),
{
    let uri = uri_for_video_id(video_ref);
    let from_search = match search {
        Some(p) => find_video_in(&p.items, video_ref, uri.as_str()),
        None => None,
    };
    match from_search {
        Some(t) => Some(t),
        None => find_video_in(table, video_ref, uri.as_str()),
    }
}

// ---------------------------------------------------------------------------
// Routing
// ---------------------------------------------------------------------------

/// A skip direction within a queue.
#[derive(Debug, Clone, Copy, PartialEq, Eq, Structural)]
pub enum Direction {
    Next,
    Prev,
}

/// What the YouTube source does with a playback event.
#[derive(Debug, Clone, PartialEq)]
pub enum YouTubeRoute {
    Search(String),
    LoadPlaylists,
    OpenPlaylist(String),
    CreatePlaylist(String),
    DeletePlaylist(String),
    AddToPlaylist(String, String),
    RemoveFromPlaylist(String, String),
    /// Start a queue of videos at an offset.
    StartQueue(Vec<String>, usize),
    Resume,
    Pause,
    Seek(u32),
    Volume(u8),
    Skip(Direction),
    /// Another source starts playing: end the YouTube session, then let the
    /// event through.
    TeardownThenPass,
    /// Not YouTube's event.
    Pass,
}

/// Whether `r` is what the YouTube source does with `e` when a YouTube
/// session is (`session`) or is not live: its playlist and search events are
/// its own; a start whose list (or single context URI) is YouTube's starts a
/// YouTube queue; a bare resume and the transport keys are its own only
/// while its session is live; any other start ends its session and passes.
pub open spec fn youtube_route_of(r: YouTubeRoute, e: IoEvent, session: bool) -> bool {
    match e {
        IoEvent::GetYouTubeSearchResults(q) => r == YouTubeRoute::Search(q),
        IoEvent::GetYouTubePlaylists => r == YouTubeRoute::LoadPlaylists,
        IoEvent::GetYouTubeTracks(u) => r == YouTubeRoute::OpenPlaylist(u),
        IoEvent::CreateYouTubePlaylist(n) => r == YouTubeRoute::CreatePlaylist(n),
        IoEvent::DeleteYouTubePlaylist(u) => r == YouTubeRoute::DeletePlaylist(u),
        IoEvent::AddTrackToYouTubePlaylist(p, v) => r == YouTubeRoute::AddToPlaylist(p, v),
        IoEvent::RemoveTrackFromYouTubePlaylist(p, v) => r == YouTubeRoute::RemoveFromPlaylist(p, v),
        IoEvent::StartPlayback(ctx, list, off) => {
            if ctx is None && list is Some && list->0@.len() > 0 && has_prefix(
                list->0@[0]@,
                "youtube:"@,
            ) {
                r matches YouTubeRoute::StartQueue(x, p) && x@ == list->0@ && p == match off {
                    Some(o) => o,
                    None => 0usize,
                }
            } else if ctx is Some && has_prefix(ctx->0@, "youtube:"@) {
                r matches YouTubeRoute::StartQueue(x, p) && x@ == seq![ctx->0] && p == 0
            } else if ctx is None && list is None && off is None {
                r == if session {
                    YouTubeRoute::Resume
                } else {
                    YouTubeRoute::Pass
                }
            } else {
                r == YouTubeRoute::TeardownThenPass
            }
        },
        IoEvent::PausePlayback => r == if session {
            YouTubeRoute::Pause
        } else {
            YouTubeRoute::Pass
        },
        IoEvent::Seek(ms) => r == if session {
            YouTubeRoute::Seek(ms)
        } else {
            YouTubeRoute::Pass
        },
        IoEvent::ChangeVolume(v) => r == if session {
            YouTubeRoute::Volume(v)
        } else {
            YouTubeRoute::Pass
        },
        IoEvent::NextTrack => r == if session {
            YouTubeRoute::Skip(Direction::Next)
        } else {
            YouTubeRoute::Pass
        },
        IoEvent::PreviousTrack | IoEvent::ForcePreviousTrack => r == if session {
            YouTubeRoute::Skip(Direction::Prev)
        } else {
            YouTubeRoute::Pass
        },
        _ => r == YouTubeRoute::Pass,
    }
}

/// Decide what the YouTube source does with `event`, given whether a YouTube
/// session is live.
pub fn youtube_route(event: &IoEvent, session: bool) -> (r: YouTubeRoute)
    ensures
        youtube_route_of(r, *event, session),
{
    match event {
        IoEvent::GetYouTubeSearchResults(q) => YouTubeRoute::Search(q.clone()),
        IoEvent::GetYouTubePlaylists => YouTubeRoute::LoadPlaylists,
        IoEvent::GetYouTubeTracks(u) => YouTubeRoute::OpenPlaylist(u.clone()),
        IoEvent::CreateYouTubePlaylist(n) => YouTubeRoute::CreatePlaylist(n.clone()),
        IoEvent::DeleteYouTubePlaylist(u) => YouTubeRoute::DeletePlaylist(u.clone()),
        IoEvent::AddTrackToYouTubePlaylist(p, v) => YouTubeRoute::AddToPlaylist(p.clone(), v.clone()),
        IoEvent::RemoveTrackFromYouTubePlaylist(p, v) => YouTubeRoute::RemoveFromPlaylist(
            p.clone(),
            v.clone(),
        ),
        IoEvent::StartPlayback(ctx, list, off) => {
            if let (None, Some(l)) = (ctx, list) {
                if l.len() > 0 && is_youtube_uri(l[0].as_str()) {
                    let start = match off {
                        Some(o) => *o,
                        None => 0,
                    };
                    return YouTubeRoute::StartQueue(copy_strings(l), start);
                }
            }
            if let Some(u) = ctx {
                if is_youtube_uri(u.as_str()) {
                    let mut one: Vec<String> = Vec::new();
                    one.push(u.clone());
                    assert(one@ =~= seq![*u]);
                    return YouTubeRoute::StartQueue(one, 0);
                }
            }
            if ctx.is_none() && list.is_none() && off.is_none() {
                if session {
                    YouTubeRoute::Resume
                } else {
                    YouTubeRoute::Pass
                }
            } else {
                YouTubeRoute::TeardownThenPass
            }
        },
        IoEvent::PausePlayback => if session {
            YouTubeRoute::Pause
        } else {
            YouTubeRoute::Pass
        },
        IoEvent::Seek(ms) => if session {
            YouTubeRoute::Seek(*ms)
        } else {
            YouTubeRoute::Pass
        },
        IoEvent::ChangeVolume(v) => if session {
            YouTubeRoute::Volume(*v)
        } else {
            YouTubeRoute::Pass
        },
        IoEvent::NextTrack => if session {
            YouTubeRoute::Skip(Direction::Next)
        } else {
            YouTubeRoute::Pass
        },
        IoEvent::PreviousTrack | IoEvent::ForcePreviousTrack => if session {
            YouTubeRoute::Skip(Direction::Prev)
        } else {
            YouTubeRoute::Pass
        },
        _ => YouTubeRoute::Pass,
    }
}

// ---------------------------------------------------------------------------
// Starting, skipping and committing
// ---------------------------------------------------------------------------

/// Why a YouTube start or advance was refused.
#[derive(Debug, Clone, Copy, PartialEq, Eq, Structural)]
pub enum Refusal {
    /// None of the requested videos has a browse row.
    NoVideos,
    /// The target is a livestream (duration 0): its download never ends.
    Live,
    /// The target's URI is not a `youtube:` URI.
    BadUri,
}

/// What to do to start a queue.
#[derive(Debug, Clone, PartialEq)]
pub enum StartPlan {
    Refuse(Refusal),
    /// Download and play `video_id`, the track at `index`.
    Play { index: usize, video_id: String },
}

/// The video id of a track, when its uri is a `youtube:` URI.
pub open spec fn video_of(t: TrackInfo) -> Option<Seq<char>> {
    match t.uri {
        Some(u) => if has_prefix(u@, "youtube:"@) {
            Some(u@.subrange(8, u@.len() as int))
        } else {
            None
        },
        None => None,
    }
}

/// The start plan for `tracks` from `start` (clamped to the last track).
pub open spec fn start_plan_of(tracks: Seq<TrackInfo>, start: nat) -> StartPlanView {
    if tracks.len() == 0 {
        StartPlanView::Refuse(Refusal::NoVideos)
    } else {
        let index: nat = if start < tracks.len() {
            start
        } else {
            (tracks.len() - 1) as nat
        };
        if tracks[index as int].duration_ms == 0 {
            StartPlanView::Refuse(Refusal::Live)
        } else {
            match video_of(tracks[index as int]) {
                Some(v) => StartPlanView::Play(index, v),
                None => StartPlanView::Refuse(Refusal::BadUri),
            }
        }
    }
}

/// A start plan as plain values.
pub enum StartPlanView {
    Refuse(Refusal),
    Play(nat, Seq<char>),
}

/// The plain values of a start plan.
pub open spec fn start_plan_view(p: StartPlan) -> StartPlanView {
    match p {
        StartPlan::Refuse(r) => StartPlanView::Refuse(r),
        StartPlan::Play { index, video_id } => StartPlanView::Play(index as nat, video_id@),
    }
}

/// The video id of a track, when its uri is a `youtube:` URI.
fn video_id_of(t: &TrackInfo) -> (r: Option<String>)
    ensures
        match (r, video_of(*t)) {
            (Some(x), Some(v)) => x@ == v,
            (None, None) => true,
            _ => false,
        },
{
    match &t.uri {
        Some(u) => {
            let r = video_id_from_uri(u.as_str());
            proof {
                reveal_strlit("youtube:");
                if r is Some {
                    assert(u@.subrange(8, u@.len() as int) =~= r->0@);
                }
            }
            r
        },
        None => None,
    }
}

/// Plan the start of a queue of `tracks` at `start_idx` (clamped into
/// range): refuse an empty queue, a livestream and a non-YouTube URI;
/// otherwise play the target's video.
pub fn plan_youtube_start(tracks: &Vec<TrackInfo>, start_idx: usize) -> (r: StartPlan)
    ensures
        start_plan_view(r) == start_plan_of(tracks@, start_idx as nat),
{
    if tracks.len() == 0 {
        return StartPlan::Refuse(Refusal::NoVideos);
    }
    let index = if start_idx < tracks.len() {
        start_idx
    } else {
        tracks.len() - 1
    };
    if tracks[index].duration_ms == 0 {
        return StartPlan::Refuse(Refusal::Live);
    }
    match video_id_of(&tracks[index]) {
        Some(video_id) => StartPlan::Play { index, video_id },
        None => StartPlan::Refuse(Refusal::BadUri),
    }
}

/// The position after `i` in a queue of `len`, if there is one.
pub fn next_index(i: usize, len: usize) -> (r: Option<usize>)
    ensures
        r == if i + 1 < len {
            Some((i + 1) as usize)
        } else {
            None
        },
{
    if i < len && i + 1 < len {
        Some(i + 1)
    } else {
        None
    }
}

/// The position before `i` in a queue of `len`, if there is one.
pub fn prev_index(i: usize, len: usize) -> (r: Option<usize>)
    ensures
        r == if 0 < i && i <= len {
            Some((i - 1) as usize)
        } else {
            None
        },
{
    if 0 < i && i <= len {
        Some(i - 1)
    } else {
        None
    }
}

/// The YouTube queue as the session holds it: the snapshot it plays, the
/// live position, and whether a track change is in flight (which keeps the
/// empty-sink window from reading as end-of-track).
#[derive(Debug)]
pub struct YouTubeCursor {
    pub tracks: Vec<TrackInfo>,
    pub index: usize,
    pub advancing: bool,
}

/// The target of a skip in direction `d` from `index` in a queue of `len`.
pub open spec fn skip_target(index: usize, len: nat, d: Direction) -> Option<usize> {
    match d {
        Direction::Next => if index + 1 < len {
            Some((index + 1) as usize)
        } else {
            None
        },
        Direction::Prev => if 0 < index && index <= len {
            Some((index - 1) as usize)
        } else {
            None
        },
    }
}

/// Start a skip: mark a change in flight and return the target, if any.
/// At a queue boundary the in-flight mark is cleared again, so it cannot
/// wedge auto-advance off.
pub fn begin_skip(cursor: &mut YouTubeCursor, d: Direction) -> (r: Option<usize>)
    ensures
        r == skip_target(old(cursor).index, old(cursor).tracks@.len(), d),
        final(cursor).advancing == r is Some,
        final(cursor).tracks == old(cursor).tracks,
        final(cursor).index == old(cursor).index,
{
    cursor.advancing = true;
    let r = match d {
        Direction::Next => next_index(cursor.index, cursor.tracks.len()),
        Direction::Prev => prev_index(cursor.index, cursor.tracks.len()),
    };
    if r.is_none() {
        cursor.advancing = false;
    }
    r
}

/// What to do to play the queued track at a target.
#[derive(Debug, Clone, PartialEq)]
pub enum PlayPlan {
    /// The target is past the queue: clear the in-flight mark.
    OutOfRange,
    /// End the session with this refusal.
    EndSession(Refusal),
    /// Download and play `video_id`, announcing `name`.
    Play { video_id: String, name: String },
}

/// The plan for playing the queued track at `target`.
pub open spec fn play_plan_of(tracks: Seq<TrackInfo>, target: usize) -> PlayPlanView {
    if target >= tracks.len() {
        PlayPlanView::OutOfRange
    } else if tracks[target as int].duration_ms == 0 {
        PlayPlanView::EndSession(Refusal::Live)
    } else {
        match video_of(tracks[target as int]) {
            Some(v) => PlayPlanView::Play(v, tracks[target as int].name@),
            None => PlayPlanView::EndSession(Refusal::BadUri),
        }
    }
}

/// A play plan as plain values.
pub enum PlayPlanView {
    OutOfRange,
    EndSession(Refusal),
    Play(Seq<char>, Seq<char>),
}

/// The plain values of a play plan.
pub open spec fn play_plan_view(p: PlayPlan) -> PlayPlanView {
    match p {
        PlayPlan::OutOfRange => PlayPlanView::OutOfRange,
        PlayPlan::EndSession(r) => PlayPlanView::EndSession(r),
        PlayPlan::Play { video_id, name } => PlayPlanView::Play(video_id@, name@),
    }
}

/// Plan playing the queued track at `target`.
pub fn plan_play_index(cursor: &YouTubeCursor, target: usize) -> (r: PlayPlan)
    ensures
        play_plan_view(r) == play_plan_of(cursor.tracks@, target),
{
    if target >= cursor.tracks.len() {
        return PlayPlan::OutOfRange;
    }
    let track = &cursor.tracks[target];
    if track.duration_ms == 0 {
        return PlayPlan::EndSession(Refusal::Live);
    }
    match video_id_of(track) {
        Some(video_id) => PlayPlan::Play { video_id, name: track.name.clone() },
        None => PlayPlan::EndSession(Refusal::BadUri),
    }
}

/// Clear the in-flight mark (the target was out of range).
pub fn abandon_advance(cursor: &mut YouTubeCursor)
    ensures
        !final(cursor).advancing,
        final(cursor).tracks == old(cursor).tracks,
        final(cursor).index == old(cursor).index,
{
    cursor.advancing = false;
}

/// Commit `target` as the live position once its track plays, clearing the
/// in-flight mark; returns the name to announce.
pub fn commit_index(cursor: &mut YouTubeCursor, target: usize) -> (r: Option<String>)
    ensures
        final(cursor).index == target,
        !final(cursor).advancing,
        final(cursor).tracks == old(cursor).tracks,
        match r {
            Some(n) => target < old(cursor).tracks@.len() && n == old(cursor).tracks@[target as int].name,
            None => target >= old(cursor).tracks@.len(),
        },
{
    cursor.index = target;
    cursor.advancing = false;
    if target < cursor.tracks.len() {
        Some(cursor.tracks[target].name.clone())
    } else {
        None
    }
}

// ---------------------------------------------------------------------------
// Messages and views
// ---------------------------------------------------------------------------

/// What the user is told when a start or advance is refused.
pub fn refusal_message(r: Refusal) -> (m: &'static str)
    ensures
        m@ == match r {
            Refusal::NoVideos => "No YouTube videos to play"@,
            Refusal::Live => "Live streams aren't supported on the YouTube source yet"@,
            Refusal::BadUri => "Invalid YouTube URI"@,
        },
{
    match r {
        Refusal::NoVideos => "No YouTube videos to play",
        Refusal::Live => "Live streams aren't supported on the YouTube source yet",
        Refusal::BadUri => "Invalid YouTube URI",
    }
}

/// The message for a decode failure: without ffmpeg, yt-dlp leaves a
/// fragmented container that some decoders reject.
pub fn decode_hint(error: &str) -> (m: String)
    ensures
        m@ == "Cannot play YouTube audio: "@ + error@
            + " (installing ffmpeg fixes most container issues)"@,
{
    let mut m = concat("Cannot play YouTube audio: ", error);
    push_str(&mut m, " (installing ffmpeg fixes most container issues)");
    m
}

/// Show YouTube search results: the videos fill the songs block (the other
/// blocks are emptied), the first hit is selected and the songs block
/// hovered, with no block selected.
pub fn publish_youtube_search(sr: &mut SearchResults, tracks: Vec<TrackInfo>)
    ensures
        final(sr).tracks matches Some(p) && p.items == tracks && p.total == tracks@.len() as u32
            && p.offset == 0 && p.limit == 0 && p.next is None && p.previous is None,
        final(sr).albums is None,
        final(sr).artists is None,
        final(sr).playlists is None,
        final(sr).shows is None,
        final(sr).selected_tracks_index == Some(0usize),
        final(sr).hovered_block == SearchResultBlock::SongSearch,
        final(sr).selected_block == SearchResultBlock::Empty,
        final(sr).selected_album_index == old(sr).selected_album_index,
        final(sr).selected_artists_index == old(sr).selected_artists_index,
        final(sr).selected_playlists_index == old(sr).selected_playlists_index,
        final(sr).selected_shows_index == old(sr).selected_shows_index,
{
    let total = tracks.len() as u32;
    sr.tracks = Some(Paged { items: tracks, offset: 0, limit: 0, total, next: None, previous: None });
    sr.albums = None;
    sr.artists = None;
    sr.playlists = None;
    sr.shows = None;
    sr.selected_tracks_index = Some(0);
    sr.hovered_block = SearchResultBlock::SongSearch;
    sr.selected_block = SearchResultBlock::Empty;
}

/// A selection clamped into `len` rows.
pub open spec fn clamped(selected: usize, len: usize) -> usize {
    if len == 0 {
        0
    } else if selected < len {
        selected
    } else {
        (len - 1) as usize
    }
}

/// The selection of a table that now holds `len` rows: kept, but clamped to
/// the last row.
pub fn clamped_selection(selected: usize, len: usize) -> (r: usize)
    ensures
        r == clamped(selected, len),
{
    let last = if len > 0 {
        len - 1
    } else {
        0
    };
    if selected < last {
        selected
    } else {
        last
    }
}

// ---------------------------------------------------------------------------
// Local playlists in the track table
// ---------------------------------------------------------------------------

/// Open a local playlist's rows in the shared track table, marking it open.
pub fn open_youtube_playlist(app: &mut App, rows: Vec<TrackInfo>, uri: String)
    ensures
        final(app).track_table.tracks == rows,
        final(app).track_table.selected_index == 0,
        final(app).track_table.context == Some(TrackTableContext::YouTubePlaylist),
        final(app).youtube_open_playlist == Some(uri),
        only_changes(*old(app), *final(app), Changes { track_table: true, ..nothing_changes() }),
{
    app.track_table.tracks = rows;
    app.track_table.selected_index = 0;
    app.track_table.context = Some(TrackTableContext::YouTubePlaylist);
    app.youtube_open_playlist = Some(uri);
}

/// A deleted playlist may be open in the track table: drop the mark so the
/// remove-track flow cannot edit a playlist that is gone.
pub fn forget_deleted_playlist(app: &mut App, uri: &str)
    ensures
        final(app).youtube_open_playlist == if old(app).youtube_open_playlist matches Some(o) && o@
            == uri@ {
            None
        } else {
            old(app).youtube_open_playlist
        },
        final(app).track_table == old(app).track_table,
        only_changes(*old(app), *final(app), Changes { track_table: true, ..nothing_changes() }),
{
    let open = match &app.youtube_open_playlist {
        Some(o) => str_eq(o.as_str(), uri),
        None => false,
    };
    if open {
        app.youtube_open_playlist = None;
    }
}

/// After a track is removed from a playlist, show the remaining rows when
/// that playlist is the one open, keeping the selection on a row.
pub fn refresh_open_playlist(app: &mut App, playlist_ref: &str, remaining: Vec<TrackInfo>)
    ensures
        if old(app).youtube_open_playlist matches Some(o) && o@ == playlist_ref@ {
            &&& final(app).track_table.tracks == remaining
            &&& final(app).track_table.selected_index == if remaining@.len() == 0 {
                0
            } else if old(app).track_table.selected_index < remaining@.len() {
                old(app).track_table.selected_index
            } else {
                (remaining@.len() - 1) as usize
            }
            &&& final(app).track_table.context == old(app).track_table.context
        } else {
            final(app).track_table == old(app).track_table
        },
        final(app).youtube_open_playlist == old(app).youtube_open_playlist,
        only_changes(*old(app), *final(app), Changes { track_table: true, ..nothing_changes() }),
{
    let open = match &app.youtube_open_playlist {
        Some(o) => str_eq(o.as_str(), playlist_ref),
        None => false,
    };
    if open {
        let len = remaining.len();
        app.track_table.tracks = remaining;
        app.track_table.selected_index = clamped_selection(app.track_table.selected_index, len);
    }
}

// ---------------------------------------------------------------------------
// Laws
// ---------------------------------------------------------------------------

/// `t` is the row of one of `uris`.
pub open spec fn requested_row(t: TrackInfo, uris: Seq<String>) -> bool {
    t.uri matches Some(u) && exists|j: int| 0 <= j < uris.len() && uris[j]@ == u@
}

proof fn lemma_first_with_uri_has_it(ts: Seq<TrackInfo>, uri: Seq<char>)
    ensures
        first_with_uri(ts, uri) matches Some(t) ==> (t.uri matches Some(u) && u@ == uri),
    decreases ts.len(),
{
    if ts.len() > 0 {
        lemma_first_with_uri_has_it(ts.drop_first(), uri);
    }
}

/// A snapshot holds only rows of requested videos, never more rows than
/// were requested, and each row is found under its own uri.
pub proof fn law_snapshot_rows_are_requested(
    table: Seq<TrackInfo>,
    search: Option<Seq<TrackInfo>>,
    uris: Seq<String>,
)
    ensures
        snapshot_of(table, search, uris).len() <= uris.len(),
        forall|i: int|
            0 <= i < snapshot_of(table, search, uris).len() ==> requested_row(
                #[trigger] snapshot_of(table, search, uris)[i],
                uris,
            ),
    decreases uris.len(),
{
    if uris.len() > 0 {
        let rest = uris.drop_last();
        law_snapshot_rows_are_requested(table, search, rest);
        let last = uris.last()@;
        lemma_first_with_uri_has_it(table, last);
        if let Some(s) = search {
            lemma_first_with_uri_has_it(s, last);
        }
        let snap = snapshot_of(table, search, uris);
        let prev = snapshot_of(table, search, rest);
        assert forall|i: int| 0 <= i < snap.len() implies requested_row(#[trigger] snap[i], uris) by {
            if i < prev.len() {
                assert(snap[i] == prev[i]);
                let u = prev[i].uri->0;
                let j = choose|j: int| 0 <= j < rest.len() && rest[j]@ == u@;
                assert(uris[j] == rest[j]);
            } else {
                assert(uris[uris.len() - 1] == uris.last());
            }
        }
    }
}

/// Only one backend holds the output: any start that is not YouTube's (and
/// not a bare resume) ends a YouTube session and passes the start on.
pub proof fn law_foreign_starts_end_the_youtube_session(
    r: YouTubeRoute,
    ctx: Option<String>,
    list: Option<Vec<String>>,
    off: Option<usize>,
    session: bool,
)
    requires
        youtube_route_of(r, IoEvent::StartPlayback(ctx, list, off), session),
        !(ctx is None && list is None && off is None),
        ctx matches Some(u) ==> !has_prefix(u@, "youtube:"@),
        list matches Some(l) ==> (l@.len() == 0 || !has_prefix(l@[0]@, "youtube:"@)),
    ensures
        r == YouTubeRoute::TeardownThenPass,
{
}

/// With a live YouTube session, Next moves forward through the queue and
/// Previous moves back: the skip Next asks for lands on the following
/// video whenever there is one, and the skip Previous asks for on the one
/// before. Without a session neither is YouTube's.
pub proof fn law_next_goes_forward_and_previous_goes_back(r: YouTubeRoute, e: IoEvent, index: usize, len: nat)
    requires
        e is NextTrack || e is PreviousTrack || e is ForcePreviousTrack,
        youtube_route_of(r, e, true),
    ensures
        r matches YouTubeRoute::Skip(d) && (e is NextTrack ==> (index + 1 < len ==> skip_target(index, len, d)
            == Some((index + 1) as usize)) && (index + 1 >= len ==> skip_target(index, len, d) is None))
            && (!(e is NextTrack) ==> (0 < index <= len ==> skip_target(index, len, d) == Some(
            (index - 1) as usize)) && (index == 0 ==> skip_target(index, len, d) is None)),
{
}

/// The two skip directions are distinct moves: from any position inside a
/// queue, going forward and going back never land on the same video.
pub proof fn law_skip_directions_differ(index: usize, len: nat)
    requires
        index < len,
        len <= usize::MAX,
    ensures
        skip_target(index, len, Direction::Next) is None || skip_target(index, len, Direction::Prev)
            is None || skip_target(index, len, Direction::Next) != skip_target(index, len, Direction::Prev),
        skip_target(index, len, Direction::Next) matches Some(j) ==> j > index,
        skip_target(index, len, Direction::Prev) matches Some(j) ==> j < index,
{
}

/// While a YouTube session is live its player takes the transport: pause,
/// a seek to `ms`, a volume change to `v` and a bare resume act on it;
/// without a session they all pass on.
pub proof fn law_live_session_owns_the_transport(ms: u32, v: u8, session: bool, r: YouTubeRoute, e: IoEvent)
    requires
        youtube_route_of(r, e, session),
    ensures
        e == IoEvent::PausePlayback ==> r == if session { YouTubeRoute::Pause } else { YouTubeRoute::Pass },
        e == IoEvent::Seek(ms) ==> r == if session { YouTubeRoute::Seek(ms) } else { YouTubeRoute::Pass },
        e == IoEvent::ChangeVolume(v) ==> r == if session {
            YouTubeRoute::Volume(v)
        } else {
            YouTubeRoute::Pass
        },
        e == IoEvent::StartPlayback(None, None, None) ==> r == if session {
            YouTubeRoute::Resume
        } else {
            YouTubeRoute::Pass
        },
        !session && (e is NextTrack || e is PreviousTrack || e is ForcePreviousTrack) ==> r
            == YouTubeRoute::Pass,
{
}

/// A video's id is what follows `youtube:` in its uri.
pub proof fn law_video_id_follows_the_scheme(t: TrackInfo)
    ensures
        video_of(t) matches Some(v) ==> t.uri matches Some(u) && u@ == "youtube:"@ + v,
        (t.uri matches Some(u) && has_prefix(u@, "youtube:"@)) ==> video_of(t) is Some,
{
    reveal_strlit("youtube:");
    if let Some(v) = video_of(t) {
        let u = t.uri->0;
        assert(u@ =~= "youtube:"@ + v);
    }
}

/// A start plays the requested video when it can: the start index clamped
/// into the queue, a track that is not a livestream, and the video id of
/// its uri. An empty queue, a livestream and a non-YouTube uri are refused.
pub proof fn law_start_plays_the_requested_video(tracks: Seq<TrackInfo>, start: nat)
    ensures
        tracks.len() == 0 <==> start_plan_of(tracks, start) == StartPlanView::Refuse(Refusal::NoVideos),
        start_plan_of(tracks, start) matches StartPlanView::Play(i, v) ==> {
            &&& i == (if start < tracks.len() { start } else { (tracks.len() - 1) as nat })
            &&& tracks[i as int].duration_ms != 0
            &&& tracks[i as int].uri matches Some(u) && u@ == "youtube:"@ + v
        },
        start_plan_of(tracks, start) == StartPlanView::Refuse(Refusal::Live) ==> tracks.len() > 0
            && tracks[(if start < tracks.len() { start } else { (tracks.len() - 1) as nat }) as int].duration_ms
            == 0,
{
    reveal_strlit("youtube:");
    if let StartPlanView::Play(i, v) = start_plan_of(tracks, start) {
        law_video_id_follows_the_scheme(tracks[i as int]);
    }
}

/// Playing the queued track at `target` downloads that track's video and
/// announces that track's name; past the queue nothing plays, and a
/// livestream or a non-YouTube uri ends the session.
pub proof fn law_play_index_plays_the_target(tracks: Seq<TrackInfo>, target: usize)
    ensures
        target >= tracks.len() <==> play_plan_of(tracks, target) == PlayPlanView::OutOfRange,
        play_plan_of(tracks, target) matches PlayPlanView::Play(v, name) ==> {
            &&& name == tracks[target as int].name@
            &&& tracks[target as int].duration_ms != 0
            &&& tracks[target as int].uri matches Some(u) && u@ == "youtube:"@ + v
        },
        (target < tracks.len() && tracks[target as int].duration_ms == 0) ==> play_plan_of(tracks, target)
            == PlayPlanView::EndSession(Refusal::Live),
{
    if target < tracks.len() {
        law_video_id_follows_the_scheme(tracks[target as int]);
    }
}

/// A uri is looked up in the track table first; the search results are
/// consulted only when the table has no row for it.
pub proof fn law_table_rows_come_first(table: Seq<TrackInfo>, search: Option<Seq<TrackInfo>>, uri: Seq<char>)
    ensures
        first_with_uri(table, uri) is Some ==> row_for_uri(table, search, uri) == first_with_uri(table, uri),
        (first_with_uri(table, uri) is None && search is Some) ==> row_for_uri(table, search, uri)
            == first_with_uri(search->0, uri),
        first_with_uri(table, uri) matches Some(t) ==> (t.uri matches Some(u) && u@ == uri),
{
    lemma_first_with_uri_has_it(table, uri);
}

/// When every requested video has a row, the snapshot holds one row per
/// uri, in the requested order.
pub proof fn law_snapshot_keeps_the_requested_order(
    table: Seq<TrackInfo>,
    search: Option<Seq<TrackInfo>>,
    uris: Seq<String>,
)
    requires
        forall|j: int| 0 <= j < uris.len() ==> (#[trigger] row_for_uri(table, search, uris[j]@)) is Some,
    ensures
        snapshot_of(table, search, uris).len() == uris.len(),
        forall|j: int|
            0 <= j < uris.len() ==> ((#[trigger] snapshot_of(table, search, uris)[j]).uri matches Some(u)
                && u@ == uris[j]@),
    decreases uris.len(),
{
    if uris.len() > 0 {
        let rest = uris.drop_last();
        assert forall|j: int| 0 <= j < rest.len() implies (#[trigger] row_for_uri(table, search, rest[j]@)) is Some by {
            assert(rest[j] == uris[j]);
        }
        law_snapshot_keeps_the_requested_order(table, search, rest);
        let last = uris.last()@;
        assert(row_for_uri(table, search, uris[uris.len() - 1]@) is Some);
        lemma_first_with_uri_has_it(table, last);
        if let Some(s) = search {
            lemma_first_with_uri_has_it(s, last);
        }
        let snap = snapshot_of(table, search, uris);
        let prev = snapshot_of(table, search, rest);
        assert forall|j: int| 0 <= j < uris.len() implies ((#[trigger] snapshot_of(table, search, uris)[j]).uri matches Some(u)
            && u@ == uris[j]@) by {
            if j < rest.len() {
                assert(snap[j] == prev[j]);
                assert(rest[j] == uris[j]);
            }
        }
    }
}

/// Looking up a video's row finds a row of that video (by its bare id, or
/// by its uri given either way) whenever the list has one, and only such
/// a row, taken from the list itself.
pub proof fn law_video_lookup_finds_the_video(ts: Seq<TrackInfo>, video_ref: Seq<char>, uri: Seq<char>)
    ensures
        first_video_row(ts, video_ref, uri) matches Some(t) ==> is_video_row(t, video_ref, uri)
            && ts.contains(t),
        (exists|i: int| 0 <= i < ts.len() && is_video_row(#[trigger] ts[i], video_ref, uri))
            ==> first_video_row(ts, video_ref, uri) is Some,
    decreases ts.len(),
{
    if ts.len() > 0 {
        law_video_lookup_finds_the_video(ts.drop_first(), video_ref, uri);
        if let Some(t) = first_video_row(ts, video_ref, uri) {
            if !is_video_row(ts[0], video_ref, uri) {
                let j = choose|j: int| 0 <= j < ts.drop_first().len() && ts.drop_first()[j] == t;
                assert(ts[j + 1] == t);
            } else {
                assert(ts[0] == t);
            }
        }
        if exists|i: int| 0 <= i < ts.len() && is_video_row(#[trigger] ts[i], video_ref, uri) {
            let i = choose|i: int| 0 <= i < ts.len() && is_video_row(#[trigger] ts[i], video_ref, uri);
            if i > 0 && !is_video_row(ts[0], video_ref, uri) {
                assert(ts.drop_first()[i - 1] == ts[i]);
            }
        }
    }
}

/// After rows go away the selection stays on a row: it is kept when that
/// row still exists and otherwise moves to the new last row.
pub proof fn law_selection_stays_on_a_remaining_row(selected: usize, len: usize)
    ensures
        len > 0 ==> clamped(selected, len) < len,
        selected < len ==> clamped(selected, len) == selected,
        (len > 0 && selected >= len) ==> clamped(selected, len) == len - 1,
{
}

} // verus!
