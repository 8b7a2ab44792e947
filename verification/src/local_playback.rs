//! Which playback events the local-files source takes. A `file:` start is
//! its own; the transport keys are its own only while a local file owns the
//! session; any other start ends the local session and passes on.

use vstd::prelude::*;

use crate::app::IoEvent;
use crate::text::{has_prefix, starts_with};

verus! {

/// Whether a URI is owned by the local-files source.
pub fn is_file_uri(uri: &str) -> (b: bool)
    ensures
        b == has_prefix(uri@, "file:"@),
{
    starts_with(uri, "file:")
}

/// What the local-files source does with a playback event.
#[derive(Debug, Clone, PartialEq)]
pub enum LocalRoute {
    /// Play the local file at this uri.
    StartFile(String),
    Resume,
    Pause,
    Seek(u32),
    Volume(u8),
    /// Single-file playback has no queue: swallow the skip.
    SwallowSkip,
    /// Another source starts playing: end the local session, then let the
    /// event through.
    TeardownThenPass,
    /// Not the local source's event.
    Pass,
}

/// What the local source does with `e` when a local file does (`session`)
/// or does not own the session.
pub open spec fn local_route_of(e: IoEvent, session: bool) -> LocalRoute {
    match e {
        IoEvent::StartPlayback(ctx, list, off) => match ctx {
            Some(u) => if has_prefix(u@, "file:"@) {
                LocalRoute::StartFile(u)
            } else {
                LocalRoute::TeardownThenPass
            },
            None => if list is None && off is None {
                if session {
                    LocalRoute::Resume
                } else {
                    LocalRoute::Pass
                }
            } else {
                LocalRoute::TeardownThenPass
            },
        },
        IoEvent::PausePlayback => if session {
            LocalRoute::Pause
        } else {
            LocalRoute::Pass
        },
        IoEvent::Seek(ms) => if session {
            LocalRoute::Seek(ms)
        } else {
            LocalRoute::Pass
        },
        IoEvent::ChangeVolume(v) => if session {
            LocalRoute::Volume(v)
        } else {
            LocalRoute::Pass
        },
        IoEvent::NextTrack | IoEvent::PreviousTrack | IoEvent::ForcePreviousTrack => if session {
            LocalRoute::SwallowSkip
        } else {
            LocalRoute::Pass
        },
        _ => LocalRoute::Pass,
    }
}

/// Decide what the local source does with `event`, given whether a local
/// file owns the session.
pub fn local_route(event: &IoEvent, session: bool) -> (r: LocalRoute)
    ensures
        r == local_route_of(*event, session),
{
    match event {
        IoEvent::StartPlayback(ctx, list, off) => match ctx {
            Some(u) => if is_file_uri(u.as_str()) {
                LocalRoute::StartFile(u.clone())
            } else {
                LocalRoute::TeardownThenPass
            },
            None => if list.is_none() && off.is_none() {
                if session {
                    LocalRoute::Resume
                } else {
                    LocalRoute::Pass
                }
            } else {
                LocalRoute::TeardownThenPass
            },
        },
        IoEvent::PausePlayback => if session {
            LocalRoute::Pause
        } else {
            LocalRoute::Pass
        },
        IoEvent::Seek(ms) => if session {
            LocalRoute::Seek(*ms)
        } else {
            LocalRoute::Pass
        },
        IoEvent::ChangeVolume(v) => if session {
            LocalRoute::Volume(*v)
        } else {
            LocalRoute::Pass
        },
        IoEvent::NextTrack | IoEvent::PreviousTrack | IoEvent::ForcePreviousTrack => if session {
            LocalRoute::SwallowSkip
        } else {
            LocalRoute::Pass
        },
        _ => LocalRoute::Pass,
    }
}

/// Without a local session, only a `file:` start is the local source's: the
/// transport keys and bare resumes pass on untouched.
pub proof fn law_idle_local_source_takes_only_file_starts(e: IoEvent)
    ensures
        local_route_of(e, false) != LocalRoute::Pass ==> e is StartPlayback,
        local_route_of(e, false) is StartFile ==> (e matches IoEvent::StartPlayback(Some(u), _, _)
            && has_prefix(u@, "file:"@)),
{
}

/// While a local file owns the session its player takes the transport:
/// a bare resume resumes it, pause pauses it, a seek to `ms` seeks it to
/// `ms`, a volume change sets it to `v`, and the skip keys are swallowed
/// (single-file playback has no next track). A start of a `file:` uri plays
/// that file; any other start ends the local session and passes on.
pub proof fn law_local_session_owns_the_transport(ms: u32, v: u8, u: String, list: Option<Vec<String>>, off: Option<usize>)
    ensures
        local_route_of(IoEvent::StartPlayback(None, None, None), true) == LocalRoute::Resume,
        local_route_of(IoEvent::PausePlayback, true) == LocalRoute::Pause,
        local_route_of(IoEvent::Seek(ms), true) == LocalRoute::Seek(ms),
        local_route_of(IoEvent::ChangeVolume(v), true) == LocalRoute::Volume(v),
        local_route_of(IoEvent::NextTrack, true) == LocalRoute::SwallowSkip,
        local_route_of(IoEvent::PreviousTrack, true) == LocalRoute::SwallowSkip,
        local_route_of(IoEvent::ForcePreviousTrack, true) == LocalRoute::SwallowSkip,
        has_prefix(u@, "file:"@) ==> local_route_of(IoEvent::StartPlayback(Some(u), list, off), true)
            == LocalRoute::StartFile(u) && local_route_of(
            IoEvent::StartPlayback(Some(u), list, off),
            false,
        ) == LocalRoute::StartFile(u),
        !has_prefix(u@, "file:"@) ==> local_route_of(IoEvent::StartPlayback(Some(u), list, off), true)
            == LocalRoute::TeardownThenPass,
{
}

} // verus!
