//! The last non-Spotify playback session, kept across restarts: which
//! track or queue was playing, where in it, whether it was paused, plus the
//! native queue. The file is read and written outside; this module holds
//! the session's shape and decides what a read file amounts to.

use vstd::prelude::*;

use crate::track::TrackInfo;

verus! {

/// A snapshot of the non-Spotify playback, enough to resume it. One variant
/// per source.
#[derive(Clone, Debug, PartialEq)]
pub enum PersistedPlayback {
    /// Local files: the `file://` uri queue (tags are re-read from disk).
    Local { queue: Vec<String>, index: usize, position_ms: u64, paused: bool },
    /// Subsonic: full track metadata plus the queue position.
    Subsonic { tracks: Vec<TrackInfo>, index: usize, position_ms: u64, paused: bool },
    /// YouTube: full track metadata plus the queue position.
    YouTube { tracks: Vec<TrackInfo>, index: usize, position_ms: u64, paused: bool },
    /// Radio: one station to reconnect to (a stream has no position).
    Radio { station: TrackInfo, paused: bool },
}

/// The full persisted session: the active non-Spotify playback, if any, and
/// the native queue.
#[derive(Clone, Debug, PartialEq, Default)]
pub struct PersistedSession {
    pub playback: Option<PersistedPlayback>,
    pub queue: Vec<TrackInfo>,
}

/// Why a session file could not be used.
#[derive(Clone, Copy, Debug, PartialEq, Eq, Structural)]
pub enum SessionError {
    /// The file is in neither the current nor the legacy format.
    Malformed,
}

/// A file written before the queue existed holds a bare playback: it loads
/// as that playback with an empty queue.
pub fn legacy_session(playback: PersistedPlayback) -> (s: PersistedSession)
    ensures
        s.playback == Some(playback),
        s.queue@.len() == 0,
{
    PersistedSession { playback: Some(playback), queue: Vec::new() }
}

/// What a session file amounts to, from its parse in the current format
/// and (tried only when that fails) in the legacy format: the current
/// session as parsed; else the legacy playback with an empty queue; else a
/// malformed file.
pub fn session_from_parses(
    current: Option<PersistedSession>,
    legacy: Option<PersistedPlayback>,
) -> (r: Result<PersistedSession, SessionError>)
    ensures
        match current {
            Some(s) => r == Ok::<PersistedSession, SessionError>(s),
            None => match legacy {
                Some(p) => r matches Ok(s) && s.playback == Some(p) && s.queue@.len() == 0,
                None => r == Err::<PersistedSession, SessionError>(SessionError::Malformed),
            },
        },
{
    match current {
        Some(s) => Ok(s),
        None => match legacy {
            Some(p) => Ok(legacy_session(p)),
            None => Err(SessionError::Malformed),
        },
    }
}

} // verus!
