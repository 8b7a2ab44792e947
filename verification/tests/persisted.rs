use spotatui::persisted::{legacy_session, session_from_parses, PersistedPlayback, PersistedSession, SessionError};
use spotatui::track::TrackInfo;

fn track(uri: &str, name: &str) -> TrackInfo {
    TrackInfo {
        uri: Some(uri.to_string()),
        name: name.to_string(),
        artists: vec!["Artist".to_string()],
        album: "Album".to_string(),
        duration_ms: 1000,
        id: None,
        album_id: None,
        artist_refs: vec![],
        is_playable: true,
        is_local: false,
        track_number: 0,
        explicit: false,
        image_url: None,
    }
}

fn youtube_playback() -> PersistedPlayback {
    PersistedPlayback::YouTube {
        tracks: vec![track("youtube:aaa", "Legacy A"), track("youtube:bbb", "Legacy B")],
        index: 1,
        position_ms: 12_345,
        paused: true,
    }
}

#[test]
fn current_format_is_taken_as_parsed() {
    let s = PersistedSession { playback: None, queue: vec![track("spotify:track:only", "Just Queued")] };
    assert_eq!(session_from_parses(Some(s.clone()), Some(youtube_playback())), Ok(s));
}

#[test]
fn legacy_playback_loads_with_an_empty_queue() {
    let loaded = session_from_parses(None, Some(youtube_playback())).unwrap();
    assert!(loaded.queue.is_empty());
    assert_eq!(loaded.playback, Some(youtube_playback()));
    assert_eq!(legacy_session(youtube_playback()), loaded);
}

#[test]
fn unreadable_formats_are_malformed() {
    assert_eq!(session_from_parses(None, None), Err(SessionError::Malformed));
}
