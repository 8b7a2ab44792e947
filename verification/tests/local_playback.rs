use spotatui::app::IoEvent;
use spotatui::local_playback::{is_file_uri, local_route, LocalRoute};

#[test]
fn file_uris_start_local_playback() {
    assert!(is_file_uri("file:///music/a.mp3"));
    assert!(!is_file_uri("spotify:track:x"));
    assert_eq!(
        local_route(&IoEvent::StartPlayback(Some("file:///music/a.mp3".to_string()), None, None), false),
        LocalRoute::StartFile("file:///music/a.mp3".to_string())
    );
}

#[test]
fn transport_is_local_only_during_a_local_session() {
    assert_eq!(local_route(&IoEvent::PausePlayback, false), LocalRoute::Pass);
    assert_eq!(local_route(&IoEvent::PausePlayback, true), LocalRoute::Pause);
    assert_eq!(local_route(&IoEvent::Seek(5), true), LocalRoute::Seek(5));
    assert_eq!(local_route(&IoEvent::NextTrack, true), LocalRoute::SwallowSkip);
    assert_eq!(local_route(&IoEvent::NextTrack, false), LocalRoute::Pass);
    assert_eq!(local_route(&IoEvent::StartPlayback(None, None, None), true), LocalRoute::Resume);
    assert_eq!(local_route(&IoEvent::StartPlayback(None, None, None), false), LocalRoute::Pass);
}

#[test]
fn other_starts_end_the_local_session() {
    assert_eq!(
        local_route(&IoEvent::StartPlayback(Some("spotify:track:x".to_string()), None, None), true),
        LocalRoute::TeardownThenPass
    );
    assert_eq!(
        local_route(&IoEvent::StartPlayback(None, Some(vec!["spotify:track:x".to_string()]), Some(0)), false),
        LocalRoute::TeardownThenPass
    );
}
