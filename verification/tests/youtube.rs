use spotatui::app::{App, IoEvent, SearchResultBlock, SearchResults, TrackTableContext};
use spotatui::track::TrackInfo;
use spotatui::youtube::{
    begin_skip, commit_index, decode_hint, find_video_row, is_youtube_uri, plan_play_index,
    plan_youtube_start, publish_youtube_search, refusal_message, snapshot_tracks, uri_for_video_id,
    video_id_from_uri, youtube_route, Direction, PlayPlan, Refusal, StartPlan, YouTubeCursor,
    YouTubeRoute, forget_deleted_playlist, open_youtube_playlist, refresh_open_playlist, video_id_or_ref,
};

fn video(uri: &str, name: &str) -> TrackInfo {
    TrackInfo {
        uri: Some(uri.to_string()),
        name: name.to_string(),
        artists: vec!["Channel".to_string()],
        album: "YouTube".to_string(),
        duration_ms: 1000,
        id: None,
        album_id: None,
        artist_refs: vec![],
        is_playable: true,
        is_local: false,
        track_number: 0,
        explicit: false,
        image_url: None,
    }
}

#[test]
fn snapshot_finds_tracks_in_table_preserving_order() {
    let table = vec![video("youtube:aaa", "A"), video("youtube:bbb", "B")];
    let snap = snapshot_tracks(&table, None, &["youtube:bbb".to_string(), "youtube:aaa".to_string()]);
    assert_eq!(snap.len(), 2);
    assert_eq!(snap[0].name, "B");
    assert_eq!(snap[1].name, "A");
}

#[test]
fn snapshot_falls_back_to_search_results() {
    let table = vec![video("spotify:track:x", "Spotify Row")];
    let search = vec![video("youtube:searched123", "Searched")];
    let snap = snapshot_tracks(&table, Some(&search), &["youtube:searched123".to_string()]);
    assert_eq!(snap.len(), 1);
    assert_eq!(snap[0].name, "Searched");
}

#[test]
fn snapshot_drops_unknown_uris() {
    let table = vec![video("youtube:aaa", "A")];
    let snap = snapshot_tracks(&table, None, &["youtube:missing".to_string()]);
    assert!(snap.is_empty());
}

#[test]
fn snapshot_prefers_the_table_over_the_search_results() {
    let table = vec![video("youtube:dup", "From Table")];
    let search = vec![video("youtube:dup", "From Search")];
    let snap = snapshot_tracks(&table, Some(&search), &["youtube:dup".to_string()]);
    assert_eq!(snap[0].name, "From Table");
}

#[test]
fn youtube_uris_round_trip_through_video_ids() {
    assert!(is_youtube_uri("youtube:5NV6Rdv1a3I"));
    assert!(!is_youtube_uri("spotify:track:x"));
    assert_eq!(video_id_from_uri("youtube:5NV6Rdv1a3I").as_deref(), Some("5NV6Rdv1a3I"));
    assert_eq!(video_id_from_uri("radio:https://x"), None);
    assert_eq!(uri_for_video_id("5NV6Rdv1a3I"), "youtube:5NV6Rdv1a3I");
}

#[test]
fn foreign_events_pass_without_a_session() {
    assert_eq!(youtube_route(&IoEvent::PausePlayback, false), YouTubeRoute::Pass);
    assert_eq!(youtube_route(&IoEvent::NextTrack, false), YouTubeRoute::Pass);
    assert_eq!(youtube_route(&IoEvent::Seek(1000), false), YouTubeRoute::Pass);
    assert_eq!(youtube_route(&IoEvent::StartPlayback(None, None, None), false), YouTubeRoute::Pass);
    assert_eq!(
        youtube_route(&IoEvent::StartPlayback(Some("spotify:track:x".to_string()), None, None), false),
        YouTubeRoute::TeardownThenPass
    );
    assert_eq!(
        youtube_route(
            &IoEvent::StartPlayback(Some("radio:https://x.example/s".to_string()), None, None),
            false
        ),
        YouTubeRoute::TeardownThenPass
    );
}

#[test]
fn youtube_starts_and_transport_are_taken() {
    assert_eq!(
        youtube_route(
            &IoEvent::StartPlayback(None, Some(vec!["youtube:abc123".to_string()]), Some(0)),
            false
        ),
        YouTubeRoute::StartQueue(vec!["youtube:abc123".to_string()], 0)
    );
    assert_eq!(
        youtube_route(&IoEvent::StartPlayback(Some("youtube:one".to_string()), None, Some(4)), false),
        YouTubeRoute::StartQueue(vec!["youtube:one".to_string()], 0)
    );
    assert_eq!(youtube_route(&IoEvent::PausePlayback, true), YouTubeRoute::Pause);
    assert_eq!(youtube_route(&IoEvent::StartPlayback(None, None, None), true), YouTubeRoute::Resume);
    assert_eq!(youtube_route(&IoEvent::ForcePreviousTrack, true), YouTubeRoute::Skip(Direction::Prev));
    assert_eq!(youtube_route(&IoEvent::ChangeVolume(40), true), YouTubeRoute::Volume(40));
    assert_eq!(youtube_route(&IoEvent::GetYouTubePlaylists, false), YouTubeRoute::LoadPlaylists);
}

#[test]
fn livestream_and_bad_rows_are_refused() {
    assert_eq!(plan_youtube_start(&vec![], 0), StartPlan::Refuse(Refusal::NoVideos));
    let mut live = video("youtube:live12345", "24/7 Lofi Radio");
    live.duration_ms = 0;
    assert_eq!(plan_youtube_start(&vec![live], 0), StartPlan::Refuse(Refusal::Live));
    assert!(refusal_message(Refusal::Live).contains("Live streams"));
    let bad = video("spotify:track:x", "Not a video");
    assert_eq!(plan_youtube_start(&vec![bad], 0), StartPlan::Refuse(Refusal::BadUri));
}

#[test]
fn start_index_is_clamped_into_range() {
    let tracks = vec![video("youtube:a", "A"), video("youtube:b", "B")];
    assert_eq!(
        plan_youtube_start(&tracks, 9),
        StartPlan::Play { index: 1, video_id: "b".to_string() }
    );
    assert_eq!(
        plan_youtube_start(&tracks, 0),
        StartPlan::Play { index: 0, video_id: "a".to_string() }
    );
}

#[test]
fn skipping_moves_within_the_queue_and_stops_at_its_ends() {
    let mut cursor = YouTubeCursor {
        tracks: vec![video("youtube:a", "A"), video("youtube:b", "B")],
        index: 0,
        advancing: false,
    };
    assert_eq!(begin_skip(&mut cursor, Direction::Prev), None);
    assert!(!cursor.advancing);
    assert_eq!(begin_skip(&mut cursor, Direction::Next), Some(1));
    assert!(cursor.advancing);
    assert_eq!(
        plan_play_index(&cursor, 1),
        PlayPlan::Play { video_id: "b".to_string(), name: "B".to_string() }
    );
    assert_eq!(plan_play_index(&cursor, 2), PlayPlan::OutOfRange);
    assert_eq!(commit_index(&mut cursor, 1), Some("B".to_string()));
    assert_eq!(cursor.index, 1);
    assert!(!cursor.advancing);
    assert_eq!(begin_skip(&mut cursor, Direction::Next), None);
}

#[test]
fn decode_hint_wraps_the_error() {
    assert_eq!(
        decode_hint("bad container"),
        "Cannot play YouTube audio: bad container (installing ffmpeg fixes most container issues)"
    );
}

#[test]
fn search_results_fill_the_songs_block() {
    let mut sr = SearchResults::new();
    sr.selected_block = SearchResultBlock::AlbumSearch;
    publish_youtube_search(&mut sr, vec![video("youtube:a", "A"), video("youtube:b", "B")]);
    let tracks = sr.tracks.as_ref().unwrap();
    assert_eq!(tracks.items.len(), 2);
    assert_eq!(tracks.total, 2);
    assert_eq!(sr.selected_tracks_index, Some(0));
    assert_eq!(sr.hovered_block, SearchResultBlock::SongSearch);
    assert_eq!(sr.selected_block, SearchResultBlock::Empty);
    assert!(sr.albums.is_none());
}

#[test]
fn video_rows_are_found_by_id_or_uri() {
    let mut row = video("youtube:vid1234", "Cool Song");
    row.id = Some("vid1234".to_string());
    let table = vec![video("youtube:other", "Other")];
    let search = Some(spotatui::app::Paged {
        items: vec![row],
        offset: 0,
        limit: 0,
        total: 1,
        next: None,
        previous: None,
    });
    assert_eq!(find_video_row(&search, &table, "vid1234").unwrap().name, "Cool Song");
    assert_eq!(find_video_row(&search, &table, "youtube:vid1234").unwrap().name, "Cool Song");
    assert_eq!(find_video_row(&search, &table, "other").unwrap().name, "Other");
    assert!(find_video_row(&None, &table, "missing").is_none());
}

#[test]
fn open_playlists_follow_deletes_and_removals() {
    let mut app = App::default();
    open_youtube_playlist(&mut app, vec![video("youtube:a", "A"), video("youtube:b", "B")], "youtube:playlist:1".to_string());
    assert_eq!(app.track_table.context, Some(TrackTableContext::YouTubePlaylist));
    app.track_table.selected_index = 1;
    refresh_open_playlist(&mut app, "youtube:playlist:2", vec![]);
    assert_eq!(app.track_table.tracks.len(), 2);
    refresh_open_playlist(&mut app, "youtube:playlist:1", vec![video("youtube:a", "A")]);
    assert_eq!(app.track_table.tracks.len(), 1);
    assert_eq!(app.track_table.selected_index, 0);
    forget_deleted_playlist(&mut app, "youtube:playlist:2");
    assert_eq!(app.youtube_open_playlist.as_deref(), Some("youtube:playlist:1"));
    forget_deleted_playlist(&mut app, "youtube:playlist:1");
    assert_eq!(app.youtube_open_playlist, None);
}

#[test]
fn playlist_edits_accept_ids_or_uris() {

    assert_eq!(video_id_or_ref("youtube:vid1234"), "vid1234");
    assert_eq!(video_id_or_ref("vid1234"), "vid1234");
}
