use spotatui::album_tracks::handler;
use spotatui::app::{
    ActiveBlock, AlbumInfo, AlbumTableContext, App, AppRequest, FullAlbum, IoEvent, Key,
    RecommendationsContext, SelectedAlbum,
};
use spotatui::track::TrackInfo;

fn track(id: Option<&str>, name: &str) -> TrackInfo {
    TrackInfo {
        uri: id.map(|i| format!("spotify:track:{i}")),
        name: name.to_string(),
        artists: vec!["Artist".to_string()],
        album: "Album".to_string(),
        duration_ms: 1000,
        id: id.map(|i| i.to_string()),
        album_id: None,
        artist_refs: vec![],
        is_playable: true,
        is_local: false,
        track_number: 0,
        explicit: false,
        image_url: None,
    }
}

fn album() -> AlbumInfo {
    AlbumInfo {
        id: Some("album1".to_string()),
        uri: Some("spotify:album:album1".to_string()),
        name: "An Album".to_string(),
        artists: vec![],
        album_type: None,
    }
}

fn app_with_simplified(tracks: Vec<TrackInfo>, selected_index: usize) -> App {
    let mut app = App::default();
    app.album_table_context = AlbumTableContext::Simplified;
    app.selected_album_simplified = Some(SelectedAlbum { album: album(), tracks, selected_index });
    app
}

#[test]
fn album_tracks_on_left_press() {
    let mut app = App::default();
    app.set_current_route_state(Some(ActiveBlock::AlbumTracks), Some(ActiveBlock::AlbumTracks));

    handler(Key::Left, &mut app);
    let current_route = app.get_current_route();
    assert_eq!(current_route.active_block, ActiveBlock::Empty);
    assert_eq!(current_route.hovered_block, ActiveBlock::Library);
}

#[test]
fn album_tracks_on_esc() {
    let mut app = App::default();

    handler(Key::Esc, &mut app);

    let current_route = app.get_current_route();
    assert_eq!(current_route.active_block, ActiveBlock::Empty);
}

#[test]
fn album_moves_wrap_and_jump() {
    let mut app = app_with_simplified(vec![track(Some("a"), "A"), track(Some("b"), "B"), track(Some("c"), "C")], 2);
    handler(Key::Down, &mut app);
    assert_eq!(app.selected_album_simplified.as_ref().unwrap().selected_index, 0);
    handler(Key::Up, &mut app);
    assert_eq!(app.selected_album_simplified.as_ref().unwrap().selected_index, 2);
    handler(Key::Char('M'), &mut app);
    assert_eq!(app.selected_album_simplified.as_ref().unwrap().selected_index, 1);
    handler(Key::Char('H'), &mut app);
    assert_eq!(app.selected_album_simplified.as_ref().unwrap().selected_index, 0);
    handler(Key::Char('L'), &mut app);
    assert_eq!(app.selected_album_simplified.as_ref().unwrap().selected_index, 2);
}

#[test]
fn full_album_high_resets_the_cursor_even_without_an_album() {
    let mut app = App::default();
    app.album_table_context = AlbumTableContext::Full;
    app.saved_album_tracks_index = 5;
    handler(Key::Char('H'), &mut app);
    assert_eq!(app.saved_album_tracks_index, 0);
    app.saved_album_tracks_index = 5;
    handler(Key::Char('L'), &mut app);
    assert_eq!(app.saved_album_tracks_index, 5);
}

#[test]
fn enter_plays_the_album_from_the_cursor() {
    let mut app = App::default();
    app.album_table_context = AlbumTableContext::Full;
    app.selected_album_full = Some(FullAlbum { album: album(), tracks: vec![track(Some("a"), "A"), track(Some("b"), "B")] });
    app.saved_album_tracks_index = 1;
    handler(Key::Enter, &mut app);
    assert_eq!(
        app.dispatched,
        vec![IoEvent::StartPlayback(Some("spotify:album:album1".to_string()), None, Some(1))]
    );
}

#[test]
fn save_keys_toggle_the_track_and_save_the_album() {
    let mut app = app_with_simplified(vec![track(Some("a"), "A"), track(None, "Local")], 0);
    handler(Key::Char('s'), &mut app);
    handler(Key::Char('w'), &mut app);
    assert_eq!(
        app.dispatched,
        vec![
            IoEvent::ToggleSaveTrack("a".to_string()),
            IoEvent::CurrentUserSavedAlbumAdd("album1".to_string())
        ]
    );
    app.selected_album_simplified.as_mut().unwrap().selected_index = 1;
    handler(Key::Char('s'), &mut app);
    assert_eq!(app.dispatched.len(), 2);
}

#[test]
fn recommend_and_queue_use_the_track_under_the_cursor() {
    let mut app = app_with_simplified(vec![track(Some("a"), "A")], 0);
    handler(Key::Char('r'), &mut app);
    assert_eq!(app.recommendations_context, Some(RecommendationsContext::Song));
    assert_eq!(app.recommendations_seed, "A");
    handler(Key::Char('z'), &mut app);
    assert_eq!(app.requests.len(), 2);
    assert_eq!(app.requests[0], AppRequest::RecommendationsForTrack("a".to_string()));
    assert_eq!(app.requests[1], AppRequest::AddTrackToNativeQueue(track(Some("a"), "A")));
}
