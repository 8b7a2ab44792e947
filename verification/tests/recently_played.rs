use spotatui::app::{ActiveBlock, App, AppRequest, DialogContext, IoEvent, Key, PendingTrackAdd};
use spotatui::recently_played::{handler, playable_uris_with_offset};
use spotatui::track::TrackInfo;

fn track(id: Option<&str>, name: &str) -> TrackInfo {
    TrackInfo {
        uri: None,
        name: name.to_string(),
        artists: vec![],
        album: String::new(),
        duration_ms: 1000,
        id: id.map(|i| i.to_string()),
        album_id: None,
        artist_refs: vec![],
        is_playable: true,
        is_local: id.is_none(),
        track_number: 0,
        explicit: false,
        image_url: None,
    }
}

#[test]
fn recently_played_on_left_press() {
    let mut app = App::default();
    app.set_current_route_state(Some(ActiveBlock::AlbumTracks), Some(ActiveBlock::AlbumTracks));

    handler(Key::Left, &mut app);
    let current_route = app.get_current_route();
    assert_eq!(current_route.active_block, ActiveBlock::Empty);
    assert_eq!(current_route.hovered_block, ActiveBlock::Library);
}

#[test]
fn recently_played_on_esc() {
    let mut app = App::default();

    handler(Key::Esc, &mut app);

    let current_route = app.get_current_route();
    assert_eq!(current_route.active_block, ActiveBlock::Empty);
}

#[test]
fn play_offset_skips_tracks_without_a_valid_id() {
    let items = vec![track(None, "Local"), track(Some("abc"), "A"), track(Some("not valid!"), "Bad"), track(Some("def"), "B")];
    let (uris, offset) = playable_uris_with_offset(&items, 3);
    assert_eq!(uris, vec!["abc".to_string(), "def".to_string()]);
    assert_eq!(offset, Some(1));
    let (_, none) = playable_uris_with_offset(&items, 0);
    assert_eq!(none, None);
}

#[test]
fn enter_starts_the_valid_tracks_at_the_remapped_offset() {
    let mut app = App::default();
    app.recently_played.result = Some(vec![track(None, "Local"), track(Some("abc"), "A")]);
    app.recently_played.index = 1;
    handler(Key::Enter, &mut app);
    assert_eq!(
        app.dispatched,
        vec![IoEvent::StartPlayback(None, Some(vec!["abc".to_string()]), Some(0))]
    );
}

#[test]
fn save_queue_and_playlist_keys_need_a_valid_id() {
    let mut app = App::default();
    app.recently_played.result = Some(vec![track(Some("abc"), "A"), track(None, "Local")]);
    handler(Key::Char('s'), &mut app);
    handler(Key::Char('z'), &mut app);
    assert_eq!(
        app.dispatched,
        vec![IoEvent::ToggleSaveTrack("abc".to_string()), IoEvent::AddItemToQueue("abc".to_string())]
    );
    app.recently_played.index = 1;
    handler(Key::Char('s'), &mut app);
    assert_eq!(app.dispatched.len(), 2);
    handler(Key::Char('w'), &mut app);
    assert_eq!(app.requests, vec![AppRequest::CannotAddToPlaylist("Local".to_string())]);
    assert_eq!(app.pending_playlist_track_add, None);
    app.recently_played.index = 0;
    handler(Key::Char('w'), &mut app);
    assert_eq!(
        app.pending_playlist_track_add,
        Some(PendingTrackAdd { track_id: "abc".to_string(), track_name: "A".to_string() })
    );
    assert_eq!(
        app.get_current_route().active_block,
        ActiveBlock::Dialog(DialogContext::AddTrackToPlaylistPicker)
    );
}

#[test]
fn moves_need_a_loaded_list() {
    let mut app = App::default();
    handler(Key::Down, &mut app);
    assert_eq!(app.recently_played.index, 0);
    app.recently_played.result = Some(vec![track(Some("a"), "A"), track(Some("b"), "B")]);
    handler(Key::Down, &mut app);
    assert_eq!(app.recently_played.index, 1);
    handler(Key::Down, &mut app);
    assert_eq!(app.recently_played.index, 0);
}
