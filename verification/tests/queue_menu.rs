use spotatui::app::{App, AppRequest, IoEvent, Key};
use spotatui::queue_menu::{handler, move_selection, remove_selected, reorder};
use spotatui::track::TrackInfo;

fn track(uri: &str, name: &str) -> TrackInfo {
    TrackInfo {
        uri: Some(uri.to_string()),
        name: name.to_string(),
        artists: vec!["Artist".to_string()],
        album: "Album".to_string(),
        duration_ms: 1000,
        id: None,
        album_id: None,
        artist_refs: vec![],
        is_playable: true,
        is_local: false,
        track_number: 0,
        explicit: false,
        image_url: None,
    }
}

fn app_with_queue(names: &[&str]) -> App {
    let mut app = App::default();
    app.native_queue = names.iter().map(|n| track("spotify:track:x", n)).collect();
    app
}

fn names(app: &App) -> Vec<&str> {
    app.native_queue.iter().map(|t| t.name.as_str()).collect()
}

#[test]
fn move_selection_clamps_to_rows() {
    let mut app = app_with_queue(&["A", "B"]);
    app.queue_selected_index = 0;
    move_selection(-1, &mut app);
    assert_eq!(app.queue_selected_index, 0);
    move_selection(1, &mut app);
    move_selection(1, &mut app);
    move_selection(1, &mut app);
    move_selection(1, &mut app);
    assert_eq!(app.queue_selected_index, 2);
}

#[test]
fn remove_ignores_now_playing_row() {
    let mut app = app_with_queue(&["A", "B"]);
    app.queue_selected_index = 0;
    remove_selected(&mut app);
    assert_eq!(app.native_queue.len(), 2);
}

#[test]
fn remove_deletes_selected_and_clamps() {
    let mut app = app_with_queue(&["A", "B"]);
    app.queue_selected_index = 2;
    remove_selected(&mut app);
    assert_eq!(app.native_queue.len(), 1);
    assert_eq!(app.native_queue[0].name, "A");
    assert_eq!(app.queue_selected_index, 1);
}

#[test]
fn reorder_down_swaps_and_follows_item() {
    let mut app = app_with_queue(&["A", "B", "C"]);
    app.queue_selected_index = 1;
    reorder(1, &mut app);
    assert_eq!(names(&app), vec!["B", "A", "C"]);
    assert_eq!(app.queue_selected_index, 2);
}

#[test]
fn reorder_up_swaps_and_follows_item() {
    let mut app = app_with_queue(&["A", "B", "C"]);
    app.queue_selected_index = 3;
    reorder(-1, &mut app);
    assert_eq!(names(&app), vec!["A", "C", "B"]);
    assert_eq!(app.queue_selected_index, 2);
}

#[test]
fn reorder_at_bounds_is_noop() {
    let mut app = app_with_queue(&["A", "B"]);
    app.queue_selected_index = 1;
    reorder(-1, &mut app);
    assert_eq!(app.native_queue[0].name, "A");
    assert_eq!(app.queue_selected_index, 1);
    app.queue_selected_index = 2;
    reorder(1, &mut app);
    assert_eq!(app.native_queue[1].name, "B");
    assert_eq!(app.queue_selected_index, 2);
    app.queue_selected_index = 0;
    reorder(1, &mut app);
    assert_eq!(app.queue_selected_index, 0);
}

#[test]
fn enter_jumps_to_the_selected_item() {
    let mut app = app_with_queue(&["A", "B", "C"]);
    app.queue_selected_index = 2;
    handler(Key::Enter, &mut app);
    assert_eq!(names(&app), vec!["B", "C"]);
    assert_eq!(app.queue_selected_index, 1);
    assert_eq!(app.dispatched, vec![IoEvent::AdvanceNativeQueue]);
    assert_eq!(app.requests, vec![AppRequest::SuspendActiveContext]);
}

#[test]
fn reordering_down_then_up_restores_the_queue() {
    let mut app = app_with_queue(&["A", "B", "C"]);
    app.queue_selected_index = 2;
    handler(Key::Char('J'), &mut app);
    handler(Key::Char('K'), &mut app);
    assert_eq!(names(&app), vec!["A", "B", "C"]);
    assert_eq!(app.queue_selected_index, 2);
}
