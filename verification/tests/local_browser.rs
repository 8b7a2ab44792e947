use spotatui::app::{ActiveBlock, App, IoEvent, Key, LocalFolder, RouteId, TrackTableContext};
use spotatui::local_browser::handler;

fn folder(name: &str) -> LocalFolder {
    LocalFolder { name: name.to_string(), uri: format!("file:///music/{name}") }
}

#[test]
fn folder_moves_wrap() {
    let mut app = App::default();
    app.local_playlists = vec![folder("a"), folder("b")];
    handler(Key::Up, &mut app);
    assert_eq!(app.local_playlists_index, 1);
    handler(Key::Char('j'), &mut app);
    assert_eq!(app.local_playlists_index, 0);
}

#[test]
fn enter_opens_the_folder_in_the_track_table() {
    let mut app = App::default();
    app.local_playlists = vec![folder("a"), folder("b")];
    app.local_playlists_index = 1;
    handler(Key::Enter, &mut app);
    assert!(app.track_table.tracks.is_empty());
    assert_eq!(app.track_table.context, Some(TrackTableContext::LocalPlaylist));
    assert_eq!(app.dispatched, vec![IoEvent::GetLocalTracks("file:///music/b".to_string())]);
    let route = app.get_current_route();
    assert_eq!(route.id, RouteId::TrackTable);
    assert_eq!(route.active_block, ActiveBlock::TrackTable);
}

#[test]
fn enter_without_folders_does_nothing() {
    let mut app = App::default();
    handler(Key::Enter, &mut app);
    assert!(app.dispatched.is_empty());
    assert_eq!(app.navigation_stack.len(), 1);
}
