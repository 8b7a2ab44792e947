//! Key handling for the local-files folder browser: a list of folders (one
//! per subdirectory of the music directory). Enter opens a folder's tracks in
//! the shared track table.

use vstd::prelude::*;

use crate::app::{
    apply_move, down_event, handle_left_event, high_event, is_down, is_left, is_up, left_event,
    low_event, middle_event, moved_row, nothing_changes, only_changes, up_event, ActiveBlock,
    App, Changes, IoEvent, Key, KeyBindings, ListMove, Route, RouteId, TrackTableContext,
};
use crate::search_results::{left_out_of_view, stock_bindings};

verus! {

/// The key classes of the folder browser, in the order they are tested.
pub enum FolderKey {
    Left,
    Move(ListMove),
    Open,
    Other,
}

/// How the folder browser reads a key.
pub open spec fn classify_folder_key(key: Key, keys: KeyBindings) -> FolderKey {
    if is_left(key, keys) {
        FolderKey::Left
    } else if is_down(key, keys) {
        FolderKey::Move(ListMove::Down)
    } else if is_up(key, keys) {
        FolderKey::Move(ListMove::Up)
    } else if key == Key::Char('H') {
        FolderKey::Move(ListMove::High)
    } else if key == Key::Char('M') {
        FolderKey::Move(ListMove::Middle)
    } else if key == Key::Char('L') {
        FolderKey::Move(ListMove::Low)
    } else if key == Key::Enter {
        FolderKey::Open
    } else {
        FolderKey::Other
    }
}

/// The effect of `key` on the folder browser, from `a` to `b`.
pub open spec fn folder_key_effect(a: App, b: App, key: Key) -> bool {
    match classify_folder_key(key, a.keys) {
        FolderKey::Left => {
            &&& left_out_of_view(a.navigation_stack@, b.navigation_stack@)
            &&& only_changes(a, b, Changes { nav: true, ..nothing_changes() })
        },
        FolderKey::Move(m) => {
            &&& b.local_playlists_index == moved_row(
                m,
                a.local_playlists@.len(),
                Some(a.local_playlists_index),
            )
            &&& b.local_playlists == a.local_playlists
            &&& only_changes(a, b, Changes { local: true, ..nothing_changes() })
        },
        FolderKey::Open => if a.local_playlists_index < a.local_playlists@.len() {
            let folder = a.local_playlists@[a.local_playlists_index as int];
            &&& b.track_table.tracks@.len() == 0
            &&& b.track_table.selected_index == 0
            &&& b.track_table.context == Some(TrackTableContext::LocalPlaylist)
            &&& b.dispatched@ == a.dispatched@.push(IoEvent::GetLocalTracks(folder.uri))
            &&& b.navigation_stack@ == a.navigation_stack@.push(
                Route {
                    id: RouteId::TrackTable,
                    active_block: ActiveBlock::TrackTable,
                    hovered_block: ActiveBlock::TrackTable,
                },
            )
            &&& only_changes(
                a,
                b,
                Changes { track_table: true, dispatched: true, nav: true, ..nothing_changes() },
            )
        } else {
            only_changes(a, b, nothing_changes())
        },
        FolderKey::Other => only_changes(a, b, nothing_changes()),
    }
}

/// Handle a key on the folder browser.
pub fn handler(key: Key, app: &mut App)
    ensures
        folder_key_effect(*old(app), *final(app), key),
{
    let keys = app.keys;
    let n = app.local_playlists.len();
    let sel = app.local_playlists_index;
    if left_event(key, &keys) {
        handle_left_event(app);
    } else if down_event(key, &keys) {
        app.local_playlists_index = apply_move(ListMove::Down, n, Some(sel));
    } else if up_event(key, &keys) {
        app.local_playlists_index = apply_move(ListMove::Up, n, Some(sel));
    } else if high_event(key) {
        app.local_playlists_index = apply_move(ListMove::High, n, Some(sel));
    } else if middle_event(key) {
        app.local_playlists_index = apply_move(ListMove::Middle, n, Some(sel));
    } else if low_event(key) {
        app.local_playlists_index = apply_move(ListMove::Low, n, Some(sel));
    } else if key == Key::Enter {
        if sel < n {
            let uri = app.local_playlists[sel].uri.clone();
            app.track_table.tracks = Vec::new();
            app.track_table.selected_index = 0;
            app.track_table.context = Some(TrackTableContext::LocalPlaylist);
            app.dispatch(IoEvent::GetLocalTracks(uri));
            app.push_navigation_stack(RouteId::TrackTable, ActiveBlock::TrackTable);
        }
    }
}

/// With the stock bindings, Enter opens the folder under the cursor: the
/// track table is emptied and shown for local files, that folder's tracks
/// are asked for, and the track table becomes the active view. Down and up
/// move the cursor through the folders, wrapping at the ends.
pub proof fn law_enter_opens_the_folder_under_the_cursor(a: App, b: App, key: Key)
    requires
        folder_key_effect(a, b, key),
        stock_bindings(a.keys),
        a.local_playlists_index < a.local_playlists@.len(),
    ensures
        key == Key::Enter ==> b.dispatched@ == a.dispatched@.push(
            IoEvent::GetLocalTracks(a.local_playlists@[a.local_playlists_index as int].uri),
        ) && b.track_table.context == Some(TrackTableContext::LocalPlaylist)
            && b.navigation_stack@.last().active_block == ActiveBlock::TrackTable,
        (key == Key::Down || key == Key::Char('j')) ==> b.local_playlists_index == (a.local_playlists_index
            + 1) % (a.local_playlists@.len() as int),
        (key == Key::Up || key == Key::Char('k')) ==> b.local_playlists_index == (a.local_playlists_index
            + a.local_playlists@.len() - 1) % (a.local_playlists@.len() as int),
{
    crate::app::law_moves_step_cyclically(a.local_playlists@.len(), a.local_playlists_index);
}

} // verus!
