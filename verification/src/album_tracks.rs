//! Key handling for an album's track table. The table shows either a full
//! album (its tracks and a cursor kept on the interface state) or a
//! simplified album (whose cursor travels with it).

use vstd::prelude::*;

use crate::app::{
    apply_move, current_route, down_event, handle_left_event, high_event, is_down, is_left,
    is_up, left_event, low_event, middle_event, moved_row, nothing_changes, only_changes,
    up_event, AlbumInfo, AlbumTableContext, App, AppRequest, Changes, IoEvent, Key,
    KeyBindings, ListMove, RecommendationsContext, Route, SelectedAlbum,
};
use crate::search_results::{left_out_of_view, stock_bindings};
use crate::track::{same_track, TrackInfo};

verus! {

// ---------------------------------------------------------------------------
// Specification
// ---------------------------------------------------------------------------

/// The rows of the album on show, when there is one.
pub open spec fn album_rows(a: App) -> Option<Seq<TrackInfo>> {
    match a.album_table_context {
        AlbumTableContext::Full => match a.selected_album_full {
            Some(f) => Some(f.tracks@),
            None => None,
        },
        AlbumTableContext::Simplified => match a.selected_album_simplified {
            Some(s) => Some(s.tracks@),
            None => None,
        },
    }
}

/// The album on show, when there is one.
pub open spec fn album_on_show(a: App) -> Option<AlbumInfo> {
    match a.album_table_context {
        AlbumTableContext::Full => match a.selected_album_full {
            Some(f) => Some(f.album),
            None => None,
        },
        AlbumTableContext::Simplified => match a.selected_album_simplified {
            Some(s) => Some(s.album),
            None => None,
        },
    }
}

/// The cursor of the table on show.
pub open spec fn album_cursor(a: App) -> usize {
    match a.album_table_context {
        AlbumTableContext::Full => a.saved_album_tracks_index,
        AlbumTableContext::Simplified => match a.selected_album_simplified {
            Some(s) => s.selected_index,
            None => 0,
        },
    }
}

/// The track under the cursor, when the cursor is on a row.
pub open spec fn album_selected_track(a: App) -> Option<TrackInfo> {
    match album_rows(a) {
        Some(rows) => if album_cursor(a) < rows.len() {
            Some(rows[album_cursor(a) as int])
        } else {
            None
        },
        None => None,
    }
}

/// `b` is `a` with the cursor of the table on show at `v` (for a simplified
/// table, only when there is an album to carry it).
pub open spec fn album_cursor_moved(a: App, b: App, v: usize) -> bool {
    &&& match a.album_table_context {
        AlbumTableContext::Full => {
            &&& b.saved_album_tracks_index == v
            &&& b.selected_album_simplified == a.selected_album_simplified
        },
        AlbumTableContext::Simplified => {
            &&& b.saved_album_tracks_index == a.saved_album_tracks_index
            &&& b.selected_album_simplified == match a.selected_album_simplified {
                Some(s) => Some(SelectedAlbum { selected_index: v, ..s }),
                None => None,
            }
        },
    }
    &&& b.album_table_context == a.album_table_context
    &&& b.selected_album_full == a.selected_album_full
    &&& only_changes(a, b, Changes { album: true, ..nothing_changes() })
}

/// The effect of a list move on the table: the cursor moves within the rows
/// of the album on show. With no album, only a jump to the top of a full
/// table moves the cursor (to row 0).
pub open spec fn album_move_effect(a: App, b: App, m: ListMove) -> bool {
    match album_rows(a) {
        Some(rows) => album_cursor_moved(a, b, moved_row(m, rows.len(), Some(album_cursor(a))) as usize),
        None => if m == ListMove::High && a.album_table_context == AlbumTableContext::Full {
            album_cursor_moved(a, b, 0)
        } else {
            only_changes(a, b, nothing_changes())
        },
    }
}

/// `b` is `a` with `e` handed to the playback/network side.
pub open spec fn dispatched_one(a: App, b: App, e: IoEvent) -> bool {
    &&& b.dispatched@ == a.dispatched@.push(e)
    &&& only_changes(a, b, Changes { dispatched: true, ..nothing_changes() })
}

/// `b` is `a` with one more request, which `p` accepts.
pub open spec fn requested_one(a: App, b: App, p: spec_fn(AppRequest) -> bool) -> bool {
    &&& b.requests@.len() == a.requests@.len() + 1
    &&& b.requests@.drop_last() == a.requests@
    &&& p(b.requests@.last())
}

/// The request to queue a copy of `t`.
pub open spec fn queues_track(t: TrackInfo) -> spec_fn(AppRequest) -> bool {
    |r: AppRequest| r matches AppRequest::AddTrackToNativeQueue(x) && same_track(x, t)
}

/// The request for recommendations seeded by the track `id`.
pub open spec fn recommends_for(id: String) -> spec_fn(AppRequest) -> bool {
    |r: AppRequest| r == AppRequest::RecommendationsForTrack(id)
}

/// The key classes of the album table, in the order they are tested.
pub enum AlbumKey {
    Left,
    Move(ListMove),
    SaveTrack,
    SaveAlbum,
    Play,
    Recommend,
    AddToQueue,
    Other,
}

/// How the album table reads a key.
pub open spec fn classify_album_key(key: Key, keys: KeyBindings) -> AlbumKey {
    if is_left(key, keys) {
        AlbumKey::Left
    } else if is_down(key, keys) {
        AlbumKey::Move(ListMove::Down)
    } else if is_up(key, keys) {
        AlbumKey::Move(ListMove::Up)
    } else if key == Key::Char('H') {
        AlbumKey::Move(ListMove::High)
    } else if key == Key::Char('M') {
        AlbumKey::Move(ListMove::Middle)
    } else if key == Key::Char('L') {
        AlbumKey::Move(ListMove::Low)
    } else if key == Key::Char('s') {
        AlbumKey::SaveTrack
    } else if key == Key::Char('w') {
        AlbumKey::SaveAlbum
    } else if key == Key::Enter {
        AlbumKey::Play
    } else if key == Key::Char('r') {
        AlbumKey::Recommend
    } else if key == keys.add_item_to_queue {
        AlbumKey::AddToQueue
    } else {
        AlbumKey::Other
    }
}

/// The effect of `key` on the album table, from `a` to `b`.
pub open spec fn album_key_effect(a: App, b: App, key: Key) -> bool {
    match classify_album_key(key, a.keys) {
        AlbumKey::Left => {
            &&& left_out_of_view(a.navigation_stack@, b.navigation_stack@)
            &&& only_changes(a, b, Changes { nav: true, ..nothing_changes() })
        },
        AlbumKey::Move(m) => album_move_effect(a, b, m),
        AlbumKey::SaveTrack => match album_selected_track(a) {
            Some(t) => match t.id {
                Some(id) => dispatched_one(a, b, IoEvent::ToggleSaveTrack(id)),
                None => only_changes(a, b, nothing_changes()),
            },
            None => only_changes(a, b, nothing_changes()),
        },
        AlbumKey::SaveAlbum => match album_on_show(a) {
            Some(al) => match al.id {
                Some(id) => dispatched_one(a, b, IoEvent::CurrentUserSavedAlbumAdd(id)),
                None => only_changes(a, b, nothing_changes()),
            },
            None => only_changes(a, b, nothing_changes()),
        },
        AlbumKey::Play => match album_on_show(a) {
            Some(al) => dispatched_one(
                a,
                b,
                IoEvent::StartPlayback(al.uri, None, Some(album_cursor(a))),
            ),
            None => only_changes(a, b, nothing_changes()),
        },
        AlbumKey::Recommend => match album_selected_track(a) {
            Some(t) => match t.id {
                Some(id) => {
                    &&& b.recommendations_context == Some(RecommendationsContext::Song)
                    &&& b.recommendations_seed == t.name
                    &&& requested_one(a, b, recommends_for(id))
                    &&& only_changes(
                        a,
                        b,
                        Changes { recommendations: true, requests: true, ..nothing_changes() },
                    )
                },
                None => only_changes(a, b, nothing_changes()),
            },
            None => only_changes(a, b, nothing_changes()),
        },
        AlbumKey::AddToQueue => match album_selected_track(a) {
            Some(t) => {
                &&& requested_one(a, b, queues_track(t))
                &&& only_changes(a, b, Changes { requests: true, ..nothing_changes() })
            },
            None => only_changes(a, b, nothing_changes()),
        },
        AlbumKey::Other => only_changes(a, b, nothing_changes()),
    }
}

// ---------------------------------------------------------------------------
// Operations
// ---------------------------------------------------------------------------

/// The number of rows of the album on show.
fn album_row_count(app: &App) -> (r: Option<usize>)
    ensures
        match (r, album_rows(*app)) {
            (Some(n), Some(rows)) => n == rows.len(),
            (None, None) => true,
            _ => false,
        },
{
    match app.album_table_context {
        AlbumTableContext::Full => match &app.selected_album_full {
            Some(f) => Some(f.tracks.len()),
            None => None,
        },
        AlbumTableContext::Simplified => match &app.selected_album_simplified {
            Some(s) => Some(s.tracks.len()),
            None => None,
        },
    }
}

/// The cursor of the table on show.
fn cursor(app: &App) -> (r: usize)
    ensures
        r == album_cursor(*app),
{
    match app.album_table_context {
        AlbumTableContext::Full => app.saved_album_tracks_index,
        AlbumTableContext::Simplified => match &app.selected_album_simplified {
            Some(s) => s.selected_index,
            None => 0,
        },
    }
}

/// Put the cursor of the table on show at `v`.
fn set_cursor(app: &mut App, v: usize)
    ensures
        album_cursor_moved(*old(app), *final(app), v),
{
    match app.album_table_context {
        AlbumTableContext::Full => app.saved_album_tracks_index = v,
        AlbumTableContext::Simplified => {
            if let Some(s) = &mut app.selected_album_simplified {
                s.selected_index = v;
            }
        },
    }
}

/// A copy of the track under the cursor, when the cursor is on a row.
fn selected_track(app: &App) -> (r: Option<TrackInfo>)
    ensures
        match (r, album_selected_track(*app)) {
            (Some(x), Some(t)) => same_track(x, t),
            (None, None) => true,
            _ => false,
        },
{
    let i = cursor(app);
    match app.album_table_context {
        AlbumTableContext::Full => match &app.selected_album_full {
            Some(f) => if i < f.tracks.len() {
                Some(f.tracks[i].duplicate())
            } else {
                None
            },
            None => None,
        },
        AlbumTableContext::Simplified => match &app.selected_album_simplified {
            Some(s) => if i < s.tracks.len() {
                Some(s.tracks[i].duplicate())
            } else {
                None
            },
            None => None,
        },
    }
}

/// A move in the table.
fn handle_move(app: &mut App, m: ListMove)
    ensures
        album_move_effect(*old(app), *final(app), m),
{
    match album_row_count(app) {
        Some(n) => {
            let sel = cursor(app);
            let next = apply_move(m, n, Some(sel));
            set_cursor(app, next);
        },
        None => {
            if let ListMove::High = m {
                if let AlbumTableContext::Full = app.album_table_context {
                    set_cursor(app, 0);
                }
            }
        },
    }
}

/// Jump to the top of the table.
fn handle_high_event(app: &mut App)
    ensures
        album_move_effect(*old(app), *final(app), ListMove::High),
{
    handle_move(app, ListMove::High);
}

/// Jump to the middle of the table.
fn handle_middle_event(app: &mut App)
    ensures
        album_move_effect(*old(app), *final(app), ListMove::Middle),
{
    handle_move(app, ListMove::Middle);
}

/// Jump to the bottom of the table.
fn handle_low_event(app: &mut App)
    ensures
        album_move_effect(*old(app), *final(app), ListMove::Low),
{
    handle_move(app, ListMove::Low);
}

/// Ask for recommendations seeded by the track under the cursor.
fn handle_recommended_tracks(app: &mut App)
    ensures
        match album_selected_track(*old(app)) {
            Some(t) => match t.id {
                Some(id) => {
                    &&& final(app).recommendations_context == Some(RecommendationsContext::Song)
                    &&& final(app).recommendations_seed == t.name
                    &&& requested_one(*old(app), *final(app), recommends_for(id))
                    &&& only_changes(
                        *old(app),
                        *final(app),
                        Changes { recommendations: true, requests: true, ..nothing_changes() },
                    )
                },
                None => only_changes(*old(app), *final(app), nothing_changes()),
            },
            None => only_changes(*old(app), *final(app), nothing_changes()),
        },
{
    if let Some(track) = selected_track(app) {
        if let Some(id) = &track.id {
            app.recommendations_context = Some(RecommendationsContext::Song);
            app.recommendations_seed = track.name.clone();
            app.request(AppRequest::RecommendationsForTrack(id.clone()));
            assert(app.requests@.drop_last() =~= old(app).requests@);
        }
    }
}

/// Save (or unsave) the track under the cursor.
fn handle_save_event(app: &mut App)
    ensures
        match album_selected_track(*old(app)) {
            Some(t) => match t.id {
                Some(id) => dispatched_one(*old(app), *final(app), IoEvent::ToggleSaveTrack(id)),
                None => only_changes(*old(app), *final(app), nothing_changes()),
            },
            None => only_changes(*old(app), *final(app), nothing_changes()),
        },
{
    if let Some(track) = selected_track(app) {
        if let Some(id) = track.id {
            app.dispatch(IoEvent::ToggleSaveTrack(id));
        }
    }
}

/// Save the album on show to the library.
fn handle_save_album_event(app: &mut App)
    ensures
        match album_on_show(*old(app)) {
            Some(al) => match al.id {
                Some(id) => dispatched_one(
                    *old(app),
                    *final(app),
                    IoEvent::CurrentUserSavedAlbumAdd(id),
                ),
                None => only_changes(*old(app), *final(app), nothing_changes()),
            },
            None => only_changes(*old(app), *final(app), nothing_changes()),
        },
{
    let id = match app.album_table_context {
        AlbumTableContext::Full => match &app.selected_album_full {
            Some(f) => f.album.id.clone(),
            None => None,
        },
        AlbumTableContext::Simplified => match &app.selected_album_simplified {
            Some(s) => s.album.id.clone(),
            None => None,
        },
    };
    if let Some(id) = id {
        app.dispatch(IoEvent::CurrentUserSavedAlbumAdd(id));
    }
}

/// Play the album on show from the cursor.
fn handle_play(app: &mut App)
    ensures
        match album_on_show(*old(app)) {
            Some(al) => dispatched_one(
                *old(app),
                *final(app),
                IoEvent::StartPlayback(al.uri, None, Some(album_cursor(*old(app)))),
            ),
            None => only_changes(*old(app), *final(app), nothing_changes()),
        },
{
    let i = cursor(app);
    let uri = match app.album_table_context {
        AlbumTableContext::Full => match &app.selected_album_full {
            Some(f) => Some(f.album.uri.clone()),
            None => None,
        },
        AlbumTableContext::Simplified => match &app.selected_album_simplified {
            Some(s) => Some(s.album.uri.clone()),
            None => None,
        },
    };
    if let Some(uri) = uri {
        app.dispatch(IoEvent::StartPlayback(uri, None, Some(i)));
    }
}

/// Queue the track under the cursor on the native queue.
fn handle_add_to_queue(app: &mut App)
    ensures
        match album_selected_track(*old(app)) {
            Some(t) => {
                &&& requested_one(*old(app), *final(app), queues_track(t))
                &&& only_changes(*old(app), *final(app), Changes { requests: true, ..nothing_changes() })
            },
            None => only_changes(*old(app), *final(app), nothing_changes()),
        },
{
    if let Some(track) = selected_track(app) {
        app.request(AppRequest::AddTrackToNativeQueue(track));
        assert(app.requests@.drop_last() =~= old(app).requests@);
    }
}

/// Handle a key on the album track table.
pub fn handler(key: Key, app: &mut App)
    ensures
        album_key_effect(*old(app), *final(app), key),
{
    let keys = app.keys;
    if left_event(key, &keys) {
        handle_left_event(app);
    } else if down_event(key, &keys) {
        handle_move(app, ListMove::Down);
    } else if up_event(key, &keys) {
        handle_move(app, ListMove::Up);
    } else if high_event(key) {
        handle_high_event(app);
    } else if middle_event(key) {
        handle_middle_event(app);
    } else if low_event(key) {
        handle_low_event(app);
    } else if key == Key::Char('s') {
        handle_save_event(app);
    } else if key == Key::Char('w') {
        handle_save_album_event(app);
    } else if key == Key::Enter {
        handle_play(app);
    } else if key == Key::Char('r') {
        handle_recommended_tracks(app);
    } else if key == keys.add_item_to_queue {
        handle_add_to_queue(app);
    }
}

/// With the stock bindings, the album table reads `h`/Left as leaving,
/// `j`/`k` and the arrows as moves, `H`/`M`/`L` as jumps, `s` as saving the
/// track, `w` as saving the album, Enter as play, `r` as recommend and `z`
/// as add to queue.
pub proof fn law_album_keys_with_stock_bindings(keys: KeyBindings)
    requires
        stock_bindings(keys),
    ensures
        classify_album_key(Key::Left, keys) is Left,
        classify_album_key(Key::Char('h'), keys) is Left,
        classify_album_key(Key::Down, keys) matches AlbumKey::Move(ListMove::Down),
        classify_album_key(Key::Char('j'), keys) matches AlbumKey::Move(ListMove::Down),
        classify_album_key(Key::Up, keys) matches AlbumKey::Move(ListMove::Up),
        classify_album_key(Key::Char('k'), keys) matches AlbumKey::Move(ListMove::Up),
        classify_album_key(Key::Char('H'), keys) matches AlbumKey::Move(ListMove::High),
        classify_album_key(Key::Char('M'), keys) matches AlbumKey::Move(ListMove::Middle),
        classify_album_key(Key::Char('L'), keys) matches AlbumKey::Move(ListMove::Low),
        classify_album_key(Key::Char('s'), keys) is SaveTrack,
        classify_album_key(Key::Char('w'), keys) is SaveAlbum,
        classify_album_key(Key::Enter, keys) is Play,
        classify_album_key(Key::Char('r'), keys) is Recommend,
        classify_album_key(Key::Char('z'), keys) is AddToQueue,
{
}

/// The album table's actions act on what is under the cursor: `s` toggles
/// the saved state of the track on the cursor row, `w` saves the album on
/// show, Enter plays that album from the cursor row, `z` queues the track
/// on the cursor row, and Down moves the cursor to the next row (wrapping
/// to the first).
pub proof fn law_album_actions_act_on_the_cursor_row(a: App, b: App, key: Key)
    requires
        album_key_effect(a, b, key),
        stock_bindings(a.keys),
    ensures
        (key == Key::Char('s') && album_selected_track(a) is Some && album_selected_track(a)->0.id is Some) ==> b.dispatched@
            == a.dispatched@.push(IoEvent::ToggleSaveTrack(album_selected_track(a)->0.id->0)),
        (key == Key::Char('w') && album_on_show(a) is Some && album_on_show(a)->0.id is Some) ==> b.dispatched@
            == a.dispatched@.push(IoEvent::CurrentUserSavedAlbumAdd(album_on_show(a)->0.id->0)),
        (key == Key::Enter && album_on_show(a) is Some) ==> b.dispatched@ == a.dispatched@.push(
            IoEvent::StartPlayback(album_on_show(a)->0.uri, None, Some(album_cursor(a))),
        ),
        (key == Key::Char('z') && album_selected_track(a) is Some) ==> (b.requests@.last() matches AppRequest::AddTrackToNativeQueue(x)
            && same_track(x, album_selected_track(a)->0)) && b.requests@.drop_last() == a.requests@,
        (key == Key::Down && album_rows(a) is Some && album_cursor(a) < album_rows(a)->0.len()
            && album_rows(a)->0.len() <= usize::MAX) ==> album_cursor(b)
            == (album_cursor(a) + 1) % (album_rows(a)->0.len() as int),
{
    if key == Key::Down && album_rows(a) is Some && album_cursor(a) < album_rows(a)->0.len()
        && album_rows(a)->0.len() <= usize::MAX {
        let n = album_rows(a)->0.len();
        crate::app::law_moves_step_cyclically(n, album_cursor(a));
        let v = crate::app::next_row(n, Some(album_cursor(a)));
        assert(v < n);
        assert(album_cursor_moved(a, b, v as usize));
        assert(album_cursor(b) == v);
    }
}

} // verus!
