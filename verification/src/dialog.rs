//! Key handling for dialogs: yes/no confirmations (unfollow a playlist,
//! remove a track from a playlist, delete a local YouTube playlist, persist a
//! keybinding fallback) and the add-to-playlist picker, whose rows are the
//! playlists the track can be added to plus navigable folder rows.

use vstd::prelude::*;

use crate::album_tracks::{dispatched_one, requested_one};
use crate::app::add_flow_opened;
use crate::app::{
    apply_move, current_route, down_event, high_event, is_down, is_left, is_right, is_up,
    left_event, low_event, middle_event, moved_row, nothing_changes, only_changes, right_event,
    up_event, ActiveBlock, App, AppRequest, Changes, DialogContext, IoEvent, Key, KeyBindings,
    ListMove, PlaylistFolder, PlaylistFolderItem, PlaylistInfo, Route, Source,
};
use crate::text::{has_prefix, starts_with};

verus! {

// ---------------------------------------------------------------------------
// Picker rows
// ---------------------------------------------------------------------------

/// A row of the add-to-playlist picker.
#[derive(Debug, Clone, PartialEq)]
pub enum PlaylistPickerRow {
    Folder(PlaylistFolder),
    Playlist(PlaylistInfo),
}

impl PlaylistInfo {
    /// A copy of this playlist.
    pub fn duplicate(&self) -> (r: PlaylistInfo)
        ensures
            r == *self,
    {
        PlaylistInfo {
            id: self.id.clone(),
            uri: self.uri.clone(),
            name: self.name.clone(),
            owner_id: self.owner_id.clone(),
            collaborative: self.collaborative,
        }
    }
}

impl PlaylistFolder {
    /// A copy of this folder.
    pub fn duplicate(&self) -> (r: PlaylistFolder)
        ensures
            r == *self,
    {
        PlaylistFolder { name: self.name.clone(), current_id: self.current_id, target_id: self.target_id }
    }
}

/// A track can be added to a playlist the user owns or that is
/// collaborative.
pub open spec fn is_editable(p: PlaylistInfo, user: Option<String>) -> bool {
    p.collaborative || (user matches Some(u) && p.owner_id@ == u@)
}

/// The editable playlists of `pls`, in order, as picker rows.
pub open spec fn editable_rows(pls: Seq<PlaylistInfo>, user: Option<String>) -> Seq<PlaylistPickerRow>
    decreases pls.len(),
{
    if pls.len() == 0 {
        seq![]
    } else {
        let rest = editable_rows(pls.drop_last(), user);
        if is_editable(pls.last(), user) {
            rest.push(PlaylistPickerRow::Playlist(pls.last()))
        } else {
            rest
        }
    }
}

/// All of `pls` as picker rows.
pub open spec fn playlist_rows(pls: Seq<PlaylistInfo>) -> Seq<PlaylistPickerRow>
    decreases pls.len(),
{
    if pls.len() == 0 {
        seq![]
    } else {
        playlist_rows(pls.drop_last()).push(PlaylistPickerRow::Playlist(pls.last()))
    }
}

/// Which rows of a folder to list.
#[derive(Clone, Copy, PartialEq, Eq, Structural)]
pub enum RowFilter {
    All,
    FoldersOnly,
    PlaylistsOnly,
}

/// The row an entry of the library gives in folder `folder`, if any: its
/// folders, and its playlists that exist and are editable.
pub open spec fn item_row(
    item: PlaylistFolderItem,
    pls: Seq<PlaylistInfo>,
    user: Option<String>,
    folder: usize,
    filter: RowFilter,
) -> Option<PlaylistPickerRow> {
    match item {
        PlaylistFolderItem::Folder(f) => if f.current_id == folder && filter
            != RowFilter::PlaylistsOnly {
            Some(PlaylistPickerRow::Folder(f))
        } else {
            None
        },
        PlaylistFolderItem::Playlist { index, current_id } => if current_id == folder && filter
            != RowFilter::FoldersOnly && index < pls.len() && is_editable(pls[index as int], user) {
            Some(PlaylistPickerRow::Playlist(pls[index as int]))
        } else {
            None
        },
    }
}

/// The rows of folder `folder`, in library order.
pub open spec fn folder_rows(
    items: Seq<PlaylistFolderItem>,
    pls: Seq<PlaylistInfo>,
    user: Option<String>,
    folder: usize,
    filter: RowFilter,
) -> Seq<PlaylistPickerRow>
    decreases items.len(),
{
    if items.len() == 0 {
        seq![]
    } else {
        let rest = folder_rows(items.drop_last(), pls, user, folder, filter);
        match item_row(items.last(), pls, user, folder, filter) {
            Some(r) => rest.push(r),
            None => rest,
        }
    }
}

/// The rows of the add-to-playlist picker: the local YouTube playlists under
/// the YouTube source; otherwise the editable playlists (in the open folder,
/// folders included, when the library has folders; folders first when so
/// configured).
pub open spec fn picker_rows(a: App) -> Seq<PlaylistPickerRow> {
    if a.active_source == Source::YouTube {
        playlist_rows(a.youtube_playlists@)
    } else if a.playlist_folder_items@.len() == 0 {
        editable_rows(a.all_playlists@, a.user_id)
    } else if a.group_folders_first {
        folder_rows(
            a.playlist_folder_items@,
            a.all_playlists@,
            a.user_id,
            a.playlist_picker_folder_id,
            RowFilter::FoldersOnly,
        ) + folder_rows(
            a.playlist_folder_items@,
            a.all_playlists@,
            a.user_id,
            a.playlist_picker_folder_id,
            RowFilter::PlaylistsOnly,
        )
    } else {
        folder_rows(
            a.playlist_folder_items@,
            a.all_playlists@,
            a.user_id,
            a.playlist_picker_folder_id,
            RowFilter::All,
        )
    }
}

/// Whether two optional strings hold the same characters.
fn opt_str_eq(a: &Option<String>, b: &String) -> (r: bool)
    ensures
        r == (a matches Some(x) && x@ == b@),
{
    match a {
        Some(x) => *x == *b,
        None => false,
    }
}

/// Append the rows of folder `folder` to `rows`.
fn push_folder_rows(app: &App, rows: &mut Vec<PlaylistPickerRow>, filter: RowFilter)
    ensures
        final(rows)@ == old(rows)@ + folder_rows(
            app.playlist_folder_items@,
            app.all_playlists@,
            app.user_id,
            app.playlist_picker_folder_id,
            filter,
        ),
{
    let items = &app.playlist_folder_items;
    let pls = &app.all_playlists;
    let folder = app.playlist_picker_folder_id;
    let ghost start = rows@;
    let n = items.len();
    let mut i: usize = 0;
    while i < n
        invariant
            n == items@.len(),
            i <= n,
            items == &app.playlist_folder_items,
            pls == &app.all_playlists,
            folder == app.playlist_picker_folder_id,
            rows@ == start + folder_rows(items@.take(i as int), pls@, app.user_id, folder, filter),
        decreases n - i,
    {
        proof {
            assert(items@.take(i as int + 1).drop_last() =~= items@.take(i as int));
            assert(items@.take(i as int + 1).last() == items@[i as int]);
        }
        let ghost before = rows@;
        match &items[i] {
            PlaylistFolderItem::Folder(f) => {
                if f.current_id == folder && filter != RowFilter::PlaylistsOnly {
                    rows.push(PlaylistPickerRow::Folder(f.duplicate()));
                }
            },
            PlaylistFolderItem::Playlist { index, current_id } => {
                if *current_id == folder && filter != RowFilter::FoldersOnly && *index < pls.len() {
                    let p = &pls[*index];
                    if p.collaborative || opt_str_eq(&app.user_id, &p.owner_id) {
                        rows.push(PlaylistPickerRow::Playlist(p.duplicate()));
                    }
                }
            },
        }
        proof {
            let fr = folder_rows(items@.take(i as int), pls@, app.user_id, folder, filter);
            assert(before == start + fr);
            match item_row(items@[i as int], pls@, app.user_id, folder, filter) {
                Some(r) => {
                    assert(rows@ =~= start + fr.push(r));
                },
                None => {
                    assert(rows@ =~= start + fr);
                },
            }
        }
        i += 1;
    }
    proof {
        assert(items@.take(n as int) =~= items@);
    }
}

/// The rows of the add-to-playlist picker.
pub fn playlist_picker_items(app: &App) -> (rows: Vec<PlaylistPickerRow>)
    ensures
        rows@ == picker_rows(*app),
{
    let mut rows: Vec<PlaylistPickerRow> = Vec::new();
    if app.active_source == Source::YouTube {
        let pls = &app.youtube_playlists;
        let n = pls.len();
        let mut i: usize = 0;
        while i < n
            invariant
                n == pls@.len(),
                i <= n,
                rows@ == playlist_rows(pls@.take(i as int)),
            decreases n - i,
        {
            proof {
                assert(pls@.take(i as int + 1).drop_last() =~= pls@.take(i as int));
            }
            rows.push(PlaylistPickerRow::Playlist(pls[i].duplicate()));
            i += 1;
        }
        proof {
            assert(pls@.take(n as int) =~= pls@);
        }
    } else if app.playlist_folder_items.len() == 0 {
        let pls = &app.all_playlists;
        let n = pls.len();
        let mut i: usize = 0;
        while i < n
            invariant
                n == pls@.len(),
                i <= n,
                rows@ == editable_rows(pls@.take(i as int), app.user_id),
            decreases n - i,
        {
            proof {
                assert(pls@.take(i as int + 1).drop_last() =~= pls@.take(i as int));
            }
            let p = &pls[i];
            if p.collaborative || opt_str_eq(&app.user_id, &p.owner_id) {
                rows.push(PlaylistPickerRow::Playlist(p.duplicate()));
            }
            i += 1;
        }
        proof {
            assert(pls@.take(n as int) =~= pls@);
        }
    } else if app.group_folders_first {
        push_folder_rows(app, &mut rows, RowFilter::FoldersOnly);
        push_folder_rows(app, &mut rows, RowFilter::PlaylistsOnly);
        proof {
            assert(rows@ =~= picker_rows(*app));
        }
    } else {
        push_folder_rows(app, &mut rows, RowFilter::All);
        proof {
            assert(rows@ =~= picker_rows(*app));
        }
    }
    rows
}

// ---------------------------------------------------------------------------
// Specification of the keys
// ---------------------------------------------------------------------------

/// The message shown when the keybinding fallback is not persisted.
pub open spec fn session_only_message() -> Seq<char> {
    seq![
        'U', 's', 'i', 'n', 'g', ' ', 'A', 'l', 't', '+', ',', ' ', 'f', 'o', 'r', ' ', 't', 'h',
        'i', 's', ' ', 's', 'e', 's', 's', 'i', 'o', 'n', ' ', 'o', 'n', 'l', 'y',
    ]
}

/// The prefix of a local YouTube playlist's uri.
pub open spec fn youtube_playlist_prefix() -> Seq<char> {
    seq!['y', 'o', 'u', 't', 'u', 'b', 'e', ':', 'p', 'l', 'a', 'y', 'l', 'i', 's', 't', ':']
}

/// `b` is `a` with the dialog closed: the top route popped (unless it is the
/// only one) and the dialog text and confirmation cleared.
pub open spec fn dialog_closed(a: App, b: App) -> bool {
    &&& b.navigation_stack@ == if a.navigation_stack@.len() > 1 {
        a.navigation_stack@.drop_last()
    } else {
        a.navigation_stack@
    }
    &&& b.dialog is None
    &&& !b.confirm
}

/// The work a confirmed dialog hands out, as a relation between the outboxes
/// before (`a`) and after (`b`).
pub open spec fn confirmed_work(a: App, b: App, ctx: DialogContext) -> bool {
    match ctx {
        DialogContext::PlaylistWindow => {
            &&& b.requests@ == a.requests@.push(AppRequest::UnfollowPlaylist)
            &&& b.dispatched == a.dispatched
        },
        DialogContext::PlaylistSearch => {
            &&& b.requests@ == a.requests@.push(AppRequest::UnfollowPlaylistSearchResult)
            &&& b.dispatched == a.dispatched
        },
        DialogContext::PersistKeybindingFallback => {
            &&& b.requests@ == a.requests@.push(AppRequest::PersistOpenSettingsFallback)
            &&& b.dispatched == a.dispatched
        },
        DialogContext::RemoveTrackFromPlaylistConfirm => {
            &&& b.requests == a.requests
            &&& match a.pending_playlist_track_removal {
                Some(p) => b.dispatched@ == a.dispatched@.push(
                    if has_prefix(p.playlist_id@, youtube_playlist_prefix()) {
                        IoEvent::RemoveTrackFromYouTubePlaylist(p.playlist_id, p.track_id)
                    } else {
                        IoEvent::RemoveTrackFromPlaylistAtPosition(
                            p.playlist_id,
                            p.track_id,
                            p.position,
                        )
                    },
                ),
                None => b.dispatched == a.dispatched,
            }
        },
        DialogContext::YouTubePlaylistWindow => {
            &&& b.requests == a.requests
            &&& match a.selected_playlist_index {
                Some(i) => if i < a.youtube_playlists@.len() {
                    b.dispatched@ == a.dispatched@.push(
                        IoEvent::DeleteYouTubePlaylist(a.youtube_playlists@[i as int].uri),
                    )
                } else {
                    b.dispatched == a.dispatched
                },
                None => b.dispatched == a.dispatched,
            }
        },
        DialogContext::AddTrackToPlaylistPicker => {
            &&& b.requests == a.requests
            &&& b.dispatched == a.dispatched
        },
    }
}

/// The changes closing a dialog may make, besides handing out work.
pub open spec fn closing_changes() -> Changes {
    Changes { nav: true, dialog: true, dispatched: true, requests: true, ..nothing_changes() }
}

/// `b`'s requests are `a`'s plus the session-only notice.
pub open spec fn noted_session_only(a: App, b: App) -> bool {
    requested_one(
        a,
        b,
        |r: AppRequest|
            r matches AppRequest::StatusMessage(m, secs) && m@ == session_only_message() && secs
                == 4,
    )
}

/// The effect of `key` on a confirmation dialog of kind `ctx`.
pub open spec fn confirmation_effect(a: App, b: App, key: Key, ctx: DialogContext) -> bool {
    if key == Key::Enter {
        &&& dialog_closed(a, b)
        &&& only_changes(a, b, closing_changes())
        &&& if a.confirm {
            confirmed_work(a, b, ctx)
        } else if ctx == DialogContext::PersistKeybindingFallback {
            noted_session_only(a, b) && b.dispatched == a.dispatched
        } else {
            b.requests == a.requests && b.dispatched == a.dispatched
        }
    } else if key == Key::Char('q') {
        &&& dialog_closed(a, b)
        &&& only_changes(a, b, closing_changes())
        &&& b.dispatched == a.dispatched
        &&& if ctx == DialogContext::PersistKeybindingFallback {
            noted_session_only(a, b)
        } else {
            b.requests == a.requests
        }
    } else if is_right(key, a.keys) || is_left(key, a.keys) {
        &&& b.confirm == !a.confirm
        &&& b.dialog == a.dialog
        &&& only_changes(a, b, Changes { dialog: true, ..nothing_changes() })
    } else {
        only_changes(a, b, nothing_changes())
    }
}

/// The key classes of the picker, in the order they are tested (moves only
/// count when the picker has rows).
pub enum PickerKey {
    Move(ListMove),
    Choose,
    Quit,
    Other,
}

/// How the picker reads a key when it has `n` rows.
pub open spec fn classify_picker_key(key: Key, keys: KeyBindings, n: nat) -> PickerKey {
    if is_down(key, keys) && n > 0 {
        PickerKey::Move(ListMove::Down)
    } else if is_up(key, keys) && n > 0 {
        PickerKey::Move(ListMove::Up)
    } else if key == Key::Char('H') && n > 0 {
        PickerKey::Move(ListMove::High)
    } else if key == Key::Char('M') && n > 0 {
        PickerKey::Move(ListMove::Middle)
    } else if key == Key::Char('L') && n > 0 {
        PickerKey::Move(ListMove::Low)
    } else if key == Key::Enter {
        PickerKey::Choose
    } else if key == Key::Char('q') {
        PickerKey::Quit
    } else {
        PickerKey::Other
    }
}

/// The row Enter acts on: the cursor, clamped to the last row.
pub open spec fn chosen_row(cursor: usize, n: nat) -> nat {
    if n == 0 {
        0
    } else if cursor < n {
        cursor as nat
    } else {
        (n - 1) as nat
    }
}

/// The effect of `key` on the add-to-playlist picker.
pub open spec fn picker_effect(a: App, b: App, key: Key) -> bool {
    let rows = picker_rows(a);
    match classify_picker_key(key, a.keys, rows.len()) {
        PickerKey::Move(m) => {
            &&& b.playlist_picker_selected_index == moved_row(
                m,
                rows.len(),
                Some(a.playlist_picker_selected_index),
            )
            &&& b.playlist_picker_folder_id == a.playlist_picker_folder_id
            &&& b.pending_playlist_track_add == a.pending_playlist_track_add
            &&& only_changes(a, b, Changes { picker: true, ..nothing_changes() })
        },
        PickerKey::Choose => {
            let k = chosen_row(a.playlist_picker_selected_index, rows.len());
            if k < rows.len() {
                match rows[k as int] {
                    PlaylistPickerRow::Folder(f) => {
                        &&& b.playlist_picker_folder_id == f.target_id
                        &&& b.playlist_picker_selected_index == 0
                        &&& b.pending_playlist_track_add == a.pending_playlist_track_add
                        &&& only_changes(a, b, Changes { picker: true, ..nothing_changes() })
                    },
                    PlaylistPickerRow::Playlist(p) => {
                        &&& dialog_closed(a, b)
                        &&& only_changes(a, b, closing_changes())
                        &&& b.requests == a.requests
                        &&& match (p.id, a.pending_playlist_track_add) {
                            (Some(pid), Some(add)) => b.dispatched@ == a.dispatched@.push(
                                if a.active_source == Source::YouTube {
                                    IoEvent::AddTrackToYouTubePlaylist(pid, add.track_id)
                                } else {
                                    IoEvent::AddTrackToPlaylist(pid, add.track_id)
                                },
                            ),
                            _ => b.dispatched == a.dispatched,
                        }
                    },
                }
            } else {
                &&& dialog_closed(a, b)
                &&& only_changes(a, b, Changes { nav: true, dialog: true, ..nothing_changes() })
            }
        },
        PickerKey::Quit => {
            &&& dialog_closed(a, b)
            &&& only_changes(a, b, Changes { nav: true, dialog: true, ..nothing_changes() })
        },
        PickerKey::Other => only_changes(a, b, nothing_changes()),
    }
}

/// The effect of `key` on whatever dialog is open (nothing when the current
/// route shows no dialog).
pub open spec fn dialog_key_effect(a: App, b: App, key: Key) -> bool {
    match current_route(a.navigation_stack@).active_block {
        ActiveBlock::Dialog(ctx) => if ctx == DialogContext::AddTrackToPlaylistPicker {
            picker_effect(a, b, key)
        } else {
            confirmation_effect(a, b, key, ctx)
        },
        _ => only_changes(a, b, nothing_changes()),
    }
}

// ---------------------------------------------------------------------------
// Operations
// ---------------------------------------------------------------------------

/// Close the dialog: pop its route and clear the dialog state.
fn close_dialog(app: &mut App)
    ensures
        dialog_closed(*old(app), *final(app)),
        only_changes(*old(app), *final(app), Changes { nav: true, dialog: true, ..nothing_changes() }),
{
    app.pop_navigation_stack();
    app.dialog = None;
    app.confirm = false;
}

/// Tell the user the keybinding fallback is for this session only.
fn note_session_only(app: &mut App)
    ensures
        noted_session_only(*old(app), *final(app)),
        final(app).dispatched == old(app).dispatched,
        only_changes(*old(app), *final(app), Changes { requests: true, ..nothing_changes() }),
{
    let msg = "Using Alt+, for this session only".to_owned();
    proof {
        reveal_strlit("Using Alt+, for this session only");
        assert(msg@ =~= session_only_message());
    }
    app.request(AppRequest::StatusMessage(msg, 4));
    assert(app.requests@.drop_last() =~= old(app).requests@);
}

/// Unfollow the playlist the dialog is about.
fn handle_playlist_dialog(app: &mut App)
    ensures
        final(app).requests@ == old(app).requests@.push(AppRequest::UnfollowPlaylist),
        final(app).dispatched == old(app).dispatched,
        only_changes(*old(app), *final(app), Changes { requests: true, ..nothing_changes() }),
{
    app.request(AppRequest::UnfollowPlaylist);
}

/// Unfollow the playlist search result the dialog is about.
fn handle_playlist_search_dialog(app: &mut App)
    ensures
        final(app).requests@ == old(app).requests@.push(
            AppRequest::UnfollowPlaylistSearchResult,
        ),
        final(app).dispatched == old(app).dispatched,
        only_changes(*old(app), *final(app), Changes { requests: true, ..nothing_changes() }),
{
    app.request(AppRequest::UnfollowPlaylistSearchResult);
}

/// Delete the sidebar-selected local YouTube playlist.
fn handle_youtube_playlist_dialog(app: &mut App)
    ensures
        confirmed_work(*old(app), *final(app), DialogContext::YouTubePlaylistWindow),
        only_changes(*old(app), *final(app), Changes { dispatched: true, ..nothing_changes() }),
{
    if let Some(idx) = app.selected_playlist_index {
        if idx < app.youtube_playlists.len() {
            let uri = app.youtube_playlists[idx].uri.clone();
            app.dispatch(IoEvent::DeleteYouTubePlaylist(uri));
        }
    }
}

/// Remove the pending track from its playlist: a local YouTube playlist edit
/// for a `youtube:playlist:` target, the positional Spotify removal
/// otherwise.
fn handle_remove_track_from_playlist_confirm(app: &mut App)
    ensures
        confirmed_work(*old(app), *final(app), DialogContext::RemoveTrackFromPlaylistConfirm),
        only_changes(*old(app), *final(app), Changes { dispatched: true, ..nothing_changes() }),
{
    let pending = match &app.pending_playlist_track_removal {
        Some(p) => Some((p.playlist_id.clone(), p.track_id.clone(), p.position)),
        None => None,
    };
    if let Some((playlist_id, track_id, position)) = pending {
        let is_youtube = starts_with(playlist_id.as_str(), "youtube:playlist:");
        proof {
            reveal_strlit("youtube:playlist:");
            assert("youtube:playlist:"@ =~= youtube_playlist_prefix());
        }
        if is_youtube {
            app.dispatch(IoEvent::RemoveTrackFromYouTubePlaylist(playlist_id, track_id));
        } else {
            app.dispatch(IoEvent::RemoveTrackFromPlaylistAtPosition(playlist_id, track_id, position));
        }
    }
}

/// Keys on a yes/no dialog: Enter acts (when confirmed) and closes, `q`
/// closes, left/right toggle the answer.
fn handle_confirmation_dialog(key: Key, app: &mut App, dialog_context: DialogContext)
    ensures
        confirmation_effect(*old(app), *final(app), key, dialog_context),
{
    let keys = app.keys;
    if key == Key::Enter {
        if app.confirm {
            match dialog_context {
                DialogContext::PlaylistWindow => handle_playlist_dialog(app),
                DialogContext::PlaylistSearch => handle_playlist_search_dialog(app),
                DialogContext::RemoveTrackFromPlaylistConfirm => {
                    handle_remove_track_from_playlist_confirm(app);
                },
                DialogContext::PersistKeybindingFallback => {
                    app.request(AppRequest::PersistOpenSettingsFallback);
                },
                DialogContext::YouTubePlaylistWindow => handle_youtube_playlist_dialog(app),
                DialogContext::AddTrackToPlaylistPicker => {},
            }
        } else if dialog_context == DialogContext::PersistKeybindingFallback {
            note_session_only(app);
        }
        close_dialog(app);
    } else if key == Key::Char('q') {
        if dialog_context == DialogContext::PersistKeybindingFallback {
            note_session_only(app);
        }
        close_dialog(app);
    } else if right_event(key, &keys) || left_event(key, &keys) {
        app.confirm = !app.confirm;
    }
}

/// Keys on the add-to-playlist picker.
fn handle_add_to_playlist_picker(key: Key, app: &mut App)
    ensures
        picker_effect(*old(app), *final(app), key),
{
    let keys = app.keys;
    let picker_rows = playlist_picker_items(app);
    let row_count = picker_rows.len();
    let sel = app.playlist_picker_selected_index;
    if down_event(key, &keys) && row_count > 0 {
        app.playlist_picker_selected_index = apply_move(ListMove::Down, row_count, Some(sel));
    } else if up_event(key, &keys) && row_count > 0 {
        app.playlist_picker_selected_index = apply_move(ListMove::Up, row_count, Some(sel));
    } else if high_event(key) && row_count > 0 {
        app.playlist_picker_selected_index = apply_move(ListMove::High, row_count, Some(sel));
    } else if middle_event(key) && row_count > 0 {
        app.playlist_picker_selected_index = apply_move(ListMove::Middle, row_count, Some(sel));
    } else if low_event(key) && row_count > 0 {
        app.playlist_picker_selected_index = apply_move(ListMove::Low, row_count, Some(sel));
    } else if key == Key::Enter {
        let last = if row_count > 0 {
            row_count - 1
        } else {
            0
        };
        let selected = if sel < last {
            sel
        } else {
            last
        };
        if selected < row_count {
            match &picker_rows[selected] {
                PlaylistPickerRow::Folder(folder) => {
                    app.playlist_picker_folder_id = folder.target_id;
                    app.playlist_picker_selected_index = 0;
                },
                PlaylistPickerRow::Playlist(playlist) => {
                    let target = match (&playlist.id, &app.pending_playlist_track_add) {
                        (Some(pid), Some(add)) => Some((pid.clone(), add.track_id.clone())),
                        _ => None,
                    };
                    if let Some((pid, track_id)) = target {
                        if app.active_source == Source::YouTube {
                            app.dispatch(IoEvent::AddTrackToYouTubePlaylist(pid, track_id));
                        } else {
                            app.dispatch(IoEvent::AddTrackToPlaylist(pid, track_id));
                        }
                    }
                    close_dialog(app);
                },
            }
        } else {
            close_dialog(app);
        }
    } else if key == Key::Char('q') {
        close_dialog(app);
    }
}

/// Handle a key on the open dialog (nothing happens when no dialog is open).
pub fn handler(key: Key, app: &mut App)
    ensures
        dialog_key_effect(*old(app), *final(app), key),
{
    let dialog_context = match app.get_current_route().active_block {
        ActiveBlock::Dialog(context) => context,
        _ => return ,
    };
    if dialog_context == DialogContext::AddTrackToPlaylistPicker {
        handle_add_to_playlist_picker(key, app);
    } else {
        handle_confirmation_dialog(key, app, dialog_context);
    }
}

/// The picker offers exactly the playlists a track can be added to: every
/// offered row is one of the user's playlists that is collaborative or
/// owned by the user, and every such playlist is offered.
pub proof fn law_picker_offers_exactly_the_editable_playlists(pls: Seq<PlaylistInfo>, user: Option<String>)
    ensures
        forall|k: int|
            0 <= k < editable_rows(pls, user).len() ==> (#[trigger] editable_rows(pls, user)[k] matches PlaylistPickerRow::Playlist(
                p,
            ) && (p.collaborative || (user matches Some(u) && p.owner_id@ == u@)) && pls.contains(p)),
        forall|j: int|
            0 <= j < pls.len() && (pls[j].collaborative || (user matches Some(u) && pls[j].owner_id@ == u@))
                ==> editable_rows(pls, user).contains(PlaylistPickerRow::Playlist(#[trigger] pls[j])),
        editable_rows(pls, user).len() <= pls.len(),
    decreases pls.len(),
{
    if pls.len() > 0 {
        let front = pls.drop_last();
        law_picker_offers_exactly_the_editable_playlists(front, user);
        let rows = editable_rows(pls, user);
        let prev = editable_rows(front, user);
        assert forall|k: int| 0 <= k < rows.len() implies (#[trigger] rows[k] matches PlaylistPickerRow::Playlist(p)
            && (p.collaborative || (user matches Some(u) && p.owner_id@ == u@)) && pls.contains(p)) by {
            if k < prev.len() {
                assert(rows[k] == prev[k]);
                let p = prev[k]->Playlist_0;
                let j = choose|j: int| 0 <= j < front.len() && front[j] == p;
                assert(pls[j] == p);
            } else {
                assert(pls[pls.len() - 1] == pls.last());
            }
        }
        assert forall|j: int|
            0 <= j < pls.len() && (pls[j].collaborative || (user matches Some(u) && pls[j].owner_id@ == u@))
                implies rows.contains(PlaylistPickerRow::Playlist(#[trigger] pls[j])) by {
            if j < front.len() {
                assert(front[j] == pls[j]);
                let k = choose|k: int| 0 <= k < prev.len() && prev[k] == PlaylistPickerRow::Playlist(front[j]);
                assert(rows[k] == prev[k]);
            } else {
                assert(pls[j] == pls.last());
                assert(rows[rows.len() - 1] == PlaylistPickerRow::Playlist(pls[j]));
            }
        }
    }
}

/// A confirmation dialog does its work only on an explicit yes: Enter
/// with the confirmation chosen. Cancelling, Enter on "no" and any other
/// key hand out no event, and ask nothing of the shell except the
/// session-only note of the keybinding fallback. Left and right flip the
/// choice and nothing else.
pub proof fn law_only_a_confirmed_enter_does_the_work(a: App, b: App, key: Key, ctx: DialogContext)
    requires
        confirmation_effect(a, b, key, ctx),
    ensures
        !(key == Key::Enter && a.confirm) ==> b.dispatched == a.dispatched,
        (!(key == Key::Enter && a.confirm) && ctx != DialogContext::PersistKeybindingFallback)
            ==> b.requests == a.requests,
        (key == Key::Enter || key == Key::Char('q')) ==> b.dialog is None && !b.confirm,
        (key != Key::Enter && key != Key::Char('q') && (is_right(key, a.keys) || is_left(key, a.keys)))
            ==> b.confirm == !a.confirm && b.navigation_stack == a.navigation_stack,
{
}

/// Choosing a playlist in the picker adds the pending track to that very
/// playlist (through YouTube under the YouTube source, Spotify otherwise)
/// and closes the picker; choosing a folder opens it at its first row.
pub proof fn law_choosing_a_playlist_adds_the_pending_track(a: App, b: App)
    requires
        picker_effect(a, b, Key::Enter),
        !is_down(Key::Enter, a.keys),
        !is_up(Key::Enter, a.keys),
        picker_rows(a).len() > 0,
    ensures
        ({
            let rows = picker_rows(a);
            let k = chosen_row(a.playlist_picker_selected_index, rows.len());
            &&& k < rows.len()
            &&& (rows[k as int] is Playlist && rows[k as int]->Playlist_0.id is Some
                && a.pending_playlist_track_add is Some) ==> b.dispatched@.last() == (
            if a.active_source == Source::YouTube {
                IoEvent::AddTrackToYouTubePlaylist(
                    rows[k as int]->Playlist_0.id->0,
                    a.pending_playlist_track_add->0.track_id,
                )
            } else {
                IoEvent::AddTrackToPlaylist(
                    rows[k as int]->Playlist_0.id->0,
                    a.pending_playlist_track_add->0.track_id,
                )
            }) && b.dialog is None
            &&& rows[k as int] matches PlaylistPickerRow::Folder(f) ==> b.playlist_picker_folder_id
                == f.target_id && b.playlist_picker_selected_index == 0
        }),
{
}

/// Opening the add-to-playlist picker for a track and then quitting it
/// leaves the interface where it was: the same navigation, no event sent
/// and nothing asked of the shell.
pub proof fn law_cancelled_picker_leaves_no_trace(a: App, b: App, c: App, id: Seq<char>, name: String)
    requires
        add_flow_opened(a, b, Some(id), name),
        picker_effect(b, c, Key::Char('q')),
        !is_down(Key::Char('q'), b.keys),
        !is_up(Key::Char('q'), b.keys),
        a.navigation_stack@.len() > 0,
    ensures
        c.navigation_stack@ == a.navigation_stack@,
        c.dispatched == a.dispatched,
        c.requests == a.requests,
        c.dialog is None,
{
    assert(b.navigation_stack@.drop_last() =~= a.navigation_stack@);
}

/// A folder's rows are the entries that live in that folder: its
/// subfolders (unless only playlists are listed) and its editable playlists
/// (unless only folders are listed), never anything from another folder.
pub proof fn law_folder_rows_live_in_the_folder(
    items: Seq<PlaylistFolderItem>,
    pls: Seq<PlaylistInfo>,
    user: Option<String>,
    folder: usize,
    filter: RowFilter,
)
    ensures
        forall|k: int|
            0 <= k < folder_rows(items, pls, user, folder, filter).len() ==> match #[trigger] folder_rows(
                items,
                pls,
                user,
                folder,
                filter,
            )[k] {
                PlaylistPickerRow::Folder(f) => f.current_id == folder && filter != RowFilter::PlaylistsOnly,
                PlaylistPickerRow::Playlist(p) => filter != RowFilter::FoldersOnly && is_editable(p, user)
                    && pls.contains(p),
            },
        folder_rows(items, pls, user, folder, filter).len() <= items.len(),
    decreases items.len(),
{
    if items.len() > 0 {
        law_folder_rows_live_in_the_folder(items.drop_last(), pls, user, folder, filter);
        let rows = folder_rows(items, pls, user, folder, filter);
        let prev = folder_rows(items.drop_last(), pls, user, folder, filter);
        assert forall|k: int| 0 <= k < rows.len() implies match #[trigger] rows[k] {
            PlaylistPickerRow::Folder(f) => f.current_id == folder && filter != RowFilter::PlaylistsOnly,
            PlaylistPickerRow::Playlist(p) => filter != RowFilter::FoldersOnly && is_editable(p, user)
                && pls.contains(p),
        } by {
            if k < prev.len() {
                assert(rows[k] == prev[k]);
            } else {
                if let PlaylistFolderItem::Playlist { index, current_id } = items.last() {
                    if index < pls.len() {
                        assert(pls.contains(pls[index as int]));
                    }
                }
            }
        }
    }
}

} // verus!
