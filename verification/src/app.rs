//! The interface state the key handlers read and change: keys and key
//! bindings, the navigation stack, the per-view selections, and the two
//! outboxes through which a handler asks the rest of the program for work
//! (`dispatched` network/playback events and `requests` to the UI shell).

use vstd::prelude::*;

use crate::queue::SuspendedContext;
use crate::track::{ArtistRef, TrackInfo};

verus! {

// ---------------------------------------------------------------------------
// Keys
// ---------------------------------------------------------------------------

/// A key press.
#[derive(Debug, Clone, Copy, PartialEq, Eq, Structural)]
pub enum Key {
    Enter,
    Tab,
    Backspace,
    Esc,
    Left,
    Right,
    Up,
    Down,
    Ins,
    Delete,
    Home,
    End,
    PageUp,
    PageDown,
    F(u8),
    Char(char),
    Ctrl(char),
    Alt(char),
    Unknown,
}

/// The user's rebindable keys.
#[derive(Debug, Clone, Copy, PartialEq, Eq, Structural)]
pub struct KeyBindings {
    pub move_down: Key,
    pub move_up: Key,
    pub move_left: Key,
    pub move_right: Key,
    pub add_item_to_queue: Key,
    pub remove_from_queue: Key,
}

impl KeyBindings {
    /// The default bindings: vim-style `hjkl` moves, `z` queues, `x` removes
    /// from the queue.
    pub fn new() -> (k: KeyBindings)
        ensures
            k.move_down == Key::Char('j'),
            k.move_up == Key::Char('k'),
            k.move_left == Key::Char('h'),
            k.move_right == Key::Char('l'),
            k.add_item_to_queue == Key::Char('z'),
            k.remove_from_queue == Key::Char('x'),
    {
        KeyBindings {
            move_down: Key::Char('j'),
            move_up: Key::Char('k'),
            move_left: Key::Char('h'),
            move_right: Key::Char('l'),
            add_item_to_queue: Key::Char('z'),
            remove_from_queue: Key::Char('x'),
        }
    }
}

/// The key moves the selection down.
pub open spec fn is_down(key: Key, keys: KeyBindings) -> bool {
    key == Key::Down || key == keys.move_down
}

/// The key moves the selection up.
pub open spec fn is_up(key: Key, keys: KeyBindings) -> bool {
    key == Key::Up || key == keys.move_up
}

/// The key moves focus left.
pub open spec fn is_left(key: Key, keys: KeyBindings) -> bool {
    key == Key::Left || key == keys.move_left
}

/// The key moves focus right.
pub open spec fn is_right(key: Key, keys: KeyBindings) -> bool {
    key == Key::Right || key == keys.move_right
}

/// Whether `key` moves the selection down.
pub fn down_event(key: Key, keys: &KeyBindings) -> (b: bool)
    ensures
        b == is_down(key, *keys),
{
    key == Key::Down || key == keys.move_down
}

/// Whether `key` moves the selection up.
pub fn up_event(key: Key, keys: &KeyBindings) -> (b: bool)
    ensures
        b == is_up(key, *keys),
{
    key == Key::Up || key == keys.move_up
}

/// Whether `key` moves focus left.
pub fn left_event(key: Key, keys: &KeyBindings) -> (b: bool)
    ensures
        b == is_left(key, *keys),
{
    key == Key::Left || key == keys.move_left
}

/// Whether `key` moves focus right.
pub fn right_event(key: Key, keys: &KeyBindings) -> (b: bool)
    ensures
        b == is_right(key, *keys),
{
    key == Key::Right || key == keys.move_right
}

/// Whether `key` jumps to the top of a list (`H`).
pub fn high_event(key: Key) -> (b: bool)
    ensures
        b == (key == Key::Char('H')),
{
    key == Key::Char('H')
}

/// Whether `key` jumps to the middle of a list (`M`).
pub fn middle_event(key: Key) -> (b: bool)
    ensures
        b == (key == Key::Char('M')),
{
    key == Key::Char('M')
}

/// Whether `key` jumps to the bottom of a list (`L`).
pub fn low_event(key: Key) -> (b: bool)
    ensures
        b == (key == Key::Char('L')),
{
    key == Key::Char('L')
}

// ---------------------------------------------------------------------------
// List selection
// ---------------------------------------------------------------------------

/// The selection after moving down a list of `len` rows: the next row,
/// wrapping from the last to the first; row 0 when nothing was selected or
/// the list is empty.
pub open spec fn next_row(len: nat, selected: Option<usize>) -> nat {
    match selected {
        Some(i) => if len > 0 && i + 1 <= len - 1 {
            (i + 1) as nat
        } else {
            0
        },
        None => 0,
    }
}

/// The selection after moving up a list of `len` rows: the previous row,
/// wrapping from the first to the last; row 0 when nothing was selected or
/// the list is empty.
pub open spec fn prev_row(len: nat, selected: Option<usize>) -> nat {
    match selected {
        Some(i) => if len > 0 {
            if i > 0 {
                (i - 1) as nat
            } else {
                (len - 1) as nat
            }
        } else {
            0
        },
        None => 0,
    }
}

/// The middle row of a list of `len` rows (the upper middle for an even
/// length; row 0 for an empty list).
pub open spec fn middle_row(len: nat) -> nat {
    if len % 2 == 0 && len > 0 {
        (len / 2 - 1) as nat
    } else {
        len / 2
    }
}

/// The last row of a list of `len` rows (row 0 for an empty list).
pub open spec fn last_row(len: nat) -> nat {
    if len > 0 {
        (len - 1) as nat
    } else {
        0
    }
}

/// The row selected after a down move.
pub fn on_down_press_handler(len: usize, selected: Option<usize>) -> (r: usize)
    ensures
        r == next_row(len as nat, selected),
{
    match selected {
        Some(i) => {
            if len > 0 && i < len - 1 {
                i + 1
            } else {
                0
            }
        },
        None => 0,
    }
}

/// The row selected after an up move.
pub fn on_up_press_handler(len: usize, selected: Option<usize>) -> (r: usize)
    ensures
        r == prev_row(len as nat, selected),
{
    match selected {
        Some(i) => {
            if len > 0 {
                if i > 0 {
                    i - 1
                } else {
                    len - 1
                }
            } else {
                0
            }
        },
        None => 0,
    }
}

/// The row selected by a jump to the top.
pub fn on_high_press_handler() -> (r: usize)
    ensures
        r == 0,
{
    0
}

/// The row selected by a jump to the middle.
pub fn on_middle_press_handler(len: usize) -> (r: usize)
    ensures
        r == middle_row(len as nat),
{
    if len % 2 == 0 && len > 0 {
        len / 2 - 1
    } else {
        len / 2
    }
}

/// The row selected by a jump to the bottom.
pub fn on_low_press_handler(len: usize) -> (r: usize)
    ensures
        r == last_row(len as nat),
{
    if len > 0 {
        len - 1
    } else {
        0
    }
}

/// How a list move changes a selection.
#[derive(Clone, Copy)]
pub enum ListMove {
    Down,
    Up,
    High,
    Middle,
    Low,
}

/// The row a move selects in a list of `len` rows.
pub open spec fn moved_row(m: ListMove, len: nat, sel: Option<usize>) -> nat {
    match m {
        ListMove::Down => next_row(len, sel),
        ListMove::Up => prev_row(len, sel),
        ListMove::High => 0,
        ListMove::Middle => middle_row(len),
        ListMove::Low => last_row(len),
    }
}

/// The row a move selects in a list of `len` rows.
pub fn apply_move(m: ListMove, len: usize, sel: Option<usize>) -> (r: usize)
    ensures
        r == moved_row(m, len as nat, sel),
{
    match m {
        ListMove::Down => on_down_press_handler(len, sel),
        ListMove::Up => on_up_press_handler(len, sel),
        ListMove::High => on_high_press_handler(),
        ListMove::Middle => on_middle_press_handler(len),
        ListMove::Low => on_low_press_handler(len),
    }
}

/// Every move keeps a selection inside a non-empty list.
pub proof fn law_moves_stay_in_bounds(len: nat, selected: Option<usize>)
    requires
        len > 0,
        selected matches Some(i) ==> i < len,
    ensures
        next_row(len, selected) < len,
        prev_row(len, selected) < len,
        middle_row(len) < len,
        last_row(len) < len,
{
}

/// Moving down then up returns to the row one started on, and so does moving
/// up then down, for any row of a non-empty list.
pub proof fn law_down_up_inverse(len: nat, i: usize)
    requires
        i < len,
        len <= usize::MAX,
    ensures
        prev_row(len, Some(next_row(len, Some(i)) as usize)) == i,
        next_row(len, Some(prev_row(len, Some(i)) as usize)) == i,
{
}

/// Down and up step through a list cyclically: from row `i` down goes to
/// the next row and up to the previous one, wrapping at the ends; the jumps
/// go to the first row, the (upper) middle row and the last row.
pub proof fn law_moves_step_cyclically(len: nat, i: usize)
    requires
        i < len,
    ensures
        next_row(len, Some(i)) == (i + 1) % (len as int),
        prev_row(len, Some(i)) == (i + len - 1) % (len as int),
        last_row(len) + 1 == len,
        middle_row(len) + middle_row(len) + 1 == len || middle_row(len) + middle_row(len) + 2 == len,
        moved_row(ListMove::High, len, Some(i)) == 0,
        moved_row(ListMove::Down, len, Some(i)) == next_row(len, Some(i)),
        moved_row(ListMove::Up, len, Some(i)) == prev_row(len, Some(i)),
        moved_row(ListMove::Middle, len, Some(i)) == middle_row(len),
        moved_row(ListMove::Low, len, Some(i)) == last_row(len),
{
    if i + 1 < len {
        assert((i + 1) % (len as int) == i + 1) by (nonlinear_arith)
            requires
                i + 1 < len,
        ;
    } else {
        assert((i + 1) % (len as int) == 0) by (nonlinear_arith)
            requires
                i + 1 == len,
        ;
    }
    if i > 0 {
        assert((i + len - 1) % (len as int) == i - 1) by (nonlinear_arith)
            requires
                0 < i < len,
        ;
    } else {
        assert((i + len - 1) % (len as int) == len - 1) by (nonlinear_arith)
            requires
                i == 0,
                0 < len,
        ;
    }
}

/// A first move into a list with nothing selected lands on its first row.
pub proof fn law_first_move_selects_the_top(len: nat)
    ensures
        next_row(len, None) == 0,
        prev_row(len, None) == 0,
{
}

// ---------------------------------------------------------------------------
// Navigation
// ---------------------------------------------------------------------------

/// Which dialog is open.
#[derive(Debug, Clone, Copy, PartialEq, Eq, Structural)]
pub enum DialogContext {
    PlaylistWindow,
    PlaylistSearch,
    AddTrackToPlaylistPicker,
    RemoveTrackFromPlaylistConfirm,
    PersistKeybindingFallback,
    YouTubePlaylistWindow,
}

/// A focusable block of the interface.
#[derive(Debug, Clone, Copy, PartialEq, Eq, Structural)]
pub enum ActiveBlock {
    Empty,
    Library,
    Input,
    Home,
    AlbumTracks,
    AlbumList,
    Artists,
    MyPlaylists,
    Podcasts,
    RecentlyPlayed,
    SearchResultBlock,
    TrackTable,
    Queue,
    LocalBrowser,
    Dialog(DialogContext),
}

/// A screen of the interface.
#[derive(Debug, Clone, Copy, PartialEq, Eq, Structural)]
pub enum RouteId {
    Home,
    AlbumTracks,
    Search,
    TrackTable,
    RecentlyPlayed,
    Queue,
    LocalBrowser,
    Dialog,
}

/// One entry of the navigation stack.
#[derive(Debug, Clone, Copy, PartialEq, Eq, Structural)]
pub struct Route {
    pub id: RouteId,
    pub active_block: ActiveBlock,
    pub hovered_block: ActiveBlock,
}

/// The route shown when the stack holds nothing else: the home screen with
/// the library hovered.
pub open spec fn default_route() -> Route {
    Route { id: RouteId::Home, active_block: ActiveBlock::Empty, hovered_block: ActiveBlock::Library }
}

/// The music source the interface browses.
#[derive(Debug, Clone, Copy, PartialEq, Eq, Structural)]
pub enum Source {
    Spotify,
    YouTube,
    Subsonic,
    Radio,
    Local,
}

// ---------------------------------------------------------------------------
// Outboxes
// ---------------------------------------------------------------------------

/// A podcast show as listed in search results.
#[derive(Debug, Clone, PartialEq)]
pub struct ShowInfo {
    pub id: Option<String>,
    pub uri: Option<String>,
    pub name: String,
    pub publisher: String,
}

/// Work handed to the playback/network side.
#[derive(Debug, Clone, PartialEq)]
pub enum IoEvent {
    /// Start playback: a context uri, or a list of track uris, and the offset
    /// into it.
    StartPlayback(Option<String>, Option<Vec<String>>, Option<usize>),
    PausePlayback,
    NextTrack,
    PreviousTrack,
    ForcePreviousTrack,
    Seek(u32),
    ChangeVolume(u8),
    /// Play the head of the native queue.
    AdvanceNativeQueue,
    ToggleSaveTrack(String),
    CurrentUserSavedAlbumAdd(String),
    AddItemToQueue(String),
    GetAlbum(String),
    GetLocalTracks(String),
    GetPlaylistItems(String, u32),
    GetShowEpisodes(ShowInfo),
    AddTrackToPlaylist(String, String),
    AddTrackToYouTubePlaylist(String, String),
    DeleteYouTubePlaylist(String),
    RemoveTrackFromYouTubePlaylist(String, String),
    RemoveTrackFromPlaylistAtPosition(String, String, usize),
    GetYouTubeSearchResults(String),
    GetYouTubePlaylists,
    GetYouTubeTracks(String),
    CreateYouTubePlaylist(String),
    ResumeSpotifyContext(Option<String>, Option<String>),
}

/// Why recommendations were requested.
#[derive(Debug, Clone, Copy, PartialEq, Eq, Structural)]
pub enum RecommendationsContext {
    Song,
    Artist,
}

/// Work handed to the interface shell (things that need more of the program
/// than the handlers see).
#[derive(Debug, Clone, PartialEq)]
pub enum AppRequest {
    /// Suspend whatever context is playing so the native queue can take over
    /// the output.
    SuspendActiveContext,
    AddTrackToNativeQueue(TrackInfo),
    RecommendationsForTrack(String),
    RecommendationsForSeed(Option<Vec<String>>, Option<Vec<String>>, Option<TrackInfo>),
    GetArtist(String, String),
    OpenPlaylistTracks(String),
    /// The named track has no id (a local file), so it cannot be added to a
    /// playlist; the shell tells the user.
    CannotAddToPlaylist(String),
    SaveAlbum,
    DeleteSavedAlbum,
    FollowArtists,
    UnfollowArtists,
    FollowPlaylist,
    FollowShow,
    UnfollowShow,
    UnfollowPlaylist,
    UnfollowPlaylistSearchResult,
    PersistOpenSettingsFallback,
    StatusMessage(String, u64),
}

// ---------------------------------------------------------------------------
// View state
// ---------------------------------------------------------------------------

/// One page of results.
#[derive(Debug, Clone, PartialEq)]
pub struct Paged<T> {
    pub items: Vec<T>,
    pub offset: u32,
    pub limit: u32,
    pub total: u32,
    pub next: Option<String>,
    pub previous: Option<String>,
}

/// An album as listed in search results or shown in the album view.
#[derive(Debug, Clone, PartialEq)]
pub struct AlbumInfo {
    pub id: Option<String>,
    pub uri: Option<String>,
    pub name: String,
    pub artists: Vec<ArtistRef>,
    pub album_type: Option<String>,
}

/// An artist as listed in search results.
#[derive(Debug, Clone, PartialEq)]
pub struct ArtistInfo {
    pub id: Option<String>,
    pub uri: Option<String>,
    pub name: String,
}

/// A playlist as listed in search results or the sidebar.
#[derive(Debug, Clone, PartialEq)]
pub struct PlaylistInfo {
    pub id: Option<String>,
    pub uri: String,
    pub name: String,
    pub owner_id: String,
    pub collaborative: bool,
}

/// Which block of the search results has the focus.
#[derive(Debug, Clone, Copy, PartialEq, Eq, Structural)]
pub enum SearchResultBlock {
    AlbumSearch,
    SongSearch,
    ArtistSearch,
    PlaylistSearch,
    ShowSearch,
    Empty,
}

/// The five blocks of search results and their selections.
#[derive(Debug, Clone, PartialEq)]
pub struct SearchResults {
    pub albums: Option<Paged<AlbumInfo>>,
    pub artists: Option<Paged<ArtistInfo>>,
    pub playlists: Option<Paged<PlaylistInfo>>,
    pub shows: Option<Paged<ShowInfo>>,
    pub tracks: Option<Paged<TrackInfo>>,
    pub selected_album_index: Option<usize>,
    pub selected_artists_index: Option<usize>,
    pub selected_playlists_index: Option<usize>,
    pub selected_tracks_index: Option<usize>,
    pub selected_shows_index: Option<usize>,
    pub hovered_block: SearchResultBlock,
    pub selected_block: SearchResultBlock,
}

/// What fills the shared track table.
#[derive(Debug, Clone, Copy, PartialEq, Eq, Structural)]
pub enum TrackTableContext {
    MyPlaylists,
    AlbumSearch,
    PlaylistSearch,
    SavedTracks,
    RecommendedTracks,
    LocalPlaylist,
    YouTubePlaylist,
}

/// The shared track table.
#[derive(Debug, Clone, PartialEq)]
pub struct TrackTable {
    pub tracks: Vec<TrackInfo>,
    pub selected_index: usize,
    pub context: Option<TrackTableContext>,
}

/// Which album view the album-tracks table shows.
#[derive(Debug, Clone, Copy, PartialEq, Eq, Structural)]
pub enum AlbumTableContext {
    Simplified,
    Full,
}

/// A fully loaded album and its tracks.
#[derive(Debug, Clone, PartialEq)]
pub struct FullAlbum {
    pub album: AlbumInfo,
    pub tracks: Vec<TrackInfo>,
}

/// An album opened from a list, with its own selection.
#[derive(Debug, Clone, PartialEq)]
pub struct SelectedAlbum {
    pub album: AlbumInfo,
    pub tracks: Vec<TrackInfo>,
    pub selected_index: usize,
}

/// A folder of the local music directory.
#[derive(Debug, Clone, PartialEq)]
pub struct LocalFolder {
    pub name: String,
    pub uri: String,
}

/// The recently-played list.
#[derive(Debug, Clone, PartialEq)]
pub struct RecentlyPlayed {
    pub result: Option<Vec<TrackInfo>>,
    pub index: usize,
}

/// A track removal waiting for confirmation.
#[derive(Debug, Clone, PartialEq)]
pub struct PendingTrackRemoval {
    pub playlist_id: String,
    pub track_id: String,
    pub position: usize,
}

/// A track waiting to be added to a playlist.
#[derive(Debug, Clone, PartialEq)]
pub struct PendingTrackAdd {
    pub track_id: String,
    pub track_name: String,
}

/// A folder of the playlist library: it lives in folder `current_id` and
/// opens folder `target_id` (a "back" row targets the parent).
#[derive(Debug, Clone, PartialEq)]
pub struct PlaylistFolder {
    pub name: String,
    pub current_id: usize,
    pub target_id: usize,
}

/// One entry of the flattened playlist library: a folder, or the playlist at
/// `index` of the user's playlists, living in folder `current_id`.
#[derive(Debug, Clone, PartialEq)]
pub enum PlaylistFolderItem {
    Folder(PlaylistFolder),
    Playlist { index: usize, current_id: usize },
}

/// The state the key handlers work on.
#[derive(Debug, Clone, PartialEq)]
pub struct App {
    pub navigation_stack: Vec<Route>,
    pub keys: KeyBindings,
    pub active_source: Source,
    /// Events for the playback/network side, oldest first.
    pub dispatched: Vec<IoEvent>,
    /// Requests for the interface shell, oldest first.
    pub requests: Vec<AppRequest>,
    pub native_queue: Vec<TrackInfo>,
    pub queue_selected_index: usize,
    /// Whether the native queue's slot is what is playing now.
    pub queue_owns_playback: bool,
    /// The context the native queue suspended, to resume once it drains.
    pub queue_suspended: Option<SuspendedContext>,
    pub album_table_context: AlbumTableContext,
    pub selected_album_full: Option<FullAlbum>,
    pub saved_album_tracks_index: usize,
    pub selected_album_simplified: Option<SelectedAlbum>,
    pub recommendations_context: Option<RecommendationsContext>,
    pub recommendations_seed: String,
    pub local_playlists: Vec<LocalFolder>,
    pub local_playlists_index: usize,
    pub track_table: TrackTable,
    pub recently_played: RecentlyPlayed,
    pub search_results: SearchResults,
    pub playlist_offset: u32,
    pub dialog: Option<String>,
    pub confirm: bool,
    pub selected_playlist_index: Option<usize>,
    pub youtube_playlists: Vec<PlaylistInfo>,
    pub pending_playlist_track_removal: Option<PendingTrackRemoval>,
    /// The track waiting for a playlist in the add-to-playlist picker.
    pub pending_playlist_track_add: Option<PendingTrackAdd>,
    /// The row under the cursor in the add-to-playlist picker.
    pub playlist_picker_selected_index: usize,
    /// The playlist folder the picker is showing (0 is the root).
    pub playlist_picker_folder_id: usize,
    /// The user's playlists, in library order.
    pub all_playlists: Vec<PlaylistInfo>,
    /// The signed-in user's id.
    pub user_id: Option<String>,
    /// The folder tree of the playlist library, flattened.
    pub playlist_folder_items: Vec<PlaylistFolderItem>,
    /// Whether folder rows are listed before playlist rows.
    pub group_folders_first: bool,
    /// The local YouTube playlist open in the track table, if any.
    pub youtube_open_playlist: Option<String>,
}

/// A fresh interface: the home route, default keys, the Spotify source,
/// nothing selected, loaded, queued or pending.
pub open spec fn is_fresh(app: App) -> bool {
    &&& app.navigation_stack@ == seq![default_route()]
    &&& app.keys == KeyBindings::spec_default()
    &&& app.active_source == Source::Spotify
    &&& app.dispatched@.len() == 0
    &&& app.requests@.len() == 0
    &&& app.native_queue@.len() == 0
    &&& app.queue_selected_index == 0
    &&& !app.queue_owns_playback
    &&& app.queue_suspended is None
    &&& app.album_table_context == AlbumTableContext::Simplified
    &&& app.selected_album_full is None
    &&& app.saved_album_tracks_index == 0
    &&& app.selected_album_simplified is None
    &&& app.recommendations_context is None
    &&& app.recommendations_seed@.len() == 0
    &&& app.local_playlists@.len() == 0
    &&& app.local_playlists_index == 0
    &&& app.track_table.tracks@.len() == 0
    &&& app.track_table.selected_index == 0
    &&& app.track_table.context is None
    &&& app.recently_played.result is None
    &&& app.recently_played.index == 0
    &&& app.search_results == SearchResults::spec_empty()
    &&& app.playlist_offset == 0
    &&& app.dialog is None
    &&& !app.confirm
    &&& app.selected_playlist_index is None
    &&& app.youtube_playlists@.len() == 0
    &&& app.pending_playlist_track_removal is None
    &&& app.pending_playlist_track_add is None
    &&& app.playlist_picker_selected_index == 0
    &&& app.playlist_picker_folder_id == 0
    &&& app.all_playlists@.len() == 0
    &&& app.user_id is None
    &&& app.playlist_folder_items@.len() == 0
    &&& !app.group_folders_first
    &&& app.youtube_open_playlist is None
}

impl Default for App {
    /// A fresh interface (see [`App::new`]).
    fn default() -> (app: App)
        ensures
            is_fresh(app),
    {
        App::new()
    }
}

/// The route on top of the navigation stack.
pub open spec fn current_route(stack: Seq<Route>) -> Route {
    if stack.len() == 0 {
        default_route()
    } else {
        stack.last()
    }
}

impl App {
    /// A fresh interface: the home route, default keys, the Spotify source,
    /// nothing selected, loaded, queued or pending.
    pub fn new() -> (app: App)
        ensures
            is_fresh(app),
    {
        let mut navigation_stack = Vec::new();
        navigation_stack.push(
            Route {
                id: RouteId::Home,
                active_block: ActiveBlock::Empty,
                hovered_block: ActiveBlock::Library,
            },
        );
        App {
            navigation_stack,
            keys: KeyBindings::new(),
            active_source: Source::Spotify,
            dispatched: Vec::new(),
            requests: Vec::new(),
            native_queue: Vec::new(),
            queue_selected_index: 0,
            queue_owns_playback: false,
            queue_suspended: None,
            album_table_context: AlbumTableContext::Simplified,
            selected_album_full: None,
            saved_album_tracks_index: 0,
            selected_album_simplified: None,
            recommendations_context: None,
            recommendations_seed: String::new(),
            local_playlists: Vec::new(),
            local_playlists_index: 0,
            track_table: TrackTable { tracks: Vec::new(), selected_index: 0, context: None },
            recently_played: RecentlyPlayed { result: None, index: 0 },
            search_results: SearchResults::new(),
            playlist_offset: 0,
            dialog: None,
            confirm: false,
            selected_playlist_index: None,
            youtube_playlists: Vec::new(),
            pending_playlist_track_removal: None,
            pending_playlist_track_add: None,
            playlist_picker_selected_index: 0,
            playlist_picker_folder_id: 0,
            all_playlists: Vec::new(),
            user_id: None,
            playlist_folder_items: Vec::new(),
            group_folders_first: false,
            youtube_open_playlist: None,
        }
    }

    /// The route on top of the navigation stack (the home route when the
    /// stack is empty).
    pub fn get_current_route(&self) -> (r: Route)
        ensures
            r == current_route(self.navigation_stack@),
    {
        let n = self.navigation_stack.len();
        if n == 0 {
            Route {
                id: RouteId::Home,
                active_block: ActiveBlock::Empty,
                hovered_block: ActiveBlock::Library,
            }
        } else {
            self.navigation_stack[n - 1]
        }
    }

    /// Change the active and/or hovered block of the current route (a route
    /// is pushed first if the stack is empty).
    pub fn set_current_route_state(
        &mut self,
        active_block: Option<ActiveBlock>,
        hovered_block: Option<ActiveBlock>,
    )
        ensures
            ({
                let old_route = current_route(old(self).navigation_stack@);
                let new_route = Route {
                    id: old_route.id,
                    active_block: match active_block {
                        Some(b) => b,
                        None => old_route.active_block,
                    },
                    hovered_block: match hovered_block {
                        Some(b) => b,
                        None => old_route.hovered_block,
                    },
                };
                &&& old(self).navigation_stack@.len() > 0 ==> final(self).navigation_stack@
                    == old(self).navigation_stack@.update(
                    old(self).navigation_stack@.len() - 1,
                    new_route,
                )
                &&& old(self).navigation_stack@.len() == 0 ==> final(self).navigation_stack@
                    == seq![new_route]
            }),
            only_changes(*old(self), *final(self), nav_changes()),
    {
        let mut route = self.get_current_route();
        if let Some(b) = active_block {
            route.active_block = b;
        }
        if let Some(b) = hovered_block {
            route.hovered_block = b;
        }
        let n = self.navigation_stack.len();
        if n == 0 {
            self.navigation_stack.push(route);
        } else {
            self.navigation_stack.set(n - 1, route);
        }
    }

    /// Open a new screen with `block` both active and hovered.
    pub fn push_navigation_stack(&mut self, id: RouteId, block: ActiveBlock)
        ensures
            final(self).navigation_stack@ == old(self).navigation_stack@.push(
                Route { id, active_block: block, hovered_block: block },
            ),
            only_changes(*old(self), *final(self), nav_changes()),
    {
        self.navigation_stack.push(Route { id, active_block: block, hovered_block: block });
    }

    /// Close the current screen, unless it is the only one.
    pub fn pop_navigation_stack(&mut self)
        ensures
            old(self).navigation_stack@.len() > 1 ==> final(self).navigation_stack@
                == old(self).navigation_stack@.drop_last(),
            old(self).navigation_stack@.len() <= 1 ==> final(self).navigation_stack@
                == old(self).navigation_stack@,
            only_changes(*old(self), *final(self), nav_changes()),
    {
        if self.navigation_stack.len() > 1 {
            self.navigation_stack.pop();
        }
    }

    /// Hand an event to the playback/network side.
    pub fn dispatch(&mut self, event: IoEvent)
        ensures
            final(self).dispatched@ == old(self).dispatched@.push(event),
            final(self).requests == old(self).requests,
            same_except_outboxes(*old(self), *final(self)),
    {
        self.dispatched.push(event);
    }

    /// Hand a request to the interface shell.
    pub fn request(&mut self, request: AppRequest)
        ensures
            final(self).requests@ == old(self).requests@.push(request),
            final(self).dispatched == old(self).dispatched,
            same_except_outboxes(*old(self), *final(self)),
    {
        self.requests.push(request);
    }

    /// Open the add-to-playlist picker for a track: remember the track as
    /// the pending add, start the picker at its first row in the root
    /// folder, and show the picker dialog. A track without an id (a local
    /// file) cannot be added; the shell is asked to say so.
    pub fn begin_add_track_to_playlist_flow(&mut self, track_id: Option<String>, track_name: String)
        ensures
            add_flow_opened(
                *old(self),
                *final(self),
                match track_id {
                    Some(i) => Some(i@),
                    None => None,
                },
                track_name,
            ),
    {
        match track_id {
            Some(id) => {
                self.pending_playlist_track_add = Some(PendingTrackAdd { track_id: id, track_name });
                self.playlist_picker_selected_index = 0;
                self.playlist_picker_folder_id = 0;
                self.push_navigation_stack(
                    RouteId::Dialog,
                    ActiveBlock::Dialog(DialogContext::AddTrackToPlaylistPicker),
                );
            },
            None => {
                self.request(AppRequest::CannotAddToPlaylist(track_name));
            },
        }
    }
}

/// `b` is `a` with the add-to-playlist flow opened for the track `id` (by
/// its characters) named `name`: the pending add set, the picker at row 0
/// of the root folder, and the picker dialog pushed. Without an id, only the
/// cannot-add request is made.
pub open spec fn add_flow_opened(a: App, b: App, id: Option<Seq<char>>, name: String) -> bool {
    match id {
        Some(i) => {
            &&& (b.pending_playlist_track_add matches Some(p) && p.track_id@ == i && p.track_name
                == name)
            &&& b.playlist_picker_selected_index == 0
            &&& b.playlist_picker_folder_id == 0
            &&& b.navigation_stack@ == a.navigation_stack@.push(
                Route {
                    id: RouteId::Dialog,
                    active_block: ActiveBlock::Dialog(DialogContext::AddTrackToPlaylistPicker),
                    hovered_block: ActiveBlock::Dialog(DialogContext::AddTrackToPlaylistPicker),
                },
            )
            &&& only_changes(a, b, Changes { nav: true, picker: true, ..nothing_changes() })
        },
        None => {
            &&& b.requests@ == a.requests@.push(AppRequest::CannotAddToPlaylist(name))
            &&& only_changes(a, b, Changes { requests: true, ..nothing_changes() })
        },
    }
}

/// Moving left out of a list leaves the view: nothing active, the library
/// hovered.
pub fn handle_left_event(app: &mut App)
    ensures
        current_route(final(app).navigation_stack@).active_block == ActiveBlock::Empty,
        current_route(final(app).navigation_stack@).hovered_block == ActiveBlock::Library,
        current_route(final(app).navigation_stack@).id == current_route(
            old(app).navigation_stack@,
        ).id,
        final(app).navigation_stack@.len() == if old(app).navigation_stack@.len() == 0 {
            1
        } else {
            old(app).navigation_stack@.len()
        },
        old(app).navigation_stack@.len() > 0 ==> final(app).navigation_stack@.drop_last()
            == old(app).navigation_stack@.drop_last(),
        only_changes(*old(app), *final(app), nav_changes()),
{
    app.set_current_route_state(Some(ActiveBlock::Empty), Some(ActiveBlock::Library));
    proof {
        let s = old(app).navigation_stack@;
        if s.len() > 0 {
            assert(final(app).navigation_stack@.drop_last() =~= s.drop_last());
        }
    }
}

impl KeyBindings {
    /// The default bindings.
    pub open spec fn spec_default() -> KeyBindings {
        KeyBindings {
            move_down: Key::Char('j'),
            move_up: Key::Char('k'),
            move_left: Key::Char('h'),
            move_right: Key::Char('l'),
            add_item_to_queue: Key::Char('z'),
            remove_from_queue: Key::Char('x'),
        }
    }
}

impl SearchResults {
    /// No results, nothing selected, nothing hovered.
    pub open spec fn spec_empty() -> SearchResults {
        SearchResults {
            albums: None,
            artists: None,
            playlists: None,
            shows: None,
            tracks: None,
            selected_album_index: None,
            selected_artists_index: None,
            selected_playlists_index: None,
            selected_tracks_index: None,
            selected_shows_index: None,
            hovered_block: SearchResultBlock::SongSearch,
            selected_block: SearchResultBlock::Empty,
        }
    }

    /// No results, nothing selected; the songs block hovered.
    pub fn new() -> (r: SearchResults)
        ensures
            r == SearchResults::spec_empty(),
    {
        SearchResults {
            albums: None,
            artists: None,
            playlists: None,
            shows: None,
            tracks: None,
            selected_album_index: None,
            selected_artists_index: None,
            selected_playlists_index: None,
            selected_tracks_index: None,
            selected_shows_index: None,
            hovered_block: SearchResultBlock::SongSearch,
            selected_block: SearchResultBlock::Empty,
        }
    }
}

} // verus!

verus! {

/// `b` differs from `a` at most in the two outboxes.
pub open spec fn same_except_outboxes(a: App, b: App) -> bool {
    &&& same_except_queue_view(a, b)
    &&& b.native_queue == a.native_queue
    &&& b.queue_selected_index == a.queue_selected_index
}

/// `b` differs from `a` at most in the native queue, its selection and the
/// two outboxes.
pub open spec fn same_except_queue_view(a: App, b: App) -> bool {
    &&& b.navigation_stack == a.navigation_stack
    &&& b.keys == a.keys
    &&& b.active_source == a.active_source
    &&& b.queue_owns_playback == a.queue_owns_playback
    &&& b.queue_suspended == a.queue_suspended
    &&& b.album_table_context == a.album_table_context
    &&& b.selected_album_full == a.selected_album_full
    &&& b.saved_album_tracks_index == a.saved_album_tracks_index
    &&& b.selected_album_simplified == a.selected_album_simplified
    &&& b.recommendations_context == a.recommendations_context
    &&& b.recommendations_seed == a.recommendations_seed
    &&& b.local_playlists == a.local_playlists
    &&& b.local_playlists_index == a.local_playlists_index
    &&& b.track_table == a.track_table
    &&& b.recently_played == a.recently_played
    &&& b.search_results == a.search_results
    &&& b.playlist_offset == a.playlist_offset
    &&& b.dialog == a.dialog
    &&& b.confirm == a.confirm
    &&& b.selected_playlist_index == a.selected_playlist_index
    &&& b.youtube_playlists == a.youtube_playlists
    &&& b.pending_playlist_track_removal == a.pending_playlist_track_removal
    &&& b.pending_playlist_track_add == a.pending_playlist_track_add
    &&& b.playlist_picker_selected_index == a.playlist_picker_selected_index
    &&& b.playlist_picker_folder_id == a.playlist_picker_folder_id
    &&& b.all_playlists == a.all_playlists
    &&& b.user_id == a.user_id
    &&& b.playlist_folder_items == a.playlist_folder_items
    &&& b.group_folders_first == a.group_folders_first
    &&& b.youtube_open_playlist == a.youtube_open_playlist
}

} // verus!

verus! {

/// Which parts of the interface state an operation may change.
pub struct Changes {
    pub nav: bool,
    pub dispatched: bool,
    pub requests: bool,
    pub queue: bool,
    pub album: bool,
    pub recommendations: bool,
    pub local: bool,
    pub track_table: bool,
    pub recently_played: bool,
    pub search: bool,
    pub playlist_offset: bool,
    pub dialog: bool,
    pub picker: bool,
    pub slot: bool,
}

/// No part may change.
pub open spec fn nothing_changes() -> Changes {
    Changes {
        nav: false,
        dispatched: false,
        requests: false,
        queue: false,
        album: false,
        recommendations: false,
        local: false,
        track_table: false,
        recently_played: false,
        search: false,
        playlist_offset: false,
        dialog: false,
        picker: false,
        slot: false,
    }
}

/// `b` equals `a` in every part that `c` does not allow to change.
pub open spec fn only_changes(a: App, b: App, c: Changes) -> bool {
    &&& b.keys == a.keys
    &&& b.active_source == a.active_source
    &&& b.selected_playlist_index == a.selected_playlist_index
    &&& b.youtube_playlists == a.youtube_playlists
    &&& b.pending_playlist_track_removal == a.pending_playlist_track_removal
    &&& b.all_playlists == a.all_playlists
    &&& b.user_id == a.user_id
    &&& b.playlist_folder_items == a.playlist_folder_items
    &&& b.group_folders_first == a.group_folders_first
    &&& !c.picker ==> b.playlist_picker_selected_index == a.playlist_picker_selected_index
        && b.playlist_picker_folder_id == a.playlist_picker_folder_id
        && b.pending_playlist_track_add == a.pending_playlist_track_add
    &&& !c.slot ==> b.queue_owns_playback == a.queue_owns_playback && b.queue_suspended
        == a.queue_suspended
    &&& !c.nav ==> b.navigation_stack == a.navigation_stack
    &&& !c.dispatched ==> b.dispatched == a.dispatched
    &&& !c.requests ==> b.requests == a.requests
    &&& !c.queue ==> b.native_queue == a.native_queue && b.queue_selected_index
        == a.queue_selected_index
    &&& !c.album ==> b.album_table_context == a.album_table_context && b.selected_album_full
        == a.selected_album_full && b.saved_album_tracks_index == a.saved_album_tracks_index
        && b.selected_album_simplified == a.selected_album_simplified
    &&& !c.recommendations ==> b.recommendations_context == a.recommendations_context
        && b.recommendations_seed == a.recommendations_seed
    &&& !c.local ==> b.local_playlists == a.local_playlists && b.local_playlists_index
        == a.local_playlists_index
    &&& !c.track_table ==> b.track_table == a.track_table && b.youtube_open_playlist
        == a.youtube_open_playlist
    &&& !c.recently_played ==> b.recently_played == a.recently_played
    &&& !c.search ==> b.search_results == a.search_results
    &&& !c.playlist_offset ==> b.playlist_offset == a.playlist_offset
    &&& !c.dialog ==> b.dialog == a.dialog && b.confirm == a.confirm
}

} // verus!

verus! {

/// Only the navigation stack may change.
pub open spec fn nav_changes() -> Changes {
    Changes { nav: true, ..nothing_changes() }
}

/// Only the search results may change.
pub open spec fn search_changes() -> Changes {
    Changes { search: true, ..nothing_changes() }
}

/// Only the search results and the navigation stack may change.
pub open spec fn search_and_nav_changes() -> Changes {
    Changes { search: true, nav: true, ..nothing_changes() }
}

/// Only the dialog and the navigation stack may change.
pub open spec fn dialog_and_nav_changes() -> Changes {
    Changes { dialog: true, nav: true, ..nothing_changes() }
}

/// Only the dispatched events may change.
pub open spec fn dispatch_changes() -> Changes {
    Changes { dispatched: true, ..nothing_changes() }
}

/// Only the requests may change.
pub open spec fn request_changes() -> Changes {
    Changes { requests: true, ..nothing_changes() }
}

/// `sr` with `b` hovered.
pub open spec fn with_hovered(sr: SearchResults, b: SearchResultBlock) -> SearchResults {
    SearchResults { hovered_block: b, ..sr }
}

/// `sr` with `b` selected.
pub open spec fn with_selected_block(sr: SearchResults, b: SearchResultBlock) -> SearchResults {
    SearchResults { selected_block: b, ..sr }
}

} // verus!

verus! {

impl ShowInfo {
    /// A copy of this show.
    pub fn duplicate(&self) -> (r: ShowInfo)
        ensures
            r == *self,
    {
        ShowInfo {
            id: self.id.clone(),
            uri: self.uri.clone(),
            name: self.name.clone(),
            publisher: self.publisher.clone(),
        }
    }
}

} // verus!
