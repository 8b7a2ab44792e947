//! Key handling for the search-results view: five blocks (songs, artists,
//! albums, playlists, podcasts) laid out in a grid. With no block selected,
//! the arrow keys move the hover between blocks; once a block is selected they
//! move the selection inside it. Under the internet-radio source there is a
//! single station list (backed by the songs block) and navigation is pinned
//! to it.

use vstd::prelude::*;

use crate::app::{
    add_flow_opened, moved_row, ListMove,
    current_route, dialog_and_nav_changes, dispatch_changes, down_event, handle_left_event, high_event, is_down, is_left,
    is_right, is_up, last_row, left_event, low_event, middle_event, middle_row, next_row,
    nothing_changes, on_down_press_handler, on_high_press_handler, on_low_press_handler,
    on_middle_press_handler, on_up_press_handler, only_changes, prev_row, request_changes,
    right_event, search_and_nav_changes, search_changes, up_event, with_hovered,
    with_selected_block, ActiveBlock, AlbumInfo, App, AppRequest, ArtistInfo, Changes,
    DialogContext, IoEvent, Key, KeyBindings, PlaylistInfo, RecommendationsContext, Route,
    RouteId, SearchResultBlock, SearchResults, ShowInfo, Source, TrackTableContext,
};
use crate::ids::{is_base62_id, playlist_from_id};
use crate::track::{same_track, TrackInfo};

verus! {

// ---------------------------------------------------------------------------
// Specification
// ---------------------------------------------------------------------------

/// The number of rows of a block, when the block has results.
pub open spec fn block_len(sr: SearchResults, b: SearchResultBlock) -> Option<nat> {
    match b {
        SearchResultBlock::AlbumSearch => match sr.albums {
            Some(p) => Some(p.items@.len()),
            None => None,
        },
        SearchResultBlock::SongSearch => match sr.tracks {
            Some(p) => Some(p.items@.len()),
            None => None,
        },
        SearchResultBlock::ArtistSearch => match sr.artists {
            Some(p) => Some(p.items@.len()),
            None => None,
        },
        SearchResultBlock::PlaylistSearch => match sr.playlists {
            Some(p) => Some(p.items@.len()),
            None => None,
        },
        SearchResultBlock::ShowSearch => match sr.shows {
            Some(p) => Some(p.items@.len()),
            None => None,
        },
        SearchResultBlock::Empty => None,
    }
}

/// The selected row of a block.
pub open spec fn block_selection(sr: SearchResults, b: SearchResultBlock) -> Option<usize> {
    match b {
        SearchResultBlock::AlbumSearch => sr.selected_album_index,
        SearchResultBlock::SongSearch => sr.selected_tracks_index,
        SearchResultBlock::ArtistSearch => sr.selected_artists_index,
        SearchResultBlock::PlaylistSearch => sr.selected_playlists_index,
        SearchResultBlock::ShowSearch => sr.selected_shows_index,
        SearchResultBlock::Empty => None,
    }
}

/// `sr` with the selection of block `b` set to `v`.
pub open spec fn with_selection(sr: SearchResults, b: SearchResultBlock, v: Option<usize>) -> SearchResults {
    match b {
        SearchResultBlock::AlbumSearch => SearchResults { selected_album_index: v, ..sr },
        SearchResultBlock::SongSearch => SearchResults { selected_tracks_index: v, ..sr },
        SearchResultBlock::ArtistSearch => SearchResults { selected_artists_index: v, ..sr },
        SearchResultBlock::PlaylistSearch => SearchResults { selected_playlists_index: v, ..sr },
        SearchResultBlock::ShowSearch => SearchResults { selected_shows_index: v, ..sr },
        SearchResultBlock::Empty => sr,
    }
}

/// The results after a move inside the selected block: nothing happens when
/// no block is selected or the selected block has no results.
pub open spec fn after_move_in_selected(sr: SearchResults, m: ListMove) -> SearchResults {
    let b = sr.selected_block;
    match block_len(sr, b) {
        Some(n) => with_selection(sr, b, Some(moved_row(m, n, block_selection(sr, b)) as usize)),
        None => sr,
    }
}

/// The block hovered after a down move between blocks.
pub open spec fn hover_below(b: SearchResultBlock) -> SearchResultBlock {
    match b {
        SearchResultBlock::AlbumSearch => SearchResultBlock::ShowSearch,
        SearchResultBlock::SongSearch => SearchResultBlock::AlbumSearch,
        SearchResultBlock::ArtistSearch => SearchResultBlock::PlaylistSearch,
        SearchResultBlock::PlaylistSearch => SearchResultBlock::ShowSearch,
        SearchResultBlock::ShowSearch => SearchResultBlock::SongSearch,
        SearchResultBlock::Empty => SearchResultBlock::Empty,
    }
}

/// The block hovered after an up move between blocks.
pub open spec fn hover_above(b: SearchResultBlock) -> SearchResultBlock {
    match b {
        SearchResultBlock::AlbumSearch => SearchResultBlock::SongSearch,
        SearchResultBlock::SongSearch => SearchResultBlock::ShowSearch,
        SearchResultBlock::ArtistSearch => SearchResultBlock::ShowSearch,
        SearchResultBlock::PlaylistSearch => SearchResultBlock::ArtistSearch,
        SearchResultBlock::ShowSearch => SearchResultBlock::AlbumSearch,
        SearchResultBlock::Empty => SearchResultBlock::Empty,
    }
}

/// The block hovered after a right move between blocks.
pub open spec fn hover_right_of(b: SearchResultBlock) -> SearchResultBlock {
    match b {
        SearchResultBlock::AlbumSearch => SearchResultBlock::PlaylistSearch,
        SearchResultBlock::SongSearch => SearchResultBlock::ArtistSearch,
        SearchResultBlock::ArtistSearch => SearchResultBlock::SongSearch,
        SearchResultBlock::PlaylistSearch => SearchResultBlock::AlbumSearch,
        SearchResultBlock::ShowSearch => SearchResultBlock::ShowSearch,
        SearchResultBlock::Empty => SearchResultBlock::Empty,
    }
}

/// Whether a left move from the hovered block `b` leaves the view (rather
/// than moving the hover inside it).
pub open spec fn left_leaves_view(b: SearchResultBlock) -> bool {
    b == SearchResultBlock::AlbumSearch || b == SearchResultBlock::SongSearch || b
        == SearchResultBlock::ShowSearch
}

/// The block hovered after a left move that stays in the view.
pub open spec fn hover_left_of(b: SearchResultBlock) -> SearchResultBlock {
    match b {
        SearchResultBlock::ArtistSearch => SearchResultBlock::SongSearch,
        SearchResultBlock::PlaylistSearch => SearchResultBlock::AlbumSearch,
        _ => b,
    }
}

/// The results after Enter on the hovered block: that block becomes selected,
/// keeping its selection or starting at row 0.
pub open spec fn after_enter_hovered(sr: SearchResults) -> SearchResults {
    let b = sr.hovered_block;
    if b == SearchResultBlock::Empty {
        sr
    } else {
        let sel = match block_selection(sr, b) {
            Some(i) => i,
            None => 0,
        };
        SearchResults { selected_block: b, ..with_selection(sr, b, Some(sel)) }
    }
}

/// The uris of the listed songs, in order, skipping songs without one.
pub open spec fn song_uris(items: Seq<TrackInfo>) -> Seq<String>
    decreases items.len(),
{
    if items.len() == 0 {
        seq![]
    } else {
        song_uris(items.drop_last()) + match items.last().uri {
            Some(u) => seq![u],
            None => seq![],
        }
    }
}

/// The album under the album selection.
pub open spec fn selected_album(sr: SearchResults) -> Option<AlbumInfo> {
    match (sr.selected_album_index, sr.albums) {
        (Some(i), Some(p)) => if i < p.items@.len() {
            Some(p.items@[i as int])
        } else {
            None
        },
        _ => None,
    }
}

/// The song under the song selection.
pub open spec fn selected_song(sr: SearchResults) -> Option<TrackInfo> {
    match (sr.selected_tracks_index, sr.tracks) {
        (Some(i), Some(p)) => if i < p.items@.len() {
            Some(p.items@[i as int])
        } else {
            None
        },
        _ => None,
    }
}

/// The artist under the artist selection.
pub open spec fn selected_artist(sr: SearchResults) -> Option<ArtistInfo> {
    match (sr.selected_artists_index, sr.artists) {
        (Some(i), Some(p)) => if i < p.items@.len() {
            Some(p.items@[i as int])
        } else {
            None
        },
        _ => None,
    }
}

/// The playlist under the playlist selection.
pub open spec fn selected_playlist(sr: SearchResults) -> Option<PlaylistInfo> {
    match (sr.selected_playlists_index, sr.playlists) {
        (Some(i), Some(p)) => if i < p.items@.len() {
            Some(p.items@[i as int])
        } else {
            None
        },
        _ => None,
    }
}

/// The show under the show selection.
pub open spec fn selected_show(sr: SearchResults) -> Option<ShowInfo> {
    match (sr.selected_shows_index, sr.shows) {
        (Some(i), Some(p)) => if i < p.items@.len() {
            Some(p.items@[i as int])
        } else {
            None
        },
        _ => None,
    }
}

/// The effect of Enter on the selected block `b`, given the app before.
pub open spec fn enter_selected_effect(a: App, b: App) -> bool {
    let sr = a.search_results;
    match sr.selected_block {
        SearchResultBlock::AlbumSearch => match selected_album(sr) {
            Some(album) => match album.id {
                Some(id) => {
                    &&& b.track_table.context == Some(TrackTableContext::AlbumSearch)
                    &&& b.track_table.tracks == a.track_table.tracks
                    &&& b.track_table.selected_index == a.track_table.selected_index
                    &&& b.dispatched@ == a.dispatched@.push(IoEvent::GetAlbum(id))
                    &&& only_changes(
                        a,
                        b,
                        Changes { track_table: true, dispatched: true, ..nothing_changes() },
                    )
                },
                None => only_changes(a, b, nothing_changes()),
            },
            None => only_changes(a, b, nothing_changes()),
        },
        SearchResultBlock::SongSearch => {
            let uris = match sr.tracks {
                Some(p) => Some(song_uris(p.items@)),
                None => None,
            };
            &&& b.dispatched@.len() == a.dispatched@.len() + 1
            &&& b.dispatched@.drop_last() == a.dispatched@
            &&& b.dispatched@.last() matches IoEvent::StartPlayback(None, list, index) && index
                == sr.selected_tracks_index && match (list, uris) {
                (Some(l), Some(u)) => l@ == u,
                (None, None) => true,
                _ => false,
            }
            &&& only_changes(a, b, dispatch_changes())
        },
        SearchResultBlock::ArtistSearch => match selected_artist(sr) {
            Some(artist) => match artist.id {
                Some(id) => {
                    &&& b.requests@ == a.requests@.push(AppRequest::GetArtist(id, artist.name))
                    &&& only_changes(a, b, request_changes())
                },
                None => only_changes(a, b, nothing_changes()),
            },
            None => only_changes(a, b, nothing_changes()),
        },
        SearchResultBlock::PlaylistSearch => match selected_playlist(sr) {
            Some(pl) => match pl.id {
                Some(id) => if is_base62_id(id@) {
                    &&& b.requests@ == a.requests@.push(AppRequest::OpenPlaylistTracks(id))
                    &&& b.dispatched@ == a.dispatched@.push(
                        IoEvent::GetPlaylistItems(id, a.playlist_offset),
                    )
                    &&& only_changes(
                        a,
                        b,
                        Changes { requests: true, dispatched: true, ..nothing_changes() },
                    )
                } else {
                    only_changes(a, b, nothing_changes())
                },
                None => only_changes(a, b, nothing_changes()),
            },
            None => only_changes(a, b, nothing_changes()),
        },
        SearchResultBlock::ShowSearch => match selected_show(sr) {
            Some(show) => {
                &&& b.dispatched@ == a.dispatched@.push(IoEvent::GetShowEpisodes(show))
                &&& only_changes(a, b, dispatch_changes())
            },
            None => only_changes(a, b, nothing_changes()),
        },
        SearchResultBlock::Empty => only_changes(a, b, nothing_changes()),
    }
}

/// The effect of asking for recommendations from the selected block.
pub open spec fn recommend_effect(a: App, b: App) -> bool {
    let sr = a.search_results;
    match sr.selected_block {
        SearchResultBlock::SongSearch => match selected_song(sr) {
            Some(t) => {
                let ids = match t.id {
                    Some(id) => Some(seq![id]),
                    None => None,
                };
                &&& b.recommendations_context == Some(RecommendationsContext::Song)
                &&& b.recommendations_seed == t.name
                &&& b.requests@.len() == a.requests@.len() + 1
                &&& b.requests@.drop_last() == a.requests@
                &&& b.requests@.last() matches AppRequest::RecommendationsForSeed(
                    None,
                    tl,
                    Some(track),
                ) && same_track(track, t) && match (tl, ids) {
                    (Some(l), Some(i)) => l@ == i,
                    (None, None) => true,
                    _ => false,
                }
                &&& only_changes(
                    a,
                    b,
                    Changes { recommendations: true, requests: true, ..nothing_changes() },
                )
            },
            None => only_changes(a, b, nothing_changes()),
        },
        SearchResultBlock::ArtistSearch => match selected_artist(sr) {
            Some(ar) => {
                let ids = match ar.id {
                    Some(id) => Some(seq![id]),
                    None => None,
                };
                &&& b.recommendations_context == Some(RecommendationsContext::Artist)
                &&& b.recommendations_seed == ar.name
                &&& b.requests@.len() == a.requests@.len() + 1
                &&& b.requests@.drop_last() == a.requests@
                &&& b.requests@.last() matches AppRequest::RecommendationsForSeed(al, None, None)
                    && match (al, ids) {
                    (Some(l), Some(i)) => l@ == i,
                    (None, None) => true,
                    _ => false,
                }
                &&& only_changes(
                    a,
                    b,
                    Changes { recommendations: true, requests: true, ..nothing_changes() },
                )
            },
            None => only_changes(a, b, nothing_changes()),
        },
        _ => only_changes(a, b, nothing_changes()),
    }
}

/// The effect of the add-to-queue key: the selected song's uri is queued.
pub open spec fn add_to_queue_effect(a: App, b: App) -> bool {
    let sr = a.search_results;
    if sr.selected_block == SearchResultBlock::SongSearch && selected_song(sr) is Some
        && selected_song(sr)->0.uri is Some {
        &&& b.dispatched@ == a.dispatched@.push(
            IoEvent::AddItemToQueue(selected_song(sr)->0.uri->0),
        )
        &&& only_changes(a, b, dispatch_changes())
    } else {
        only_changes(a, b, nothing_changes())
    }
}

/// The key classes of the search view, in the order they are tested.
pub enum SearchKey {
    Esc,
    Down,
    Up,
    Left,
    Right,
    Move(ListMove),
    Enter,
    Save,
    Delete,
    Recommend,
    AddToQueue,
    Other,
}

/// How the search view (outside radio) reads a key.
pub open spec fn classify_search_key(key: Key, keys: KeyBindings, selected: SearchResultBlock) -> SearchKey {
    if key == Key::Esc {
        SearchKey::Esc
    } else if is_down(key, keys) {
        SearchKey::Down
    } else if is_up(key, keys) {
        SearchKey::Up
    } else if is_left(key, keys) {
        SearchKey::Left
    } else if is_right(key, keys) {
        SearchKey::Right
    } else if key == Key::Char('H') && selected != SearchResultBlock::Empty {
        SearchKey::Move(ListMove::High)
    } else if key == Key::Char('M') && selected != SearchResultBlock::Empty {
        SearchKey::Move(ListMove::Middle)
    } else if key == Key::Char('L') && selected != SearchResultBlock::Empty {
        SearchKey::Move(ListMove::Low)
    } else if key == Key::Enter {
        SearchKey::Enter
    } else if key == Key::Char('w') {
        SearchKey::Save
    } else if key == Key::Char('D') {
        SearchKey::Delete
    } else if key == Key::Char('r') {
        SearchKey::Recommend
    } else if key == keys.add_item_to_queue {
        SearchKey::AddToQueue
    } else {
        SearchKey::Other
    }
}

/// How the radio station view reads a key.
pub open spec fn classify_radio_key(key: Key, keys: KeyBindings) -> SearchKey {
    if key == Key::Esc {
        SearchKey::Esc
    } else if is_left(key, keys) {
        SearchKey::Left
    } else if is_down(key, keys) {
        SearchKey::Down
    } else if is_up(key, keys) {
        SearchKey::Up
    } else if key == Key::Char('H') {
        SearchKey::Move(ListMove::High)
    } else if key == Key::Char('M') {
        SearchKey::Move(ListMove::Middle)
    } else if key == Key::Char('L') {
        SearchKey::Move(ListMove::Low)
    } else if key == Key::Enter {
        SearchKey::Enter
    } else {
        SearchKey::Other
    }
}

/// The request the save key (`w`) makes for a selected block.
pub open spec fn save_request(b: SearchResultBlock) -> Option<AppRequest> {
    match b {
        SearchResultBlock::AlbumSearch => Some(AppRequest::SaveAlbum),
        SearchResultBlock::ArtistSearch => Some(AppRequest::FollowArtists),
        SearchResultBlock::PlaylistSearch => Some(AppRequest::FollowPlaylist),
        SearchResultBlock::ShowSearch => Some(AppRequest::FollowShow),
        _ => None,
    }
}

/// The request the delete key (`D`) makes for a selected block (playlists
/// open a confirmation dialog instead).
pub open spec fn delete_request(b: SearchResultBlock) -> Option<AppRequest> {
    match b {
        SearchResultBlock::AlbumSearch => Some(AppRequest::DeleteSavedAlbum),
        SearchResultBlock::ArtistSearch => Some(AppRequest::UnfollowArtists),
        SearchResultBlock::ShowSearch => Some(AppRequest::UnfollowShow),
        _ => None,
    }
}

/// Whether `b` is `a` after a left move out of the view (nothing active, the
/// library hovered, the rest of the stack untouched).
pub open spec fn left_out_of_view(a: Seq<Route>, b: Seq<Route>) -> bool {
    &&& current_route(b).active_block == ActiveBlock::Empty
    &&& current_route(b).hovered_block == ActiveBlock::Library
    &&& current_route(b).id == current_route(a).id
    &&& b.len() == if a.len() == 0 {
        1
    } else {
        a.len()
    }
    &&& a.len() > 0 ==> b.drop_last() == a.drop_last()
}

// ---------------------------------------------------------------------------
// Block helpers
// ---------------------------------------------------------------------------

fn block_length(sr: &SearchResults, b: SearchResultBlock) -> (r: Option<usize>)
    ensures
        match (r, block_len(*sr, b)) {
            (Some(x), Some(y)) => x as nat == y,
            (None, None) => true,
            _ => false,
        },
{
    match b {
        SearchResultBlock::AlbumSearch => match &sr.albums {
            Some(p) => Some(p.items.len()),
            None => None,
        },
        SearchResultBlock::SongSearch => match &sr.tracks {
            Some(p) => Some(p.items.len()),
            None => None,
        },
        SearchResultBlock::ArtistSearch => match &sr.artists {
            Some(p) => Some(p.items.len()),
            None => None,
        },
        SearchResultBlock::PlaylistSearch => match &sr.playlists {
            Some(p) => Some(p.items.len()),
            None => None,
        },
        SearchResultBlock::ShowSearch => match &sr.shows {
            Some(p) => Some(p.items.len()),
            None => None,
        },
        SearchResultBlock::Empty => None,
    }
}

fn selection_of(sr: &SearchResults, b: SearchResultBlock) -> (r: Option<usize>)
    ensures
        r == block_selection(*sr, b),
{
    match b {
        SearchResultBlock::AlbumSearch => sr.selected_album_index,
        SearchResultBlock::SongSearch => sr.selected_tracks_index,
        SearchResultBlock::ArtistSearch => sr.selected_artists_index,
        SearchResultBlock::PlaylistSearch => sr.selected_playlists_index,
        SearchResultBlock::ShowSearch => sr.selected_shows_index,
        SearchResultBlock::Empty => None,
    }
}

fn set_selection(sr: &mut SearchResults, b: SearchResultBlock, v: Option<usize>)
    ensures
        *final(sr) == with_selection(*old(sr), b, v),
{
    match b {
        SearchResultBlock::AlbumSearch => sr.selected_album_index = v,
        SearchResultBlock::SongSearch => sr.selected_tracks_index = v,
        SearchResultBlock::ArtistSearch => sr.selected_artists_index = v,
        SearchResultBlock::PlaylistSearch => sr.selected_playlists_index = v,
        SearchResultBlock::ShowSearch => sr.selected_shows_index = v,
        SearchResultBlock::Empty => {},
    }
}

fn move_in_selected_block(app: &mut App, m: ListMove)
    ensures
        final(app).search_results == after_move_in_selected(old(app).search_results, m),
        only_changes(*old(app), *final(app), search_changes()),
{
    let b = app.search_results.selected_block;
    if let Some(n) = block_length(&app.search_results, b) {
        let sel = selection_of(&app.search_results, b);
        let next = match m {
            ListMove::Down => on_down_press_handler(n, sel),
            ListMove::Up => on_up_press_handler(n, sel),
            ListMove::High => on_high_press_handler(),
            ListMove::Middle => on_middle_press_handler(n),
            ListMove::Low => on_low_press_handler(n),
        };
        set_selection(&mut app.search_results, b, Some(next));
    }
}

// ---------------------------------------------------------------------------
// Block operations
// ---------------------------------------------------------------------------

/// Move the selection down inside the selected block.
fn handle_down_press_on_selected_block(app: &mut App)
    ensures
        final(app).search_results == after_move_in_selected(old(app).search_results, ListMove::Down),
        only_changes(*old(app), *final(app), search_changes()),
{
    move_in_selected_block(app, ListMove::Down)
}

/// Move the selection up inside the selected block.
fn handle_up_press_on_selected_block(app: &mut App)
    ensures
        final(app).search_results == after_move_in_selected(old(app).search_results, ListMove::Up),
        only_changes(*old(app), *final(app), search_changes()),
{
    move_in_selected_block(app, ListMove::Up)
}

/// Select the first row of the selected block.
fn handle_high_press_on_selected_block(app: &mut App)
    ensures
        final(app).search_results == after_move_in_selected(old(app).search_results, ListMove::High),
        only_changes(*old(app), *final(app), search_changes()),
{
    move_in_selected_block(app, ListMove::High)
}

/// Select the middle row of the selected block.
fn handle_middle_press_on_selected_block(app: &mut App)
    ensures
        final(app).search_results == after_move_in_selected(
            old(app).search_results,
            ListMove::Middle,
        ),
        only_changes(*old(app), *final(app), search_changes()),
{
    move_in_selected_block(app, ListMove::Middle)
}

/// Select the last row of the selected block.
fn handle_low_press_on_selected_block(app: &mut App)
    ensures
        final(app).search_results == after_move_in_selected(old(app).search_results, ListMove::Low),
        only_changes(*old(app), *final(app), search_changes()),
{
    move_in_selected_block(app, ListMove::Low)
}

/// Move the hover to the block below.
fn handle_down_press_on_hovered_block(app: &mut App)
    ensures
        final(app).search_results == with_hovered(old(app).search_results, hover_below(old(app).search_results.hovered_block)),
        only_changes(*old(app), *final(app), search_changes()),
{
    app.search_results.hovered_block = match app.search_results.hovered_block {
        SearchResultBlock::AlbumSearch => SearchResultBlock::ShowSearch,
        SearchResultBlock::SongSearch => SearchResultBlock::AlbumSearch,
        SearchResultBlock::ArtistSearch => SearchResultBlock::PlaylistSearch,
        SearchResultBlock::PlaylistSearch => SearchResultBlock::ShowSearch,
        SearchResultBlock::ShowSearch => SearchResultBlock::SongSearch,
        SearchResultBlock::Empty => SearchResultBlock::Empty,
    };
}

/// Move the hover to the block above.
fn handle_up_press_on_hovered_block(app: &mut App)
    ensures
        final(app).search_results == with_hovered(old(app).search_results, hover_above(old(app).search_results.hovered_block)),
        only_changes(*old(app), *final(app), search_changes()),
{
    app.search_results.hovered_block = match app.search_results.hovered_block {
        SearchResultBlock::AlbumSearch => SearchResultBlock::SongSearch,
        SearchResultBlock::SongSearch => SearchResultBlock::ShowSearch,
        SearchResultBlock::ArtistSearch => SearchResultBlock::ShowSearch,
        SearchResultBlock::PlaylistSearch => SearchResultBlock::ArtistSearch,
        SearchResultBlock::ShowSearch => SearchResultBlock::AlbumSearch,
        SearchResultBlock::Empty => SearchResultBlock::Empty,
    };
}

/// Queue the selected song (by uri) when the songs block is selected.
fn handle_add_item_to_queue(app: &mut App)
    ensures
        add_to_queue_effect(*old(app), *final(app)),
{
    if app.search_results.selected_block == SearchResultBlock::SongSearch {
        if let (Some(index), Some(tracks)) = (
            app.search_results.selected_tracks_index,
            &app.search_results.tracks,
        ) {
            if index < tracks.items.len() {
                if let Some(uri) = tracks.items[index].uri.clone() {
                    app.dispatch(IoEvent::AddItemToQueue(uri));
                }
            }
        }
    }
}

/// The uris of `items`, in order, skipping items without one.
fn collect_song_uris(items: &Vec<TrackInfo>) -> (r: Vec<String>)
    ensures
        r@ == song_uris(items@),
{
    let mut r: Vec<String> = Vec::new();
    let n = items.len();
    let mut i: usize = 0;
    while i < n
        invariant
            n == items@.len(),
            i <= n,
            r@ == song_uris(items@.take(i as int)),
        decreases n - i,
    {
        proof {
            assert(items@.take(i as int + 1).drop_last() =~= items@.take(i as int));
        }
        match &items[i].uri {
            Some(u) => {
                r.push(u.clone());
            },
            None => {},
        }
        proof {
            let t = items@.take(i as int + 1);
            assert(t.last() == items@[i as int]);
            if items@[i as int].uri is None {
                assert(r@ =~= song_uris(t));
            } else {
                assert(r@ =~= song_uris(t));
            }
        }
        i += 1;
    }
    proof {
        assert(items@.take(n as int) =~= items@);
    }
    r
}

/// Act on the selected row of the selected block: open an album or an
/// artist, play the songs from the selected one, open a playlist, or list a
/// show's episodes.
fn handle_enter_event_on_selected_block(app: &mut App)
    ensures
        enter_selected_effect(*old(app), *final(app)),
{
    match app.search_results.selected_block {
        SearchResultBlock::AlbumSearch => {
            if let (Some(index), Some(albums)) = (
                app.search_results.selected_album_index,
                &app.search_results.albums,
            ) {
                if index < albums.items.len() {
                    if let Some(id) = albums.items[index].id.clone() {
                        app.track_table.context = Some(TrackTableContext::AlbumSearch);
                        app.dispatch(IoEvent::GetAlbum(id));
                    }
                }
            }
        },
        SearchResultBlock::SongSearch => {
            let index = app.search_results.selected_tracks_index;
            let track_uris: Option<Vec<String>> = match &app.search_results.tracks {
                Some(paged) => Some(collect_song_uris(&paged.items)),
                None => None,
            };
            app.dispatch(IoEvent::StartPlayback(None, track_uris, index));
            assert(app.dispatched@.drop_last() =~= old(app).dispatched@);
        },
        SearchResultBlock::ArtistSearch => {
            if let (Some(index), Some(artists)) = (
                app.search_results.selected_artists_index,
                &app.search_results.artists,
            ) {
                if index < artists.items.len() {
                    let artist = &artists.items[index];
                    if let Some(id) = artist.id.clone() {
                        let name = artist.name.clone();
                        app.request(AppRequest::GetArtist(id, name));
                    }
                }
            }
        },
        SearchResultBlock::PlaylistSearch => {
            if let (Some(index), Some(playlists)) = (
                app.search_results.selected_playlists_index,
                &app.search_results.playlists,
            ) {
                if index < playlists.items.len() {
                    if let Some(id) = playlists.items[index].id.clone() {
                        if playlist_from_id(id.as_str()).is_some() {
                            let offset = app.playlist_offset;
                            app.request(AppRequest::OpenPlaylistTracks(id.clone()));
                            app.dispatch(IoEvent::GetPlaylistItems(id, offset));
                        }
                    }
                }
            }
        },
        SearchResultBlock::ShowSearch => {
            if let (Some(index), Some(shows)) = (
                app.search_results.selected_shows_index,
                &app.search_results.shows,
            ) {
                if index < shows.items.len() {
                    let show = shows.items[index].duplicate();
                    app.dispatch(IoEvent::GetShowEpisodes(show));
                }
            }
        },
        SearchResultBlock::Empty => {},
    }
}

/// Select the hovered block, keeping its selection or starting at row 0.
fn handle_enter_event_on_hovered_block(app: &mut App)
    ensures
        final(app).search_results == after_enter_hovered(old(app).search_results),
        only_changes(*old(app), *final(app), search_changes()),
{
    let b = app.search_results.hovered_block;
    if b != SearchResultBlock::Empty {
        let sel = match selection_of(&app.search_results, b) {
            Some(i) => i,
            None => 0,
        };
        set_selection(&mut app.search_results, b, Some(sel));
        app.search_results.selected_block = b;
    }
}

/// Ask for recommendations seeded by the selected song or artist.
fn handle_recommended_tracks(app: &mut App)
    ensures
        recommend_effect(*old(app), *final(app)),
{
    match app.search_results.selected_block {
        SearchResultBlock::SongSearch => {
            if let (Some(index), Some(tracks)) = (
                app.search_results.selected_tracks_index,
                &app.search_results.tracks,
            ) {
                if index < tracks.items.len() {
                    let track = tracks.items[index].duplicate();
                    let track_id_list: Option<Vec<String>> = match &track.id {
                        Some(id) => {
                            let mut v = Vec::new();
                            v.push(id.clone());
                            Some(v)
                        },
                        None => None,
                    };
                    app.recommendations_context = Some(RecommendationsContext::Song);
                    app.recommendations_seed = track.name.clone();
                    app.request(AppRequest::RecommendationsForSeed(None, track_id_list, Some(track)));
                    assert(app.requests@.drop_last() =~= old(app).requests@);
                }
            }
        },
        SearchResultBlock::ArtistSearch => {
            if let (Some(index), Some(artists)) = (
                app.search_results.selected_artists_index,
                &app.search_results.artists,
            ) {
                if index < artists.items.len() {
                    let artist = &artists.items[index];
                    let artist_id_list: Option<Vec<String>> = match &artist.id {
                        Some(id) => {
                            let mut v = Vec::new();
                            v.push(id.clone());
                            Some(v)
                        },
                        None => None,
                    };
                    let name = artist.name.clone();
                    app.recommendations_context = Some(RecommendationsContext::Artist);
                    app.recommendations_seed = name;
                    app.request(AppRequest::RecommendationsForSeed(artist_id_list, None, None));
                    assert(app.requests@.drop_last() =~= old(app).requests@);
                }
            }
        },
        _ => {},
    }
}

/// The characters of an optional id.
pub open spec fn id_view(id: Option<String>) -> Option<Seq<char>> {
    match id {
        Some(i) => Some(i@),
        None => None,
    }
}

/// Open the add-to-playlist flow for the selected song.
fn open_add_to_playlist_for_selected_search_track(app: &mut App)
    ensures
        match selected_song(old(app).search_results) {
            Some(t) => add_flow_opened(*old(app), *final(app), id_view(t.id), t.name),
            None => only_changes(*old(app), *final(app), nothing_changes()),
        },
{
    if let (Some(tracks), Some(index)) = (
        &app.search_results.tracks,
        app.search_results.selected_tracks_index,
    ) {
        if index < tracks.items.len() {
            let track = &tracks.items[index];
            let id = track.id.clone();
            let name = track.name.clone();
            app.begin_add_track_to_playlist_flow(id, name);
        }
    }
}

/// The effect of a key on the radio station view, from `a` to `b`.
pub open spec fn radio_key_effect(a: App, b: App, key: Key) -> bool {
    let pinned = with_hovered(a.search_results, SearchResultBlock::SongSearch);
    let sel_song = with_selected_block(pinned, SearchResultBlock::SongSearch);
    let a_sel = App { search_results: sel_song, ..a };
    match classify_radio_key(key, a.keys) {
        SearchKey::Esc => {
            &&& b.search_results == with_selected_block(pinned, SearchResultBlock::Empty)
            &&& only_changes(a, b, search_changes())
        },
        SearchKey::Left => {
            &&& b.search_results == with_selected_block(pinned, SearchResultBlock::Empty)
            &&& left_out_of_view(a.navigation_stack@, b.navigation_stack@)
            &&& only_changes(
                a,
                b,
                search_and_nav_changes(),
            )
        },
        SearchKey::Down => {
            &&& b.search_results == after_move_in_selected(sel_song, ListMove::Down)
            &&& only_changes(a, b, search_changes())
        },
        SearchKey::Up => {
            &&& b.search_results == after_move_in_selected(sel_song, ListMove::Up)
            &&& only_changes(a, b, search_changes())
        },
        SearchKey::Move(m) => {
            &&& b.search_results == after_move_in_selected(sel_song, m)
            &&& only_changes(a, b, search_changes())
        },
        SearchKey::Enter => {
            &&& b.search_results == sel_song
            &&& enter_selected_effect(a_sel, b)
        },
        _ => {
            &&& b.search_results == pinned
            &&& only_changes(a, b, search_changes())
        },
    }
}

/// Key handling for the internet-radio results view: a single station panel
/// backed by the songs block. The hover is pinned to that block, moves and
/// Enter select it first, and Enter plays the highlighted station.
fn handle_radio_key(key: Key, app: &mut App)
    ensures
        radio_key_effect(*old(app), *final(app), key),
{
    app.search_results.hovered_block = SearchResultBlock::SongSearch;
    let keys = app.keys;
    if key == Key::Esc {
        app.search_results.selected_block = SearchResultBlock::Empty;
    } else if left_event(key, &keys) {
        app.search_results.selected_block = SearchResultBlock::Empty;
        handle_left_event(app);
    } else if down_event(key, &keys) {
        app.search_results.selected_block = SearchResultBlock::SongSearch;
        handle_down_press_on_selected_block(app);
    } else if up_event(key, &keys) {
        app.search_results.selected_block = SearchResultBlock::SongSearch;
        handle_up_press_on_selected_block(app);
    } else if high_event(key) {
        app.search_results.selected_block = SearchResultBlock::SongSearch;
        handle_high_press_on_selected_block(app);
    } else if middle_event(key) {
        app.search_results.selected_block = SearchResultBlock::SongSearch;
        handle_middle_press_on_selected_block(app);
    } else if low_event(key) {
        app.search_results.selected_block = SearchResultBlock::SongSearch;
        handle_low_press_on_selected_block(app);
    } else if key == Key::Enter {
        app.search_results.selected_block = SearchResultBlock::SongSearch;
        handle_enter_event_on_selected_block(app);
    }
}

/// The effect of a key on the search view outside radio, from `a` to `b`.
pub open spec fn search_key_effect(a: App, b: App, key: Key) -> bool {
    let sr = a.search_results;
    let sel = sr.selected_block;
    let hov = sr.hovered_block;
    let deselected = with_selected_block(sr, SearchResultBlock::Empty);
    match classify_search_key(key, a.keys, sel) {
        SearchKey::Esc => {
            &&& b.search_results == deselected
            &&& only_changes(a, b, search_changes())
        },
        SearchKey::Down => {
            &&& b.search_results == if sel != SearchResultBlock::Empty {
                after_move_in_selected(sr, ListMove::Down)
            } else {
                with_hovered(sr, hover_below(hov))
            }
            &&& only_changes(a, b, search_changes())
        },
        SearchKey::Up => {
            &&& b.search_results == if sel != SearchResultBlock::Empty {
                after_move_in_selected(sr, ListMove::Up)
            } else {
                with_hovered(sr, hover_above(hov))
            }
            &&& only_changes(a, b, search_changes())
        },
        SearchKey::Left => if left_leaves_view(hov) {
            &&& b.search_results == deselected
            &&& left_out_of_view(a.navigation_stack@, b.navigation_stack@)
            &&& only_changes(a, b, search_and_nav_changes())
        } else {
            &&& b.search_results == with_hovered(deselected, hover_left_of(hov))
            &&& only_changes(a, b, search_changes())
        },
        SearchKey::Right => {
            &&& b.search_results == with_hovered(deselected, hover_right_of(hov))
            &&& only_changes(a, b, search_changes())
        },
        SearchKey::Move(m) => {
            &&& b.search_results == after_move_in_selected(sr, m)
            &&& only_changes(a, b, search_changes())
        },
        SearchKey::Enter => if sel == SearchResultBlock::Empty {
            &&& b.search_results == after_enter_hovered(sr)
            &&& only_changes(a, b, search_changes())
        } else if sel == SearchResultBlock::PlaylistSearch {
            &&& b.playlist_offset == 0
            &&& enter_selected_effect(App { playlist_offset: 0, ..a }, b)
        } else {
            enter_selected_effect(a, b)
        },
        SearchKey::Save => if sel == SearchResultBlock::SongSearch {
            match selected_song(sr) {
                Some(t) => add_flow_opened(a, b, id_view(t.id), t.name),
                None => only_changes(a, b, nothing_changes()),
            }
        } else {
            match save_request(sel) {
                Some(r) => {
                    &&& b.requests@ == a.requests@.push(r)
                    &&& only_changes(a, b, request_changes())
                },
                None => only_changes(a, b, nothing_changes()),
            }
        },
        SearchKey::Delete => if sel == SearchResultBlock::PlaylistSearch {
            match (sr.playlists, sr.selected_playlists_index) {
                (Some(p), Some(i)) => {
                    &&& b.dialog == Some(p.items@[i as int].name)
                    &&& !b.confirm
                    &&& b.navigation_stack@ == a.navigation_stack@.push(
                        Route {
                            id: RouteId::Dialog,
                            active_block: ActiveBlock::Dialog(DialogContext::PlaylistSearch),
                            hovered_block: ActiveBlock::Dialog(DialogContext::PlaylistSearch),
                        },
                    )
                    &&& only_changes(a, b, dialog_and_nav_changes())
                },
                _ => only_changes(a, b, nothing_changes()),
            }
        } else {
            match delete_request(sel) {
                Some(r) => {
                    &&& b.requests@ == a.requests@.push(r)
                    &&& only_changes(a, b, request_changes())
                },
                None => only_changes(a, b, nothing_changes()),
            }
        },
        SearchKey::Recommend => recommend_effect(a, b),
        SearchKey::AddToQueue => add_to_queue_effect(a, b),
        SearchKey::Other => only_changes(a, b, nothing_changes()),
    }
}

/// Whether this key would read the playlist list out of range: the delete
/// key with a playlist selection past the end of the list. The handler
/// requires that this is not the case.
pub open spec fn delete_out_of_range(app: App, key: Key) -> bool {
    let sr = app.search_results;
    &&& app.active_source != Source::Radio
    &&& classify_search_key(key, app.keys, sr.selected_block) is Delete
    &&& sr.selected_block == SearchResultBlock::PlaylistSearch
    &&& sr.playlists is Some
    &&& sr.selected_playlists_index is Some
    &&& sr.selected_playlists_index->0 >= sr.playlists->0.items@.len()
}

/// Handle a key on the search results. Under the radio source the station
/// view is handled instead.
pub fn handler(key: Key, app: &mut App)
    requires
        !delete_out_of_range(*old(app), key),
    ensures
        old(app).active_source == Source::Radio ==> radio_key_effect(*old(app), *final(app), key),
        old(app).active_source != Source::Radio ==> search_key_effect(*old(app), *final(app), key),
{
    if app.active_source == Source::Radio {
        handle_radio_key(key, app);
        return;
    }
    let keys = app.keys;
    let selected = app.search_results.selected_block;
    if key == Key::Esc {
        app.search_results.selected_block = SearchResultBlock::Empty;
    } else if down_event(key, &keys) {
        if selected != SearchResultBlock::Empty {
            handle_down_press_on_selected_block(app);
        } else {
            handle_down_press_on_hovered_block(app);
        }
    } else if up_event(key, &keys) {
        if selected != SearchResultBlock::Empty {
            handle_up_press_on_selected_block(app);
        } else {
            handle_up_press_on_hovered_block(app);
        }
    } else if left_event(key, &keys) {
        app.search_results.selected_block = SearchResultBlock::Empty;
        match app.search_results.hovered_block {
            SearchResultBlock::AlbumSearch | SearchResultBlock::SongSearch
            | SearchResultBlock::ShowSearch => {
                handle_left_event(app);
            },
            SearchResultBlock::ArtistSearch => {
                app.search_results.hovered_block = SearchResultBlock::SongSearch;
            },
            SearchResultBlock::PlaylistSearch => {
                app.search_results.hovered_block = SearchResultBlock::AlbumSearch;
            },
            SearchResultBlock::Empty => {},
        }
    } else if right_event(key, &keys) {
        app.search_results.selected_block = SearchResultBlock::Empty;
        match app.search_results.hovered_block {
            SearchResultBlock::AlbumSearch => {
                app.search_results.hovered_block = SearchResultBlock::PlaylistSearch;
            },
            SearchResultBlock::SongSearch => {
                app.search_results.hovered_block = SearchResultBlock::ArtistSearch;
            },
            SearchResultBlock::ArtistSearch => {
                app.search_results.hovered_block = SearchResultBlock::SongSearch;
            },
            SearchResultBlock::PlaylistSearch => {
                app.search_results.hovered_block = SearchResultBlock::AlbumSearch;
            },
            SearchResultBlock::ShowSearch => {},
            SearchResultBlock::Empty => {},
        }
    } else if high_event(key) && selected != SearchResultBlock::Empty {
        handle_high_press_on_selected_block(app);
    } else if middle_event(key) && selected != SearchResultBlock::Empty {
        handle_middle_press_on_selected_block(app);
    } else if low_event(key) && selected != SearchResultBlock::Empty {
        handle_low_press_on_selected_block(app);
    } else if key == Key::Enter {
        match selected {
            SearchResultBlock::Empty => handle_enter_event_on_hovered_block(app),
            SearchResultBlock::PlaylistSearch => {
                app.playlist_offset = 0;
                handle_enter_event_on_selected_block(app);
            },
            _ => handle_enter_event_on_selected_block(app),
        }
    } else if key == Key::Char('w') {
        match selected {
            SearchResultBlock::AlbumSearch => app.request(AppRequest::SaveAlbum),
            SearchResultBlock::SongSearch => open_add_to_playlist_for_selected_search_track(app),
            SearchResultBlock::ArtistSearch => app.request(AppRequest::FollowArtists),
            SearchResultBlock::PlaylistSearch => app.request(AppRequest::FollowPlaylist),
            SearchResultBlock::ShowSearch => app.request(AppRequest::FollowShow),
            SearchResultBlock::Empty => {},
        }
    } else if key == Key::Char('D') {
        match selected {
            SearchResultBlock::AlbumSearch => app.request(AppRequest::DeleteSavedAlbum),
            SearchResultBlock::SongSearch => {},
            SearchResultBlock::ArtistSearch => app.request(AppRequest::UnfollowArtists),
            SearchResultBlock::PlaylistSearch => {
                if let (Some(playlists), Some(selected_index)) = (
                    &app.search_results.playlists,
                    app.search_results.selected_playlists_index,
                ) {
                    let name = playlists.items[selected_index].name.clone();
                    app.dialog = Some(name);
                    app.confirm = false;
                    app.push_navigation_stack(
                        RouteId::Dialog,
                        ActiveBlock::Dialog(DialogContext::PlaylistSearch),
                    );
                }
            },
            SearchResultBlock::ShowSearch => app.request(AppRequest::UnfollowShow),
            SearchResultBlock::Empty => {},
        }
    } else if key == Key::Char('r') {
        handle_recommended_tracks(app);
    } else if key == keys.add_item_to_queue {
        handle_add_item_to_queue(app);
    }
}

/// Under the internet-radio source there is one station list: whatever the
/// key, the songs block stays hovered.
pub proof fn law_radio_navigation_stays_on_stations(a: App, b: App, key: Key)
    requires
        radio_key_effect(a, b, key),
    ensures
        b.search_results.hovered_block == SearchResultBlock::SongSearch,
{
}

/// `y` is `x` but for the hovered block, the selected block and the
/// station selection.
pub open spec fn same_but_station_cursor(x: SearchResults, y: SearchResults) -> bool {
    y == SearchResults {
        hovered_block: y.hovered_block,
        selected_block: y.selected_block,
        selected_tracks_index: y.selected_tracks_index,
        ..x
    }
}

/// The radio view never leaves its station list: once the focus is on the
/// station list or nowhere, any key leaves the songs block hovered, the
/// focus on the station list or nowhere, and of the search results changes
/// at most the hover, the focus and the selected station.
pub proof fn law_radio_view_keeps_to_the_station_list(a: App, b: App, key: Key)
    requires
        radio_key_effect(a, b, key),
        a.search_results.selected_block == SearchResultBlock::Empty
            || a.search_results.selected_block == SearchResultBlock::SongSearch,
    ensures
        b.search_results.hovered_block == SearchResultBlock::SongSearch,
        b.search_results.selected_block == SearchResultBlock::Empty
            || b.search_results.selected_block == SearchResultBlock::SongSearch,
        same_but_station_cursor(a.search_results, b.search_results),
{
}

/// Under radio the Spotify-only actions (save `w`, delete `D`, recommend
/// `r`, add to queue) do nothing but keep the songs block hovered, as long
/// as that key is not also bound to Esc, Enter or a movement.
pub proof fn law_radio_spotify_actions_are_inert(a: App, b: App, key: Key)
    requires
        radio_key_effect(a, b, key),
        key == Key::Char('w') || key == Key::Char('D') || key == Key::Char('r') || key
            == a.keys.add_item_to_queue,
        key != Key::Esc,
        key != Key::Enter,
        key != Key::Char('H'),
        key != Key::Char('M'),
        key != Key::Char('L'),
        !is_left(key, a.keys),
        !is_down(key, a.keys),
        !is_up(key, a.keys),
    ensures
        b.search_results == with_hovered(a.search_results, SearchResultBlock::SongSearch),
        b.dispatched == a.dispatched,
        b.requests == a.requests,
        only_changes(a, b, search_changes()),
{
}

/// The row of the results grid a block is drawn in: songs and artists on
/// top, albums and playlists in the middle, podcasts across the bottom.
pub open spec fn grid_row(b: SearchResultBlock) -> int {
    match b {
        SearchResultBlock::SongSearch | SearchResultBlock::ArtistSearch => 0,
        SearchResultBlock::AlbumSearch | SearchResultBlock::PlaylistSearch => 1,
        SearchResultBlock::ShowSearch => 2,
        SearchResultBlock::Empty => -1,
    }
}

/// The column of the results grid a block is drawn in (podcasts span both
/// and count as the left one).
pub open spec fn grid_col(b: SearchResultBlock) -> int {
    match b {
        SearchResultBlock::ArtistSearch | SearchResultBlock::PlaylistSearch => 1,
        _ => 0,
    }
}

/// Down moves the hover one row down the grid, keeping its column (from
/// either middle block it lands on the podcasts across the bottom), and
/// from the bottom row it wraps to the top-left songs block.
pub proof fn law_down_moves_one_row_down(b: SearchResultBlock)
    requires
        b != SearchResultBlock::Empty,
    ensures
        grid_row(b) < 2 ==> grid_row(hover_below(b)) == grid_row(b) + 1,
        grid_row(b) == 0 ==> grid_col(hover_below(b)) == grid_col(b),
        grid_row(b) == 2 ==> hover_below(b) == SearchResultBlock::SongSearch,
{
}

/// Up moves the hover one row up the grid, keeping its column, and from
/// the top row it wraps to the podcasts at the bottom.
pub proof fn law_up_moves_one_row_up(b: SearchResultBlock)
    requires
        b != SearchResultBlock::Empty,
    ensures
        grid_row(b) > 0 ==> grid_row(hover_above(b)) == grid_row(b) - 1 && grid_col(hover_above(b))
            == grid_col(b),
        grid_row(b) == 0 ==> hover_above(b) == SearchResultBlock::ShowSearch,
{
}

/// Right moves the hover across its row to the other column (wrapping
/// back to the left); the podcasts, alone in their row, stay hovered.
/// Left moves a right-hand block to the left one in its row; from a
/// left-hand block it leaves the view.
pub proof fn law_sideways_moves_stay_in_the_row(b: SearchResultBlock)
    requires
        b != SearchResultBlock::Empty,
    ensures
        grid_row(hover_right_of(b)) == grid_row(b),
        grid_row(b) < 2 ==> grid_col(hover_right_of(b)) == 1 - grid_col(b),
        grid_row(b) == 2 ==> hover_right_of(b) == b,
        left_leaves_view(b) <==> grid_col(b) == 0,
        grid_col(b) == 1 ==> grid_row(hover_left_of(b)) == grid_row(b) && grid_col(hover_left_of(b))
            == 0,
{
}

/// Vertical and horizontal moves from the same block never land on the same
/// block.
pub proof fn law_down_and_right_differ(b: SearchResultBlock)
    requires
        b != SearchResultBlock::Empty,
    ensures
        hover_below(b) != hover_right_of(b),
        hover_above(b) != hover_right_of(b),
        hover_below(SearchResultBlock::SongSearch) == SearchResultBlock::AlbumSearch,
{
}

/// Whether `keys` are the stock bindings: `hjkl` moves, `z` queues, `x`
/// removes from the queue.
pub open spec fn stock_bindings(keys: KeyBindings) -> bool {
    &&& keys.move_down == Key::Char('j')
    &&& keys.move_up == Key::Char('k')
    &&& keys.move_left == Key::Char('h')
    &&& keys.move_right == Key::Char('l')
    &&& keys.add_item_to_queue == Key::Char('z')
    &&& keys.remove_from_queue == Key::Char('x')
}

/// With the stock bindings, the search view reads the arrows and `hjkl` as
/// moves, Enter as open/play, `w` as save, `D` as delete, `r` as
/// recommend, `z` as add to queue, and `H`/`M`/`L` as jumps inside a
/// selected block (they do nothing when no block is selected).
pub proof fn law_search_keys_with_stock_bindings(keys: KeyBindings, sel: SearchResultBlock)
    requires
        stock_bindings(keys),
    ensures
        classify_search_key(Key::Down, keys, sel) is Down,
        classify_search_key(Key::Char('j'), keys, sel) is Down,
        classify_search_key(Key::Up, keys, sel) is Up,
        classify_search_key(Key::Char('k'), keys, sel) is Up,
        classify_search_key(Key::Left, keys, sel) is Left,
        classify_search_key(Key::Char('h'), keys, sel) is Left,
        classify_search_key(Key::Right, keys, sel) is Right,
        classify_search_key(Key::Char('l'), keys, sel) is Right,
        classify_search_key(Key::Esc, keys, sel) is Esc,
        classify_search_key(Key::Enter, keys, sel) is Enter,
        classify_search_key(Key::Char('w'), keys, sel) is Save,
        classify_search_key(Key::Char('D'), keys, sel) is Delete,
        classify_search_key(Key::Char('r'), keys, sel) is Recommend,
        classify_search_key(Key::Char('z'), keys, sel) is AddToQueue,
        sel != SearchResultBlock::Empty ==> (classify_search_key(Key::Char('H'), keys, sel) matches SearchKey::Move(m)
            && m is High),
        sel != SearchResultBlock::Empty ==> (classify_search_key(Key::Char('M'), keys, sel) matches SearchKey::Move(m)
            && m is Middle),
        sel != SearchResultBlock::Empty ==> (classify_search_key(Key::Char('L'), keys, sel) matches SearchKey::Move(m)
            && m is Low),
        sel == SearchResultBlock::Empty ==> classify_search_key(Key::Char('H'), keys, sel) is Other,
{
}

/// Save and delete are opposite actions on the same kind of item: saving
/// an album, following an artist, playlist or podcast; deleting the saved
/// album, unfollowing the artist or podcast (a playlist asks first).
pub proof fn law_save_and_delete_are_opposites()
    ensures
        save_request(SearchResultBlock::AlbumSearch) == Some(AppRequest::SaveAlbum),
        delete_request(SearchResultBlock::AlbumSearch) == Some(AppRequest::DeleteSavedAlbum),
        save_request(SearchResultBlock::ArtistSearch) == Some(AppRequest::FollowArtists),
        delete_request(SearchResultBlock::ArtistSearch) == Some(AppRequest::UnfollowArtists),
        save_request(SearchResultBlock::ShowSearch) == Some(AppRequest::FollowShow),
        delete_request(SearchResultBlock::ShowSearch) == Some(AppRequest::UnfollowShow),
        save_request(SearchResultBlock::PlaylistSearch) == Some(AppRequest::FollowPlaylist),
        save_request(SearchResultBlock::Empty) is None && delete_request(SearchResultBlock::Empty) is None,
{
}

/// When every listed song has a uri, the playback list holds one uri per
/// song, in list order.
pub proof fn law_song_uris_follow_the_list(items: Seq<TrackInfo>)
    requires
        forall|j: int| 0 <= j < items.len() ==> (#[trigger] items[j]).uri is Some,
    ensures
        song_uris(items).len() == items.len(),
        forall|j: int| 0 <= j < items.len() ==> #[trigger] song_uris(items)[j] == items[j].uri->0,
    decreases items.len(),
{
    if items.len() > 0 {
        let front = items.drop_last();
        assert forall|j: int| 0 <= j < front.len() implies (#[trigger] front[j]).uri is Some by {
            assert(front[j] == items[j]);
        }
        law_song_uris_follow_the_list(front);
        assert(items.last() == items[items.len() - 1]);
        assert forall|j: int| 0 <= j < items.len() implies #[trigger] song_uris(items)[j] == items[j].uri->0 by {
            if j < front.len() {
                assert(front[j] == items[j]);
            }
        }
    }
}

/// Enter on a selected song plays the song list starting at that song:
/// the list handed to playback holds, at the selected position, the uri of
/// the song the selection is on.
pub proof fn law_enter_plays_the_selected_song(a: App, b: App)
    requires
        enter_selected_effect(a, b),
        a.search_results.selected_block == SearchResultBlock::SongSearch,
        a.search_results.tracks matches Some(p) && forall|j: int|
            0 <= j < p.items@.len() ==> (#[trigger] p.items@[j]).uri is Some,
        selected_song(a.search_results) is Some,
    ensures
        b.dispatched@.last() matches IoEvent::StartPlayback(None, Some(l), Some(i)) && i
            < l@.len() && selected_song(a.search_results)->0.uri == Some(l@[i as int]),
        b.dispatched@.drop_last() == a.dispatched@,
{
    let p = a.search_results.tracks->0;
    law_song_uris_follow_the_list(p.items@);
}

/// Enter on the hovered block (with none selected) selects that block,
/// keeping its row when it had one and starting at its first row
/// otherwise; nothing else about the results changes.
pub proof fn law_enter_selects_the_hovered_block(sr: SearchResults)
    requires
        sr.hovered_block != SearchResultBlock::Empty,
    ensures
        after_enter_hovered(sr).selected_block == sr.hovered_block,
        after_enter_hovered(sr).hovered_block == sr.hovered_block,
        block_selection(after_enter_hovered(sr), sr.hovered_block) == Some(
            match block_selection(sr, sr.hovered_block) {
                Some(i) => i,
                None => 0usize,
            },
        ),
{
}

/// A move inside the selected block moves only that block's selection,
/// to the row the move picks in that block's list; the focus, the hover
/// and every other block's selection stay as they were. With no block
/// selected, or no results in it, nothing changes.
pub proof fn law_moves_stay_inside_the_selected_block(sr: SearchResults, m: ListMove, other: SearchResultBlock)
    requires
        other != sr.selected_block,
    ensures
        after_move_in_selected(sr, m).selected_block == sr.selected_block,
        after_move_in_selected(sr, m).hovered_block == sr.hovered_block,
        block_selection(after_move_in_selected(sr, m), other) == block_selection(sr, other),
        block_len(sr, sr.selected_block) matches Some(n) ==> block_selection(
            after_move_in_selected(sr, m),
            sr.selected_block,
        ) == Some(moved_row(m, n, block_selection(sr, sr.selected_block)) as usize),
        block_len(sr, sr.selected_block) is None ==> after_move_in_selected(sr, m) == sr,
{
}

} // verus!
