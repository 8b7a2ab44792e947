//! Key handling for the recently-played list. Playing from it starts a list
//! of the tracks that have a valid Spotify track id; tracks without one (local
//! files) are left out, so the offset of the selected track into that list is
//! recomputed rather than taken from the selection.

use vstd::prelude::*;

use crate::album_tracks::{dispatched_one, recommends_for, requested_one};
use crate::app::{
    add_flow_opened, apply_move, down_event, handle_left_event, high_event, is_down, is_left, is_up, left_event,
    low_event, middle_event, moved_row, nothing_changes, only_changes, up_event, App, AppRequest,
    Changes, IoEvent, Key, KeyBindings, ListMove, RecentlyPlayed, RecommendationsContext,
};
use crate::ids::{is_base62_id, track_from_id, views};
use crate::search_results::{left_out_of_view, stock_bindings};
use crate::track::TrackInfo;

verus! {

// ---------------------------------------------------------------------------
// Specification
// ---------------------------------------------------------------------------

/// The track's id, when it is a valid Spotify track id.
pub open spec fn valid_track_id(t: TrackInfo) -> Option<Seq<char>> {
    match t.id {
        Some(x) => if is_base62_id(x@) {
            Some(x@)
        } else {
            None
        },
        None => None,
    }
}

/// The valid track ids of `items`, in order.
pub open spec fn playable_track_ids(items: Seq<TrackInfo>) -> Seq<Seq<char>>
    decreases items.len(),
{
    if items.len() == 0 {
        seq![]
    } else {
        let rest = playable_track_ids(items.drop_last());
        match valid_track_id(items.last()) {
            Some(id) => rest.push(id),
            None => rest,
        }
    }
}

/// Where the selected item lands in the list of valid track ids: the number
/// of valid items before it, when it has a valid id itself.
pub open spec fn remapped_offset(items: Seq<TrackInfo>, selected: nat) -> Option<nat> {
    if selected < items.len() && valid_track_id(items[selected as int]) is Some {
        Some(playable_track_ids(items.take(selected as int)).len())
    } else {
        None
    }
}

/// The selected item, when the list is loaded and the selection is on a row.
pub open spec fn recent_selected(r: RecentlyPlayed) -> Option<TrackInfo> {
    match r.result {
        Some(items) => if r.index < items@.len() {
            Some(items@[r.index as int])
        } else {
            None
        },
        None => None,
    }
}

/// The key classes of the recently-played list, in the order they are
/// tested.
pub enum RecentKey {
    Left,
    Move(ListMove),
    Save,
    AddToPlaylist,
    Play,
    Recommend,
    AddToQueue,
    Other,
}

/// How the recently-played list reads a key.
pub open spec fn classify_recent_key(key: Key, keys: KeyBindings) -> RecentKey {
    if is_left(key, keys) {
        RecentKey::Left
    } else if is_down(key, keys) {
        RecentKey::Move(ListMove::Down)
    } else if is_up(key, keys) {
        RecentKey::Move(ListMove::Up)
    } else if key == Key::Char('H') {
        RecentKey::Move(ListMove::High)
    } else if key == Key::Char('M') {
        RecentKey::Move(ListMove::Middle)
    } else if key == Key::Char('L') {
        RecentKey::Move(ListMove::Low)
    } else if key == Key::Char('s') {
        RecentKey::Save
    } else if key == Key::Char('w') {
        RecentKey::AddToPlaylist
    } else if key == Key::Enter {
        RecentKey::Play
    } else if key == Key::Char('r') {
        RecentKey::Recommend
    } else if key == keys.add_item_to_queue {
        RecentKey::AddToQueue
    } else {
        RecentKey::Other
    }
}

/// The start of playback of the valid track ids of `items`, at the remapped
/// offset of `selected`.
pub open spec fn starts_recent(items: Seq<TrackInfo>, selected: nat) -> spec_fn(IoEvent) -> bool {
    |e: IoEvent|
        e matches IoEvent::StartPlayback(None, Some(l), off) && views(l@) == playable_track_ids(items)
            && match (off, remapped_offset(items, selected)) {
            (Some(a), Some(b)) => a == b,
            (None, None) => true,
            _ => false,
        }
}

/// `b` is `a` with one more dispatched event, which `p` accepts.
pub open spec fn dispatched_matching(a: App, b: App, p: spec_fn(IoEvent) -> bool) -> bool {
    &&& b.dispatched@.len() == a.dispatched@.len() + 1
    &&& b.dispatched@.drop_last() == a.dispatched@
    &&& p(b.dispatched@.last())
    &&& only_changes(a, b, Changes { dispatched: true, ..nothing_changes() })
}

/// The effect of `key` on the recently-played list, from `a` to `b`.
pub open spec fn recent_key_effect(a: App, b: App, key: Key) -> bool {
    let rp = a.recently_played;
    match classify_recent_key(key, a.keys) {
        RecentKey::Left => {
            &&& left_out_of_view(a.navigation_stack@, b.navigation_stack@)
            &&& only_changes(a, b, Changes { nav: true, ..nothing_changes() })
        },
        RecentKey::Move(m) => match rp.result {
            Some(items) => {
                &&& b.recently_played.index == moved_row(m, items@.len(), Some(rp.index))
                &&& b.recently_played.result == rp.result
                &&& only_changes(a, b, Changes { recently_played: true, ..nothing_changes() })
            },
            None => only_changes(a, b, nothing_changes()),
        },
        RecentKey::Save => match recent_selected(rp) {
            Some(t) => match valid_track_id(t) {
                Some(id) => dispatched_matching(
                    a,
                    b,
                    |e: IoEvent| e matches IoEvent::ToggleSaveTrack(x) && x@ == id,
                ),
                None => only_changes(a, b, nothing_changes()),
            },
            None => only_changes(a, b, nothing_changes()),
        },
        RecentKey::AddToPlaylist => match recent_selected(rp) {
            Some(t) => add_flow_opened(a, b, valid_track_id(t), t.name),
            None => only_changes(a, b, nothing_changes()),
        },
        RecentKey::Play => match rp.result {
            Some(items) => dispatched_matching(a, b, starts_recent(items@, rp.index as nat)),
            None => only_changes(a, b, nothing_changes()),
        },
        RecentKey::Recommend => match recent_selected(rp) {
            Some(t) => match t.id {
                Some(id) => {
                    &&& b.recommendations_context == Some(RecommendationsContext::Song)
                    &&& b.recommendations_seed == t.name
                    &&& requested_one(a, b, recommends_for(id))
                    &&& only_changes(
                        a,
                        b,
                        Changes { recommendations: true, requests: true, ..nothing_changes() },
                    )
                },
                None => only_changes(a, b, nothing_changes()),
            },
            None => only_changes(a, b, nothing_changes()),
        },
        RecentKey::AddToQueue => match recent_selected(rp) {
            Some(t) => match valid_track_id(t) {
                Some(id) => dispatched_matching(
                    a,
                    b,
                    |e: IoEvent| e matches IoEvent::AddItemToQueue(x) && x@ == id,
                ),
                None => only_changes(a, b, nothing_changes()),
            },
            None => only_changes(a, b, nothing_changes()),
        },
        RecentKey::Other => only_changes(a, b, nothing_changes()),
    }
}

// ---------------------------------------------------------------------------
// Operations
// ---------------------------------------------------------------------------

proof fn lemma_take_step(items: Seq<TrackInfo>, i: int)
    requires
        0 <= i < items.len(),
    ensures
        items.take(i + 1).drop_last() == items.take(i),
        items.take(i + 1).last() == items[i],
{
    assert(items.take(i + 1).drop_last() =~= items.take(i));
}

/// The valid track ids of `items`, and where the item at `selected` lands
/// among them.
pub fn playable_uris_with_offset(items: &Vec<TrackInfo>, selected: usize) -> (r: (
    Vec<String>,
    Option<usize>,
))
    ensures
        views(r.0@) == playable_track_ids(items@),
        match (r.1, remapped_offset(items@, selected as nat)) {
            (Some(a), Some(b)) => a == b,
            (None, None) => true,
            _ => false,
        },
{
    let mut uris: Vec<String> = Vec::new();
    let mut offset: Option<usize> = None;
    let n = items.len();
    let mut i: usize = 0;
    while i < n
        invariant
            n == items@.len(),
            i <= n,
            views(uris@) == playable_track_ids(items@.take(i as int)),
            uris@.len() <= i,
            selected < i ==> match (offset, remapped_offset(items@, selected as nat)) {
                (Some(a), Some(b)) => a == b,
                (None, None) => true,
                _ => false,
            },
            selected >= i ==> offset is None,
        decreases n - i,
    {
        proof {
            lemma_take_step(items@, i as int);
        }
        let parsed = match &items[i].id {
            Some(id_str) => track_from_id(id_str.as_str()),
            None => None,
        };
        if let Some(id) = parsed {
            if i == selected {
                offset = Some(uris.len());
            }
            uris.push(id);
            proof {
                assert(views(uris@) =~= views(uris@.drop_last()).push(uris@.last()@));
            }
        }
        i += 1;
    }
    proof {
        assert(items@.take(n as int) =~= items@);
    }
    (uris, offset)
}

/// Handle a key on the recently-played list.
pub fn handler(key: Key, app: &mut App)
    ensures
        recent_key_effect(*old(app), *final(app), key),
{
    let keys = app.keys;
    let sel = app.recently_played.index;
    let len: Option<usize> = match &app.recently_played.result {
        Some(items) => Some(items.len()),
        None => None,
    };
    let selected: Option<TrackInfo> = match &app.recently_played.result {
        Some(items) => if sel < items.len() {
            Some(items[sel].duplicate())
        } else {
            None
        },
        None => None,
    };
    if left_event(key, &keys) {
        handle_left_event(app);
    } else if down_event(key, &keys) {
        if let Some(n) = len {
            app.recently_played.index = apply_move(ListMove::Down, n, Some(sel));
        }
    } else if up_event(key, &keys) {
        if let Some(n) = len {
            app.recently_played.index = apply_move(ListMove::Up, n, Some(sel));
        }
    } else if high_event(key) {
        if let Some(n) = len {
            app.recently_played.index = apply_move(ListMove::High, n, Some(sel));
        }
    } else if middle_event(key) {
        if let Some(n) = len {
            app.recently_played.index = apply_move(ListMove::Middle, n, Some(sel));
        }
    } else if low_event(key) {
        if let Some(n) = len {
            app.recently_played.index = apply_move(ListMove::Low, n, Some(sel));
        }
    } else if key == Key::Char('s') {
        if let Some(t) = &selected {
            if let Some(id_str) = &t.id {
                if let Some(id) = track_from_id(id_str.as_str()) {
                    app.dispatch(IoEvent::ToggleSaveTrack(id));
                    assert(app.dispatched@.drop_last() =~= old(app).dispatched@);
                }
            }
        }
    } else if key == Key::Char('w') {
        open_add_to_playlist_for_selected_recent_track(app);
    } else if key == Key::Enter {
        let start = match &app.recently_played.result {
            Some(items) => Some(playable_uris_with_offset(items, sel)),
            None => None,
        };
        if let Some((uris, offset)) = start {
            app.dispatch(IoEvent::StartPlayback(None, Some(uris), offset));
            assert(app.dispatched@.drop_last() =~= old(app).dispatched@);
        }
    } else if key == Key::Char('r') {
        if let Some(t) = &selected {
            if let Some(id_str) = &t.id {
                app.recommendations_context = Some(RecommendationsContext::Song);
                app.recommendations_seed = t.name.clone();
                app.request(AppRequest::RecommendationsForTrack(id_str.clone()));
                assert(app.requests@.drop_last() =~= old(app).requests@);
            }
        }
    } else if key == keys.add_item_to_queue {
        if let Some(t) = &selected {
            if let Some(id_str) = &t.id {
                if let Some(id) = track_from_id(id_str.as_str()) {
                    app.dispatch(IoEvent::AddItemToQueue(id));
                    assert(app.dispatched@.drop_last() =~= old(app).dispatched@);
                }
            }
        }
    }
}

/// Open the add-to-playlist flow for the selected track, by its id when it
/// is a valid track id (a track without one cannot be added).
fn open_add_to_playlist_for_selected_recent_track(app: &mut App)
    ensures
        match recent_selected(old(app).recently_played) {
            Some(t) => add_flow_opened(*old(app), *final(app), valid_track_id(t), t.name),
            None => only_changes(*old(app), *final(app), nothing_changes()),
        },
{
    let sel = app.recently_played.index;
    let target: Option<(Option<String>, String)> = match &app.recently_played.result {
        Some(items) => if sel < items.len() {
            let t = &items[sel];
            let id = match &t.id {
                Some(id_str) => track_from_id(id_str.as_str()),
                None => None,
            };
            Some((id, t.name.clone()))
        } else {
            None
        },
        None => None,
    };
    if let Some((id, name)) = target {
        app.begin_add_track_to_playlist_flow(id, name);
    }
}

// ---------------------------------------------------------------------------
// Laws
// ---------------------------------------------------------------------------

proof fn lemma_ids_of_prefix(items: Seq<TrackInfo>, k: int)
    requires
        0 <= k <= items.len(),
    ensures
        playable_track_ids(items.take(k)).len() <= playable_track_ids(items).len(),
        playable_track_ids(items).take(playable_track_ids(items.take(k)).len() as int)
            == playable_track_ids(items.take(k)),
    decreases items.len() - k,
{
    if k == items.len() {
        assert(items.take(k) =~= items);
    } else {
        lemma_ids_of_prefix(items, k + 1);
        lemma_take_step(items, k);
        let a = playable_track_ids(items.take(k));
        let b = playable_track_ids(items.take(k + 1));
        let all = playable_track_ids(items);
        assert(all.take(a.len() as int) =~= b.take(a.len() as int));
    }
}

/// Playing from the recently-played list starts at the selected track: when
/// the selection has a valid id, the remapped offset points into the started
/// list, at exactly that id.
pub proof fn law_remapped_offset_points_at_selection(items: Seq<TrackInfo>, selected: nat)
    requires
        remapped_offset(items, selected) is Some,
    ensures
        remapped_offset(items, selected)->0 < playable_track_ids(items).len(),
        playable_track_ids(items)[remapped_offset(items, selected)->0 as int] == valid_track_id(
            items[selected as int],
        )->0,
{
    let k = selected as int;
    lemma_ids_of_prefix(items, k + 1);
    lemma_take_step(items, k);
    let a = playable_track_ids(items.take(k));
    let b = playable_track_ids(items.take(k + 1));
    assert(b == a.push(valid_track_id(items[k])->0));
    let all = playable_track_ids(items);
    assert(all.take(b.len() as int)[a.len() as int] == b[a.len() as int]);
}

/// With the stock bindings, the recently-played list reads `h`/Left as
/// leaving, `j`/`k` and the arrows as moves, `s` as save, `w` as add to a
/// playlist, Enter as play, `r` as recommend and `z` as add to queue.
pub proof fn law_recent_keys_with_stock_bindings(keys: KeyBindings)
    requires
        stock_bindings(keys),
    ensures
        classify_recent_key(Key::Char('h'), keys) is Left,
        classify_recent_key(Key::Down, keys) matches RecentKey::Move(ListMove::Down),
        classify_recent_key(Key::Char('j'), keys) matches RecentKey::Move(ListMove::Down),
        classify_recent_key(Key::Char('k'), keys) matches RecentKey::Move(ListMove::Up),
        classify_recent_key(Key::Char('s'), keys) is Save,
        classify_recent_key(Key::Char('w'), keys) is AddToPlaylist,
        classify_recent_key(Key::Enter, keys) is Play,
        classify_recent_key(Key::Char('r'), keys) is Recommend,
        classify_recent_key(Key::Char('z'), keys) is AddToQueue,
{
}

/// When every listed track has a valid id, playing from the list starts
/// all of them, in list order, at the selected track itself.
pub proof fn law_all_valid_tracks_play_in_order(items: Seq<TrackInfo>, selected: nat)
    requires
        forall|j: int| 0 <= j < items.len() ==> (#[trigger] valid_track_id(items[j])) is Some,
    ensures
        playable_track_ids(items).len() == items.len(),
        forall|j: int| 0 <= j < items.len() ==> #[trigger] playable_track_ids(items)[j] == valid_track_id(
            items[j],
        )->0,
        selected < items.len() ==> remapped_offset(items, selected) == Some(selected),
    decreases items.len(),
{
    if items.len() > 0 {
        let front = items.drop_last();
        assert forall|j: int| 0 <= j < front.len() implies (#[trigger] valid_track_id(front[j])) is Some by {
            assert(front[j] == items[j]);
        }
        law_all_valid_tracks_play_in_order(front, selected);
        assert(valid_track_id(items[items.len() - 1]) is Some);
        assert(items.last() == items[items.len() - 1]);
        assert forall|j: int| 0 <= j < items.len() implies #[trigger] playable_track_ids(items)[j]
            == valid_track_id(items[j])->0 by {
            if j < front.len() {
                assert(front[j] == items[j]);
            }
        }
        if selected < items.len() {
            let pre = items.take(selected as int);
            assert forall|j: int| 0 <= j < pre.len() implies (#[trigger] valid_track_id(pre[j])) is Some by {
                assert(pre[j] == items[j]);
            }
            law_all_valid_tracks_play_in_order(pre, 0);
        }
    }
}

/// Save, add-to-queue and recommend act on the selected track: save
/// toggles its saved state and add-to-queue queues it (both by its id),
/// recommend seeds recommendations with it.
pub proof fn law_recent_actions_act_on_the_selection(a: App, b: App, key: Key)
    requires
        recent_key_effect(a, b, key),
        stock_bindings(a.keys),
        recent_selected(a.recently_played) is Some,
        valid_track_id(recent_selected(a.recently_played)->0) is Some,
    ensures
        key == Key::Char('s') ==> (b.dispatched@.last() matches IoEvent::ToggleSaveTrack(x) && x@
            == valid_track_id(recent_selected(a.recently_played)->0)->0),
        key == Key::Char('z') ==> (b.dispatched@.last() matches IoEvent::AddItemToQueue(x) && x@
            == valid_track_id(recent_selected(a.recently_played)->0)->0),
        key == Key::Char('r') ==> b.recommendations_seed == recent_selected(a.recently_played)->0.name
            && b.requests@.last() == AppRequest::RecommendationsForTrack(
            recent_selected(a.recently_played)->0.id->0,
        ),
{
}

} // verus!
