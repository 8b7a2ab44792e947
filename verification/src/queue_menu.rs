//! The Queue screen: a "Now playing" header row (row 0, never actionable)
//! followed by one row per native-queue item; row `k >= 1` is queue item
//! `k - 1`.

use vstd::prelude::*;

use crate::app::{down_event, is_down, is_up, same_except_queue_view, up_event, App, AppRequest, IoEvent, Key};
use crate::track::TrackInfo;

verus! {

/// `q` with the items at `i` and `j` exchanged.
pub open spec fn swapped(q: Seq<TrackInfo>, i: int, j: int) -> Seq<TrackInfo> {
    q.update(i, q[j]).update(j, q[i])
}

/// The selection after a move by `delta` rows over a queue of `len` items
/// (rows `0..=len`): up stops at row 0, down stops at the last row.
pub open spec fn moved_selection(len: nat, sel: nat, delta: int) -> nat {
    if delta == -1 {
        if sel > 0 {
            (sel - 1) as nat
        } else {
            0
        }
    } else if sel + 1 <= len {
        sel + 1
    } else {
        len
    }
}

/// Queue and selection after removing the selected item; the selection is
/// clamped to the shortened list. Row 0 and rows past the queue change
/// nothing.
pub open spec fn after_remove(q: Seq<TrackInfo>, sel: nat) -> (Seq<TrackInfo>, nat) {
    if sel == 0 || sel - 1 >= q.len() {
        (q, sel)
    } else {
        let r = q.remove(sel - 1);
        (r, if sel > r.len() {
            r.len()
        } else {
            sel
        })
    }
}

/// Queue and selection after moving the selected item one place down
/// (`delta == 1`) or up (`delta == -1`); the selection follows the item.
/// No wrap at the ends; row 0 and rows past the queue change nothing.
pub open spec fn after_reorder(q: Seq<TrackInfo>, sel: nat, delta: int) -> (Seq<TrackInfo>, nat) {
    if sel == 0 || sel - 1 >= q.len() {
        (q, sel)
    } else if delta == 1 && sel < q.len() {
        (swapped(q, sel - 1, sel as int), sel + 1)
    } else if delta == -1 && sel > 1 {
        (swapped(q, sel - 1, sel - 2), (sel - 1) as nat)
    } else {
        (q, sel)
    }
}

/// The queue after jumping to the selected row: the items before it are
/// dropped. `None` for row 0 and rows past the queue.
pub open spec fn after_jump(q: Seq<TrackInfo>, sel: nat) -> Option<Seq<TrackInfo>> {
    if sel == 0 || sel - 1 >= q.len() {
        None
    } else {
        Some(q.subrange(sel - 1, q.len() as int))
    }
}

/// Total selectable rows: the now-playing header plus every queue item.
pub fn row_count(app: &App) -> (n: usize)
    ensures
        app.native_queue@.len() < usize::MAX ==> n == app.native_queue@.len() + 1,
{
    app.native_queue.len().saturating_add(1)
}

/// Move the selection one row up (`delta == -1`) or down (any other
/// `delta`), staying within the rows.
pub fn move_selection(delta: i32, app: &mut App)
    ensures
        final(app).queue_selected_index == moved_selection(
            old(app).native_queue@.len(),
            old(app).queue_selected_index as nat,
            delta as int,
        ),
        final(app).native_queue == old(app).native_queue,
        final(app).dispatched == old(app).dispatched,
        final(app).requests == old(app).requests,
        same_except_queue_view(*old(app), *final(app)),
{
    let max_index = app.native_queue.len();
    let current = app.queue_selected_index;
    app.queue_selected_index = match delta {
        -1 => current.saturating_sub(1),
        _ => if current >= max_index {
            max_index
        } else {
            current + 1
        },
    };
}

/// Remove the selected queue item and clamp the selection to the shortened
/// list. Row 0 (now playing) is non-actionable.
pub fn remove_selected(app: &mut App)
    ensures
        (final(app).native_queue@, final(app).queue_selected_index as nat) == after_remove(
            old(app).native_queue@,
            old(app).queue_selected_index as nat,
        ),
        final(app).dispatched == old(app).dispatched,
        final(app).requests == old(app).requests,
        same_except_queue_view(*old(app), *final(app)),
{
    let selected = app.queue_selected_index;
    if selected == 0 {
        return;
    }
    let idx = selected - 1;
    if idx < app.native_queue.len() {
        app.native_queue.remove(idx);
        let max_index = app.native_queue.len();
        if app.queue_selected_index > max_index {
            app.queue_selected_index = max_index;
        }
    }
}

/// Exchange the adjacent items at `i` and `i + 1`.
fn swap_adjacent(q: &mut Vec<TrackInfo>, i: usize)
    requires
        i + 1 < old(q)@.len(),
    ensures
        final(q)@ == swapped(old(q)@, i as int, i + 1),
{
    assert(i + 1 < q.len());
    let x = q.remove(i);
    q.insert(i + 1, x);
    proof {
        assert(final(q)@ =~= swapped(old(q)@, i as int, i + 1));
    }
}

/// Swap the selected item with its neighbor and move the selection with it,
/// so the highlighted row keeps following the same item.
pub fn reorder(delta: i32, app: &mut App)
    ensures
        (final(app).native_queue@, final(app).queue_selected_index as nat) == after_reorder(
            old(app).native_queue@,
            old(app).queue_selected_index as nat,
            delta as int,
        ),
        final(app).dispatched == old(app).dispatched,
        final(app).requests == old(app).requests,
        same_except_queue_view(*old(app), *final(app)),
{
    let selected = app.queue_selected_index;
    if selected == 0 {
        return;
    }
    let idx = selected - 1;
    let len = app.native_queue.len();
    if idx >= len {
        return;
    }
    if delta == 1 && idx + 1 < len {
        swap_adjacent(&mut app.native_queue, idx);
        app.queue_selected_index = selected + 1;
    } else if delta == -1 && idx > 0 {
        swap_adjacent(&mut app.native_queue, idx - 1);
        proof {
            let q = old(app).native_queue@;
            assert(swapped(q, idx - 1, idx as int) =~= swapped(q, idx as int, idx - 1));
        }
        app.queue_selected_index = selected - 1;
    }
}

/// Jump to the selected queue row: drop every item before it and start the
/// native queue there, first asking for the playing context to be suspended
/// when the queue does not already own playback. Row 0 is non-actionable.
pub fn play_selected(app: &mut App)
    ensures
        match after_jump(old(app).native_queue@, old(app).queue_selected_index as nat) {
            None => *final(app) == *old(app),
            Some(q) => {
                &&& final(app).native_queue@ == q
                &&& final(app).queue_selected_index == 1
                &&& final(app).dispatched@ == old(app).dispatched@.push(
                    IoEvent::AdvanceNativeQueue,
                )
                &&& final(app).requests@ == if old(app).queue_owns_playback {
                    old(app).requests@
                } else {
                    old(app).requests@.push(AppRequest::SuspendActiveContext)
                }
                &&& same_except_queue_view(*old(app), *final(app))
            },
        },
{
    let selected = app.queue_selected_index;
    if selected == 0 {
        return;
    }
    let skip = selected - 1;
    if skip >= app.native_queue.len() {
        return;
    }
    let rest = app.native_queue.split_off(skip);
    app.native_queue = rest;
    app.queue_selected_index = 1;
    if !app.queue_owns_playback {
        app.request(AppRequest::SuspendActiveContext);
    }
    app.dispatch(IoEvent::AdvanceNativeQueue);
}

/// What a key does on the Queue screen.
pub open spec fn queue_key_effect(app: App, key: Key) -> QueueKeyEffect {
    if is_down(key, app.keys) {
        QueueKeyEffect::Move(1)
    } else if is_up(key, app.keys) {
        QueueKeyEffect::Move(-1)
    } else if key == Key::Char('J') {
        QueueKeyEffect::Reorder(1)
    } else if key == Key::Char('K') {
        QueueKeyEffect::Reorder(-1)
    } else if key == app.keys.remove_from_queue {
        QueueKeyEffect::Remove
    } else if key == Key::Enter {
        QueueKeyEffect::Jump
    } else {
        QueueKeyEffect::Nothing
    }
}

/// The operations keys select on the Queue screen.
pub enum QueueKeyEffect {
    Move(int),
    Reorder(int),
    Remove,
    Jump,
    Nothing,
}

/// Handle a key on the Queue screen: down/up move the selection, `J`/`K`
/// move the selected item down/up, the remove binding deletes it, Enter
/// starts the queue at it.
pub fn handler(key: Key, app: &mut App)
    ensures
        match queue_key_effect(*old(app), key) {
            QueueKeyEffect::Move(d) => {
                &&& final(app).queue_selected_index == moved_selection(
                    old(app).native_queue@.len(),
                    old(app).queue_selected_index as nat,
                    d,
                )
                &&& final(app).native_queue == old(app).native_queue
                &&& final(app).dispatched == old(app).dispatched
                &&& final(app).requests == old(app).requests
                &&& same_except_queue_view(*old(app), *final(app))
            },
            QueueKeyEffect::Reorder(d) => {
                &&& (final(app).native_queue@, final(app).queue_selected_index as nat)
                    == after_reorder(old(app).native_queue@, old(app).queue_selected_index as nat, d)
                &&& final(app).dispatched == old(app).dispatched
                &&& final(app).requests == old(app).requests
                &&& same_except_queue_view(*old(app), *final(app))
            },
            QueueKeyEffect::Remove => {
                &&& (final(app).native_queue@, final(app).queue_selected_index as nat)
                    == after_remove(old(app).native_queue@, old(app).queue_selected_index as nat)
                &&& final(app).dispatched == old(app).dispatched
                &&& final(app).requests == old(app).requests
                &&& same_except_queue_view(*old(app), *final(app))
            },
            QueueKeyEffect::Jump => match after_jump(
                old(app).native_queue@,
                old(app).queue_selected_index as nat,
            ) {
                None => *final(app) == *old(app),
                Some(q) => {
                    &&& final(app).native_queue@ == q
                    &&& final(app).queue_selected_index == 1
                    &&& final(app).dispatched@ == old(app).dispatched@.push(
                        IoEvent::AdvanceNativeQueue,
                    )
                    &&& final(app).requests@ == if old(app).queue_owns_playback {
                        old(app).requests@
                    } else {
                        old(app).requests@.push(AppRequest::SuspendActiveContext)
                    }
                    &&& same_except_queue_view(*old(app), *final(app))
                },
            },
            QueueKeyEffect::Nothing => *final(app) == *old(app),
        },
{
    let keys = app.keys;
    if down_event(key, &keys) {
        move_selection(1, app);
    } else if up_event(key, &keys) {
        move_selection(-1, app);
    } else if key == Key::Char('J') {
        reorder(1, app);
    } else if key == Key::Char('K') {
        reorder(-1, app);
    } else if key == keys.remove_from_queue {
        remove_selected(app);
    } else if key == Key::Enter {
        play_selected(app);
    }
}

// ---------------------------------------------------------------------------
// Laws
// ---------------------------------------------------------------------------

/// Every Queue-screen operation keeps the selection on an existing row
/// (`0..=queue length`) when it started on one.
pub proof fn law_selection_stays_on_a_row(q: Seq<TrackInfo>, sel: nat, delta: int)
    requires
        sel <= q.len(),
    ensures
        moved_selection(q.len(), sel, delta) <= q.len(),
        after_remove(q, sel).1 <= after_remove(q, sel).0.len(),
        after_reorder(q, sel, delta).1 <= after_reorder(q, sel, delta).0.len(),
        after_jump(q, sel) matches Some(r) ==> 1 <= r.len(),
{
}

/// Reordering only permutes the queue: the same items, each as often.
pub proof fn law_reorder_is_a_permutation(q: Seq<TrackInfo>, sel: nat, delta: int)
    ensures
        after_reorder(q, sel, delta).0.to_multiset() == q.to_multiset(),
{
    broadcast use vstd::seq_lib::group_to_multiset_ensures;

    let r = after_reorder(q, sel, delta);
    if !(sel == 0 || sel - 1 >= q.len()) {
        if delta == 1 && sel < q.len() {
            lemma_swap_multiset(q, sel - 1, sel as int);
        } else if delta == -1 && sel > 1 {
            lemma_swap_multiset(q, sel - 1, sel - 2);
        }
    }
}

proof fn lemma_swap_multiset(q: Seq<TrackInfo>, i: int, j: int)
    requires
        0 <= i < q.len(),
        0 <= j < q.len(),
    ensures
        swapped(q, i, j).to_multiset() == q.to_multiset(),
{
    broadcast use vstd::seq_lib::group_to_multiset_ensures;

    let a = q.update(i, q[j]);
    vstd::seq_lib::to_multiset_update(q, i, q[j]);
    vstd::seq_lib::to_multiset_update(a, j, q[i]);
    assert(a[j] == if i == j { q[j] } else { q[j] });
}

/// Moving the selected item down and then up again restores both the queue
/// and the selection.
pub proof fn law_reorder_down_then_up_restores(q: Seq<TrackInfo>, sel: nat)
    requires
        1 <= sel < q.len(),
    ensures
        ({
            let (q1, s1) = after_reorder(q, sel, 1);
            after_reorder(q1, s1, -1)
        }) == (q, sel),
{
    let (q1, s1) = after_reorder(q, sel, 1);
    assert(swapped(q1, s1 - 1, s1 - 2) =~= q);
}

/// Removing the selected item shortens the queue by exactly that item.
pub proof fn law_remove_takes_out_the_selected_item(q: Seq<TrackInfo>, sel: nat)
    requires
        1 <= sel <= q.len(),
    ensures
        after_remove(q, sel).0 == q.subrange(0, sel - 1) + q.subrange(sel as int, q.len() as int),
        after_remove(q, sel).0.len() == q.len() - 1,
{
}

/// Enter on queue row `sel` (row 0, the now-playing header, excepted)
/// starts the queue at the item shown on that row: the items above it are
/// dropped and the rest keep their order. The header row and rows past the
/// queue do nothing.
pub proof fn law_jump_starts_at_the_selected_row(q: Seq<TrackInfo>, sel: nat)
    ensures
        (1 <= sel <= q.len()) <==> after_jump(q, sel) is Some,
        after_jump(q, sel) matches Some(r) ==> r.len() == q.len() - sel + 1 && r[0] == q[sel - 1]
            && (forall|i: int| 0 <= i < r.len() ==> #[trigger] r[i] == q[sel - 1 + i]),
{
}

/// The selection follows the moved item: after moving the item on row
/// `sel` down or up, it sits on the row now selected, and the item it
/// changed places with sits on the row it left. At the ends (and on the
/// header row) nothing moves.
pub proof fn law_reorder_moves_the_selected_item(q: Seq<TrackInfo>, sel: nat, delta: int)
    requires
        delta == 1 || delta == -1,
    ensures
        ({
            let (r, s) = after_reorder(q, sel, delta);
            &&& r.len() == q.len()
            &&& (1 <= sel <= q.len() && ((delta == 1 && sel < q.len()) || (delta == -1 && sel > 1)))
                ==> s == sel + delta && r[s - 1] == q[sel - 1] && r[sel - 1] == q[s - 1] && (forall|
                i: int,
            | 0 <= i < q.len() && i != sel - 1 && i != s - 1 ==> #[trigger] r[i] == q[i])
            &&& !(1 <= sel <= q.len() && ((delta == 1 && sel < q.len()) || (delta == -1 && sel > 1)))
                ==> r == q && s == sel
        }),
{
}

/// Down moves the selection one row towards the end of the queue and up
/// one row towards the header, stopping at the last row and at the header.
pub proof fn law_selection_moves_one_row(len: nat, sel: nat)
    requires
        sel <= len,
    ensures
        sel < len ==> moved_selection(len, sel, 1) == sel + 1,
        sel == len ==> moved_selection(len, sel, 1) == len,
        sel > 0 ==> moved_selection(len, sel, -1) == sel - 1,
        sel == 0 ==> moved_selection(len, sel, -1) == 0,
{
}

/// Removing the item on row `sel` keeps the selection on that row, or on
/// the new last row when the last item went; the header row and rows past
/// the queue remove nothing.
pub proof fn law_remove_keeps_the_selection_in_place(q: Seq<TrackInfo>, sel: nat)
    ensures
        1 <= sel <= q.len() ==> after_remove(q, sel).1 == if sel < q.len() {
            sel
        } else {
            (q.len() - 1) as nat
        },
        !(1 <= sel <= q.len()) ==> after_remove(q, sel) == (q, sel),
{
}

/// On the Queue screen, with the default meaning of each key not taken by
/// a rebinding: the down and up bindings move the selection down and up,
/// `J` moves the selected item down and `K` up, the remove binding removes
/// it, and Enter starts the queue at it.
pub proof fn law_queue_keys(a: App, key: Key)
    ensures
        is_down(key, a.keys) ==> (queue_key_effect(a, key) matches QueueKeyEffect::Move(d) && d == 1),
        !is_down(key, a.keys) && is_up(key, a.keys) ==> (queue_key_effect(a, key) matches QueueKeyEffect::Move(d) && d == -1),
        !is_down(key, a.keys) && !is_up(key, a.keys) && key == Key::Char('J') ==> (queue_key_effect(a, key) matches QueueKeyEffect::Reorder(d) && d == 1),
        !is_down(key, a.keys) && !is_up(key, a.keys) && key == Key::Char('K') ==> (queue_key_effect(a, key) matches QueueKeyEffect::Reorder(d) && d == -1),
        !is_down(key, a.keys) && !is_up(key, a.keys) && key != Key::Char('J') && key != Key::Char('K')
            && key == a.keys.remove_from_queue ==> queue_key_effect(a, key) is Remove,
        !is_down(key, a.keys) && !is_up(key, a.keys) && key != a.keys.remove_from_queue && key
            == Key::Enter ==> queue_key_effect(a, key) is Jump,
{
}

} // verus!
