//! What the Spotify library source decides between its web-API calls: when
//! a paginated listing is complete, and which track ids a playlist edit
//! sends (all of them parse, or the edit is refused naming the first that
//! does not).

use vstd::prelude::*;

use crate::ids::{id_from_id_or_uri, track_id, IdKind};

verus! {

/// The offset of the page after the one at `offset` (`limit` items long):
/// none after the last or an empty page, or when it would not fit.
pub open spec fn next_offset(offset: u32, limit: u32, has_next: bool, items_empty: bool) -> Option<u32> {
    if !has_next || items_empty || offset + limit > u32::MAX {
        None
    } else {
        Some((offset + limit) as u32)
    }
}

/// The offset of the next page of a listing, or `None` when the page just
/// read was the last (no next page, or an empty one), or when the next
/// offset would not fit in a `u32` (no such page can be asked for).
pub fn next_page_offset(offset: u32, limit: u32, has_next: bool, items_empty: bool) -> (r: Option<u32>)
    ensures
        r == next_offset(offset, limit, has_next, items_empty),
{
    if !has_next || items_empty {
        None
    } else {
        offset.checked_add(limit)
    }
}

/// The ids of all of `items` when every one parses as a track id or URI,
/// else the first that does not.
pub open spec fn all_track_ids_of(items: Seq<String>) -> Result<Seq<Seq<char>>, Seq<char>>
    decreases items.len(),
{
    if items.len() == 0 {
        Ok(seq![])
    } else {
        match all_track_ids_of(items.drop_last()) {
            Err(bad) => Err(bad),
            Ok(ids) => match id_from_id_or_uri(items.last()@, IdKind::Track) {
                Some(id) => Ok(ids.push(id)),
                None => Err(items.last()@),
            },
        }
    }
}

/// Parse every track id/URI of a playlist edit, or name the first that does
/// not parse.
pub fn all_track_ids(items: &[String]) -> (r: Result<Vec<String>, String>)
    ensures
        match (r, all_track_ids_of(items@)) {
            (Ok(v), Ok(ids)) => v@.map_values(|s: String| s@) == ids,
            (Err(x), Err(bad)) => x@ == bad,
            _ => false,
        },
{
    let mut out: Vec<String> = Vec::new();
    let n = items.len();
    let mut i: usize = 0;
    while i < n
        invariant
            n == items@.len(),
            i <= n,
            all_track_ids_of(items@.take(i as int)) matches Ok(ids) && out@.map_values(
                |s: String| s@,
            ) == ids,
        decreases n - i,
    {
        proof {
            assert(items@.take(i as int + 1).drop_last() =~= items@.take(i as int));
            assert(items@.take(i as int + 1).last() == items@[i as int]);
        }
        match track_id(items[i].as_str()) {
            Some(id) => {
                out.push(id);
                proof {
                    assert(out@.map_values(|s: String| s@) =~= out@.drop_last().map_values(
                        |s: String| s@,
                    ).push(out@.last()@));
                }
            },
            None => {
                proof {
                    lemma_first_error_stays(items@, i as int + 1);
                }
                return Err(items[i].clone());
            },
        }
        i += 1;
    }
    proof {
        assert(items@.take(n as int) =~= items@);
    }
    Ok(out)
}

/// Once a prefix holds an invalid id, the whole list reports that one.
proof fn lemma_first_error_stays(items: Seq<String>, k: int)
    requires
        0 <= k <= items.len(),
        all_track_ids_of(items.take(k)) is Err,
    ensures
        all_track_ids_of(items) == all_track_ids_of(items.take(k)),
    decreases items.len() - k,
{
    if k == items.len() {
        assert(items.take(k) =~= items);
    } else {
        assert(items.take(k + 1).drop_last() =~= items.take(k));
        lemma_first_error_stays(items, k + 1);
    }
}

/// A playlist edit goes through only when every entry is a track id or
/// URI, and then sends each entry's id, in entry order; otherwise it is
/// refused naming the first entry that is not one (every entry before it
/// is).
pub proof fn law_edits_send_every_id_or_name_the_first_bad_entry(items: Seq<String>)
    ensures
        all_track_ids_of(items) matches Ok(ids) ==> ids.len() == items.len() && forall|j: int|
            0 <= j < items.len() ==> id_from_id_or_uri(#[trigger] items[j]@, IdKind::Track) == Some(ids[j]),
        all_track_ids_of(items) matches Err(bad) ==> exists|k: int|
            0 <= k < items.len() && #[trigger] items[k]@ == bad && id_from_id_or_uri(bad, IdKind::Track)
                is None && forall|j: int| 0 <= j < k ==> id_from_id_or_uri(#[trigger] items[j]@, IdKind::Track) is Some,
    decreases items.len(),
{
    if items.len() > 0 {
        let front = items.drop_last();
        law_edits_send_every_id_or_name_the_first_bad_entry(front);
        let last = items.len() - 1;
        assert(items.last() == items[last]);
        match all_track_ids_of(front) {
            Ok(ids) => {
                assert forall|j: int| 0 <= j < front.len() implies id_from_id_or_uri(#[trigger] items[j]@, IdKind::Track)
                    == Some(ids[j]) by {
                    assert(front[j] == items[j]);
                }
                match id_from_id_or_uri(items.last()@, IdKind::Track) {
                    Some(id) => {
                        let all = ids.push(id);
                        assert forall|j: int| 0 <= j < items.len() implies id_from_id_or_uri(#[trigger] items[j]@, IdKind::Track)
                            == Some(all[j]) by {
                            if j < front.len() {
                                assert(front[j] == items[j]);
                            }
                        }
                    },
                    None => {
                        assert forall|j: int| 0 <= j < last implies id_from_id_or_uri(#[trigger] items[j]@, IdKind::Track) is Some by {
                            assert(front[j] == items[j]);
                        }
                        assert(items[last]@ == items.last()@);
                    },
                }
            },
            Err(bad) => {
                let k = choose|k: int|
                    0 <= k < front.len() && #[trigger] front[k]@ == bad && id_from_id_or_uri(bad, IdKind::Track)
                        is None && forall|j: int| 0 <= j < k ==> id_from_id_or_uri(#[trigger] front[j]@, IdKind::Track) is Some;
                assert(items[k] == front[k]);
                assert forall|j: int| 0 <= j < k implies id_from_id_or_uri(#[trigger] items[j]@, IdKind::Track) is Some by {
                    assert(front[j] == items[j]);
                }
            },
        }
    }
}

/// Paging walks a listing page after page: the next page starts right
/// after the one just read (one page length further on), and paging stops
/// after the last page, after an empty page, and where the next offset
/// would not fit.
pub proof fn law_pages_follow_one_another(offset: u32, limit: u32, has_next: bool, items_empty: bool)
    ensures
        next_offset(offset, limit, has_next, items_empty) matches Some(n) ==> n == offset + limit && has_next
            && !items_empty,
        (has_next && !items_empty && offset + limit <= u32::MAX) ==> next_offset(offset, limit, has_next, items_empty) is Some,
        (!has_next || items_empty) ==> next_offset(offset, limit, has_next, items_empty) is None,
{
}

} // verus!
