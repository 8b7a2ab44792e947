//! The text of the search screen: the rows of each result block (marked
//! when playing, liked, followed or saved), the station rows under the
//! internet-radio source, and the contents of the input, help and settings
//! boxes. Drawing happens outside.

use vstd::prelude::*;

use crate::app::{AlbumInfo, ArtistInfo, ShowInfo};
use crate::format::join;
use crate::ids::views;
use crate::text::{concat, push_str, str_eq};
use crate::track::{ArtistRef, TrackInfo};

verus! {

// ---------------------------------------------------------------------------
// Joining
// ---------------------------------------------------------------------------

/// `parts` joined with `sep` between them.
pub fn join_strings(parts: &Vec<String>, sep: &str) -> (r: String)
    ensures
        r@ == join(views(parts@), sep@),
{
    let mut r = String::new();
    let n = parts.len();
    let mut i: usize = 0;
    while i < n
        invariant
            n == parts@.len(),
            i <= n,
            r@ == join(views(parts@.take(i as int)), sep@),
        decreases n - i,
    {
        proof {
            assert(views(parts@.take(i as int + 1)).drop_last() =~= views(parts@.take(i as int)));
            assert(views(parts@.take(i as int + 1)).last() == parts@[i as int]@);
        }
        if i > 0 {
            push_str(&mut r, sep);
        } else {
            proof {
                assert(views(parts@.take(1)) =~= seq![parts@[0]@]);
            }
        }
        push_str(&mut r, parts[i].as_str());
        i += 1;
    }
    proof {
        assert(parts@.take(n as int) =~= parts@);
    }
    r
}

/// The names of `artists`.
pub open spec fn artist_names(artists: Seq<ArtistRef>) -> Seq<Seq<char>> {
    artists.map_values(|a: ArtistRef| a.name@)
}

/// The names of `artists`, joined with `, `.
pub fn join_artist_names(artists: &Vec<ArtistRef>) -> (r: String)
    ensures
        r@ == join(artist_names(artists@), ", "@),
{
    let mut names: Vec<String> = Vec::new();
    let n = artists.len();
    let mut i: usize = 0;
    while i < n
        invariant
            n == artists@.len(),
            i <= n,
            names@.len() == i,
            views(names@) == artist_names(artists@.take(i as int)),
        decreases n - i,
    {
        let ghost before = names@;
        names.push(artists[i].name.clone());
        proof {
            assert(names@.drop_last() == before);
            assert(views(names@) =~= views(before).push(artists@[i as int].name@));
            assert(artists@.take(i as int + 1) =~= artists@.take(i as int).push(artists@[i as int]));
            assert(artist_names(artists@.take(i as int + 1)) =~= artist_names(artists@.take(i as int)).push(
                artists@[i as int].name@,
            ));
        }
        i += 1;
    }
    proof {
        assert(artists@.take(n as int) =~= artists@);
    }
    join_strings(&names, ", ")
}

// ---------------------------------------------------------------------------
// Result rows
// ---------------------------------------------------------------------------

/// The id of an item, or the empty id.
pub open spec fn id_or_empty(id: Option<String>) -> Seq<char> {
    match id {
        Some(x) => x@,
        None => seq![],
    }
}

/// A song row: `▶ ` when its id is the playing id (a missing id counts as
/// the empty id), the liked icon when liked, then the name and the artists.
pub open spec fn song_row_text(t: TrackInfo, playing_id: Seq<char>, liked: bool, icon: Seq<char>) -> Seq<char> {
    (if id_or_empty(t.id) == playing_id {
        "▶ "@
    } else {
        seq![]
    }) + (if liked {
        icon
    } else {
        seq![]
    }) + t.name@ + " - "@ + join(views(t.artists@), ", "@)
}

/// The row of a song result.
pub fn song_row(item: &TrackInfo, playing_id: &str, liked: bool, liked_icon: &str) -> (r: String)
    ensures
        r@ == song_row_text(*item, playing_id@, liked, liked_icon@),
{
    let mut row = String::new();
    let playing = match &item.id {
        Some(id) => str_eq(id.as_str(), playing_id),
        None => playing_id.is_empty(),
    };
    assert(playing == (id_or_empty(item.id) == playing_id@)) by {
        if item.id is None {
            if playing_id@.len() == 0 {
                assert(playing_id@ =~= seq![]);
            }
        }
    }
    if playing {
        push_str(&mut row, "▶ ");
    }
    let ghost a = row@;
    if liked {
        push_str(&mut row, liked_icon);
    }
    let ghost b = row@;
    push_str(&mut row, item.name.as_str());
    push_str(&mut row, " - ");
    let artists = join_strings(&item.artists, ", ");
    push_str(&mut row, artists.as_str());
    proof {
        let pre = if id_or_empty(item.id) == playing_id@ {
            "▶ "@
        } else {
            seq![]
        };
        let ic = if liked {
            liked_icon@
        } else {
            seq![]
        };
        assert(a =~= pre);
        assert(b =~= pre + ic);
        assert(row@ =~= song_row_text(*item, playing_id@, liked, liked_icon@));
    }
    row
}

/// The row of an artist result: the liked icon when followed, then the
/// name.
pub fn artist_row(item: &ArtistInfo, followed: bool, liked_icon: &str) -> (r: String)
    ensures
        r@ == (if followed {
            liked_icon@
        } else {
            seq![]
        }) + item.name@,
{
    let mut row = String::new();
    if followed {
        push_str(&mut row, liked_icon);
    }
    push_str(&mut row, item.name.as_str());
    row
}

/// The row of an album result: the liked icon when saved, then
/// `name - artists (type)`, with `unknown` for a missing type.
pub fn album_row(item: &AlbumInfo, saved: bool, liked_icon: &str) -> (r: String)
    ensures
        r@ == (if saved {
            liked_icon@
        } else {
            seq![]
        }) + item.name@ + " - "@ + join(artist_names(item.artists@), ", "@) + " ("@ + match item.album_type {
            Some(t) => t@,
            None => "unknown"@,
        } + ")"@,
{
    let mut row = String::new();
    if saved {
        push_str(&mut row, liked_icon);
    }
    push_str(&mut row, item.name.as_str());
    push_str(&mut row, " - ");
    let artists = join_artist_names(&item.artists);
    push_str(&mut row, artists.as_str());
    push_str(&mut row, " (");
    match &item.album_type {
        Some(t) => push_str(&mut row, t.as_str()),
        None => push_str(&mut row, "unknown"),
    }
    push_str(&mut row, ")");
    row
}

/// The row of a podcast result: the liked icon when saved, then the name.
pub fn show_row(item: &ShowInfo, saved: bool, liked_icon: &str) -> (r: String)
    ensures
        r@ == (if saved {
            liked_icon@
        } else {
            seq![]
        }) + item.name@,
{
    let mut row = String::new();
    if saved {
        push_str(&mut row, liked_icon);
    }
    push_str(&mut row, item.name.as_str());
    row
}

/// A station row: the radio marker and the name, then ` - ` and the genre
/// tags when there are any, then the summary in parentheses when there is
/// one.
pub open spec fn station_row_text(t: TrackInfo) -> Seq<char> {
    "📻 "@ + t.name@ + (if t.artists@.len() > 0 {
        " - "@ + join(views(t.artists@), ", "@)
    } else {
        seq![]
    }) + (if t.album@.len() > 0 {
        "  ("@ + t.album@ + ")"@
    } else {
        seq![]
    })
}

/// The row of a radio station (genre tags travel in `artists`, the
/// country/codec/bitrate summary in `album`).
pub fn station_row(station: &TrackInfo) -> (r: String)
    ensures
        r@ == station_row_text(*station),
{
    let mut row = concat("📻 ", station.name.as_str());
    if station.artists.len() > 0 {
        push_str(&mut row, " - ");
        let tags = join_strings(&station.artists, ", ");
        push_str(&mut row, tags.as_str());
    }
    if !station.album.as_str().is_empty() {
        push_str(&mut row, "  (");
        push_str(&mut row, station.album.as_str());
        push_str(&mut row, ")");
    }
    proof {
        assert(row@ =~= station_row_text(*station));
    }
    row
}

// ---------------------------------------------------------------------------
// Input, help and settings boxes
// ---------------------------------------------------------------------------

/// What the input box searches.
#[derive(Debug, Clone, Copy, PartialEq, Eq, Structural)]
pub enum InputContext {
    PlaylistTrackSearch,
    GlobalSearch,
}

/// The title of the input box.
pub fn input_title(context: InputContext) -> (t: &'static str)
    ensures
        t@ == match context {
            InputContext::PlaylistTrackSearch => "Search Playlist"@,
            InputContext::GlobalSearch => "Search"@,
        },
{
    match context {
        InputContext::PlaylistTrackSearch => "Search Playlist",
        InputContext::GlobalSearch => "Search",
    }
}

/// The horizontal scroll that keeps the cursor inside an input box `width`
/// cells wide (two of them are borders).
pub open spec fn scroll_for(width: u16, cursor: u16) -> int {
    let inner: int = if width >= 2 {
        width - 2
    } else {
        0
    };
    if inner > 0 && cursor >= inner {
        cursor - inner + 1
    } else {
        0
    }
}

/// The horizontal scroll that keeps the cursor inside an input box `width`
/// cells wide (two of them are borders).
pub fn input_scroll_offset(width: u16, cursor: u16) -> (r: u16)
    ensures
        r == scroll_for(width, cursor),
{
    let inner = if width >= 2 {
        width - 2
    } else {
        0
    };
    if inner > 0 && cursor >= inner {
        cursor - inner + 1
    } else {
        0
    }
}

/// The input box scrolls just enough to show the cursor: the cursor stays
/// among the visible cells, and no smaller scroll would show it; a box with
/// no inner cells never scrolls.
pub proof fn law_input_scrolls_just_enough(width: u16, cursor: u16)
    ensures
        width > 2 ==> scroll_for(width, cursor) <= cursor && cursor < scroll_for(width, cursor) + (width - 2),
        width > 2 ==> (scroll_for(width, cursor) == 0 || cursor >= scroll_for(width, cursor) - 1 + (width - 2)),
        width <= 2 ==> scroll_for(width, cursor) == 0,
        scroll_for(width, cursor) >= 0,
{
}

/// The width of the top row: the three boxes together, saturating.
pub fn top_row_width(input: u16, help: u16, settings: u16) -> (r: u16)
    ensures
        r == if input + help + settings > 65535 {
            65535
        } else {
            input + help + settings
        },
{
    input.saturating_add(help).saturating_add(settings)
}

/// The text of the help box: a loading marker while loading (when the
/// indicator is on), else a hint, shortened on a compact top row.
pub fn help_text(show_loading: bool, compact: bool) -> (t: &'static str)
    ensures
        t@ == if show_loading {
            "..."@
        } else if compact {
            "?"@
        } else {
            "Type ?"@
        },
{
    if show_loading {
        "..."
    } else if compact {
        "?"
    } else {
        "Type ?"
    }
}

/// `s` without the `<` and `>` characters at either end.
pub open spec fn strip_angles(s: Seq<char>) -> Seq<char>
    decreases s.len(),
{
    if s.len() > 0 && (s[0] == '<' || s[0] == '>') {
        strip_angles(s.drop_first())
    } else if s.len() > 0 && (s.last() == '<' || s.last() == '>') {
        strip_angles(s.drop_last())
    } else {
        s
    }
}

/// The hint of the settings box for the settings key written as `key`
/// (angle brackets dropped): the bare key on a compact top row, else
/// `Type` and the key.
pub fn settings_hint(key: &str, compact: bool) -> (r: String)
    ensures
        r@ == if compact {
            strip_angles(key@)
        } else {
            "Type "@ + strip_angles(key@)
        },
{
    let stripped = strip_angle_brackets(key);
    if compact {
        stripped
    } else {
        concat("Type ", stripped.as_str())
    }
}

/// `key` without the `<` and `>` characters at either end.
fn strip_angle_brackets(key: &str) -> (r: String)
    ensures
        r@ == strip_angles(key@),
{
    let chars = crate::text::chars_of(key);
    let mut lo: usize = 0;
    let mut hi: usize = chars.len();
    assert(chars@.subrange(0, hi as int) =~= key@);
    while lo < hi && (chars[lo] == '<' || chars[lo] == '>')
        invariant
            chars@ == key@,
            lo <= hi <= chars@.len(),
            hi == chars@.len(),
            strip_angles(key@) == strip_angles(chars@.subrange(lo as int, hi as int)),
        decreases hi - lo,
    {
        proof {
            assert(chars@.subrange(lo as int, hi as int).drop_first() =~= chars@.subrange(
                lo as int + 1,
                hi as int,
            ));
        }
        lo += 1;
    }
    while lo < hi && (chars[hi - 1] == '<' || chars[hi - 1] == '>')
        invariant
            chars@ == key@,
            lo <= hi <= chars@.len(),
            strip_angles(key@) == strip_angles(chars@.subrange(lo as int, hi as int)),
            lo < hi ==> chars@[lo as int] != '<' && chars@[lo as int] != '>',
        decreases hi - lo,
    {
        proof {
            let s = chars@.subrange(lo as int, hi as int);
            assert(s.drop_last() =~= chars@.subrange(lo as int, hi as int - 1));
        }
        hi -= 1;
    }
    let mut r = String::new();
    let mut i: usize = lo;
    while i < hi
        invariant
            chars@ == key@,
            lo <= i <= hi <= chars@.len(),
            r@ == chars@.subrange(lo as int, i as int),
        decreases hi - i,
    {
        crate::text::push_char(&mut r, chars[i]);
        proof {
            assert(chars@.subrange(lo as int, i as int + 1) =~= chars@.subrange(lo as int, i as int).push(
                chars@[i as int],
            ));
        }
        i += 1;
    }
    r
}

/// The playing marker and the liked icon are put in front of a song's
/// row: the playing song's row is the marker followed by the row it would
/// have if it were not playing, and a liked song's row (not playing) is the
/// liked icon followed by its plain row. The plain row is the name, ` - `
/// and the artists.
pub proof fn law_song_row_markers_lead_the_row(t: TrackInfo, other: Seq<char>, liked: bool, icon: Seq<char>)
    requires
        other != id_or_empty(t.id),
    ensures
        song_row_text(t, id_or_empty(t.id), liked, icon) == "▶ "@ + song_row_text(t, other, liked, icon),
        song_row_text(t, other, true, icon) == icon + song_row_text(t, other, false, icon),
        song_row_text(t, other, false, icon) == t.name@ + " - "@ + join(views(t.artists@), ", "@),
{
    let tail = t.name@ + " - "@ + join(views(t.artists@), ", "@);
    assert(song_row_text(t, other, false, icon) =~= tail);
    assert(song_row_text(t, other, true, icon) =~= icon + tail);
    assert(song_row_text(t, id_or_empty(t.id), liked, icon) =~= "▶ "@ + song_row_text(t, other, liked, icon));
}

/// A station row is the radio marker and the station's name, with the
/// genre tags and the summary added only when the record has them.
pub proof fn law_station_row_shows_what_the_record_has(t: TrackInfo)
    ensures
        (t.artists@.len() == 0 && t.album@.len() == 0) ==> station_row_text(t) == "📻 "@ + t.name@,
        (t.artists@.len() > 0 && t.album@.len() == 0) ==> station_row_text(t) == "📻 "@ + t.name@
            + " - "@ + join(views(t.artists@), ", "@),
        (t.artists@.len() == 0 && t.album@.len() > 0) ==> station_row_text(t) == "📻 "@ + t.name@
            + "  ("@ + t.album@ + ")"@,
{
    let e: Seq<char> = seq![];
    assert(("📻 "@ + t.name@ + e + e) =~= "📻 "@ + t.name@);
    assert(("📻 "@ + t.name@ + (" - "@ + join(views(t.artists@), ", "@)) + e) =~= "📻 "@ + t.name@
        + " - "@ + join(views(t.artists@), ", "@));
    assert(("📻 "@ + t.name@ + e + ("  ("@ + t.album@ + ")"@)) =~= "📻 "@ + t.name@ + "  ("@ + t.album@
        + ")"@);
}

/// A key written in angle brackets is shown bare: `<key>` shows as `key`
/// when the key itself neither starts nor ends with a bracket.
pub proof fn law_angle_brackets_are_dropped(k: Seq<char>)
    requires
        k.len() > 0,
        k[0] != '<' && k[0] != '>',
        k.last() != '<' && k.last() != '>',
    ensures
        strip_angles(seq!['<'] + k + seq!['>']) == k,
        strip_angles(k) == k,
{
    let s = seq!['<'] + k + seq!['>'];
    assert(s.drop_first() =~= k + seq!['>']);
    let t = k + seq!['>'];
    assert(t[0] == k[0]);
    assert(t.last() == '>');
    assert(t.drop_last() =~= k);
    assert(strip_angles(k) == k);
    assert(strip_angles(t) == strip_angles(k));
    assert(s[0] == '<');
    assert(strip_angles(s) == strip_angles(t));
}

} // verus!
