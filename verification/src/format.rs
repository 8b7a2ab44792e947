//! Format-string templates for customizable playbar / window-title text.
//!
//! A [`Template`] is a sequence of literal segments and `{placeholder}`
//! segments:
//! - `{key}` is substituted with the named value at render time (the key is
//!   trimmed of surrounding white space and must be one of the allowed keys);
//! - `{{` and `}}` produce a literal `{` and `}`.
//!
//! The meaning of a template is given at the level of characters: a parsed
//! template denotes a sequence of [`Piece`]s, each either a literal character
//! or a slot naming the index of an allowed key.

use vstd::prelude::*;

use crate::text::{chars_eq, chars_of, push_char};

verus! {

broadcast use vstd::seq_lib::group_seq_properties;

// ---------------------------------------------------------------------------
// Specification
// ---------------------------------------------------------------------------

/// One character-level piece of a template.
pub enum Piece {
    /// A literal character copied to the output.
    Char(char),
    /// A placeholder for the value at this index of the allowed keys.
    Slot(nat),
}

/// Why a template text was rejected, at the specification level.
pub enum TemplateFault {
    /// A `{` without a later `}`.
    UnbalancedOpen,
    /// A placeholder whose trimmed key is not allowed.
    UnknownKey(Seq<char>),
    /// A lone `}` that does not start `}}`.
    UnbalancedClose,
}

/// Unicode `White_Space`, the set `char::is_whitespace` (and so `str::trim`)
/// tests against.
pub open spec fn is_white_space(c: char) -> bool {
    let u = c as u32;
    ||| 0x9 <= u <= 0xD
    ||| u == 0x20
    ||| u == 0x85
    ||| u == 0xA0
    ||| u == 0x1680
    ||| 0x2000 <= u <= 0x200A
    ||| u == 0x2028
    ||| u == 0x2029
    ||| u == 0x202F
    ||| u == 0x205F
    ||| u == 0x3000
}

/// `s` without its leading white space.
pub open spec fn trim_start(s: Seq<char>) -> Seq<char>
    decreases s.len(),
{
    if s.len() > 0 && is_white_space(s[0]) {
        trim_start(s.drop_first())
    } else {
        s
    }
}

/// `s` without its trailing white space.
pub open spec fn trim_end(s: Seq<char>) -> Seq<char>
    decreases s.len(),
{
    if s.len() > 0 && is_white_space(s.last()) {
        trim_end(s.drop_last())
    } else {
        s
    }
}

/// `s` without leading and trailing white space (`str::trim`).
pub open spec fn trim(s: Seq<char>) -> Seq<char> {
    trim_end(trim_start(s))
}

/// The last index at which `key` occurs in `keys` (a later duplicate of an
/// allowed key shadows an earlier one).
pub open spec fn last_index_of(keys: Seq<Seq<char>>, key: Seq<char>) -> Option<nat>
    decreases keys.len(),
{
    if keys.len() == 0 {
        None
    } else if keys.last() == key {
        Some((keys.len() - 1) as nat)
    } else {
        last_index_of(keys.drop_last(), key)
    }
}

/// The first index at or after `j` that holds `}`, or `s.len()` if none does.
pub open spec fn next_close(s: Seq<char>, j: int) -> int
    decreases s.len() - j,
{
    if j >= s.len() || s[j] == '}' {
        j
    } else {
        next_close(s, j + 1)
    }
}

/// `r` with `p` put in front of its pieces (errors pass through).
pub open spec fn cons_piece(p: Piece, r: Result<Seq<Piece>, TemplateFault>) -> Result<
    Seq<Piece>,
    TemplateFault,
> {
    match r {
        Ok(ps) => Ok(seq![p] + ps),
        Err(e) => Err(e),
    }
}

/// `r` with `acc` put in front of its pieces (errors pass through).
pub open spec fn prefix_with(acc: Seq<Piece>, r: Result<Seq<Piece>, TemplateFault>) -> Result<
    Seq<Piece>,
    TemplateFault,
> {
    match r {
        Ok(ps) => Ok(acc + ps),
        Err(e) => Err(e),
    }
}

/// The pieces of the template text `s` from position `i` on, scanning left
/// to right and stopping at the first fault.
pub open spec fn pieces_from(s: Seq<char>, i: int, keys: Seq<Seq<char>>) -> Result<
    Seq<Piece>,
    TemplateFault,
>
    decreases s.len() - i,
{
    if i < 0 || i >= s.len() {
        Ok(seq![])
    } else if s[i] == '{' {
        if i + 1 < s.len() && s[i + 1] == '{' {
            cons_piece(Piece::Char('{'), pieces_from(s, i + 2, keys))
        } else {
            let j = next_close(s, i + 1);
            if j >= s.len() {
                Err(TemplateFault::UnbalancedOpen)
            } else {
                let key = trim(s.subrange(i + 1, j));
                match last_index_of(keys, key) {
                    None => Err(TemplateFault::UnknownKey(key)),
                    Some(k) => {
                        proof {
                            lemma_next_close_bounds(s, i + 1);
                        }
                        cons_piece(Piece::Slot(k), pieces_from(s, j + 1, keys))
                    },
                }
            }
        }
    } else if s[i] == '}' {
        if i + 1 < s.len() && s[i + 1] == '}' {
            cons_piece(Piece::Char('}'), pieces_from(s, i + 2, keys))
        } else {
            Err(TemplateFault::UnbalancedClose)
        }
    } else {
        cons_piece(Piece::Char(s[i]), pieces_from(s, i + 1, keys))
    }
}

/// The meaning of parsing `s` against the allowed `keys`.
pub open spec fn parse_spec(s: Seq<char>, keys: Seq<Seq<char>>) -> Result<
    Seq<Piece>,
    TemplateFault,
> {
    pieces_from(s, 0, keys)
}

/// The allowed keys of a `&[&str]`, as character sequences.
pub open spec fn keys_view(allowed: Seq<&str>) -> Seq<Seq<char>> {
    allowed.map_values(|k: &str| k@)
}

/// Literal characters as pieces.
pub open spec fn chars_to_pieces(cs: Seq<char>) -> Seq<Piece> {
    cs.map_values(|c: char| char_piece(c))
}

/// A slot as a piece.
pub open spec fn slot_piece(k: nat) -> Piece {
    Piece::Slot(k)
}

/// The character sequences held by a sequence of vectors.
pub open spec fn vecs_view(v: Seq<Vec<char>>) -> Seq<Seq<char>> {
    v.map_values(|k: Vec<char>| k@)
}

/// A literal character as a piece.
pub open spec fn char_piece(c: char) -> Piece {
    Piece::Char(c)
}

/// The text a piece sequence renders to before control characters are
/// dropped: literal characters as they are, a slot as the value at its index
/// (nothing when there is no value at that index).
pub open spec fn render_pieces(ps: Seq<Piece>, values: Seq<Seq<char>>) -> Seq<char>
    decreases ps.len(),
{
    if ps.len() == 0 {
        seq![]
    } else {
        render_pieces(ps.drop_last(), values) + match ps.last() {
            Piece::Char(c) => seq![c],
            Piece::Slot(k) => if k < values.len() {
                values[k as int]
            } else {
                seq![]
            },
        }
    }
}

/// Whether a character survives rendering (newline, carriage return and tab
/// are stripped).
pub open spec fn is_visible(c: char) -> bool {
    c != '\n' && c != '\r' && c != '\t'
}

/// `s` without the characters that rendering strips.
pub open spec fn visible(s: Seq<char>) -> Seq<char> {
    s.filter(|c: char| is_visible(c))
}

/// `keys` joined by `sep` (as `[&str]::join`).
pub open spec fn join(keys: Seq<Seq<char>>, sep: Seq<char>) -> Seq<char>
    decreases keys.len(),
{
    if keys.len() == 0 {
        seq![]
    } else if keys.len() == 1 {
        keys[0]
    } else {
        join(keys.drop_last(), sep) + sep + keys.last()
    }
}

/// Every slot of `ps` names an index below `n`.
pub open spec fn slots_below(ps: Seq<Piece>, n: nat) -> bool {
    forall|i: int| 0 <= i < ps.len() ==> (#[trigger] ps[i] matches Piece::Slot(k) ==> k < n)
}

// ---------------------------------------------------------------------------
// Lemmas
// ---------------------------------------------------------------------------

pub proof fn lemma_next_close_bounds(s: Seq<char>, j: int)
    ensures
        next_close(s, j) >= j,
        j <= s.len() ==> next_close(s, j) <= s.len(),
        next_close(s, j) < s.len() ==> s[next_close(s, j)] == '}',
        forall|k: int| j <= k < next_close(s, j) ==> s[k] != '}',
    decreases s.len() - j,
{
    if j >= s.len() || s[j] == '}' {
    } else {
        lemma_next_close_bounds(s, j + 1);
    }
}

proof fn lemma_last_index_of_bound(keys: Seq<Seq<char>>, key: Seq<char>)
    ensures
        last_index_of(keys, key) matches Some(k) ==> k < keys.len() && keys[k as int] == key,
    decreases keys.len(),
{
    if keys.len() > 0 && keys.last() != key {
        lemma_last_index_of_bound(keys.drop_last(), key);
    }
}

proof fn lemma_prefix_cons(acc: Seq<Piece>, p: Piece, r: Result<Seq<Piece>, TemplateFault>)
    ensures
        prefix_with(acc, cons_piece(p, r)) == prefix_with(acc.push(p), r),
{
    match r {
        Ok(ps) => {
            assert(acc + (seq![p] + ps) =~= acc.push(p) + ps);
        },
        Err(e) => {},
    }
}

proof fn lemma_render_concat(a: Seq<Piece>, b: Seq<Piece>, values: Seq<Seq<char>>)
    ensures
        render_pieces(a + b, values) == render_pieces(a, values) + render_pieces(b, values),
    decreases b.len(),
{
    if b.len() == 0 {
        assert(a + b =~= a);
        assert(render_pieces(a, values) + render_pieces(b, values) =~= render_pieces(a, values));
    } else {
        assert((a + b).drop_last() =~= a + b.drop_last());
        assert((a + b).last() == b.last());
        lemma_render_concat(a, b.drop_last(), values);
    }
}

proof fn lemma_render_chars(cs: Seq<char>, values: Seq<Seq<char>>)
    ensures
        render_pieces(chars_to_pieces(cs), values) == cs,
    decreases cs.len(),
{
    if cs.len() > 0 {
        let a = chars_to_pieces(cs);
        assert(a.len() == cs.len());
        assert(a.drop_last() =~= chars_to_pieces(cs.drop_last()));
        lemma_render_chars(cs.drop_last(), values);
        assert(cs.drop_last() + seq![cs.last()] =~= cs);
    } else {
        assert(render_pieces(chars_to_pieces(cs), values) =~= cs);
    }
}

proof fn lemma_pieces_slots(s: Seq<char>, i: int, keys: Seq<Seq<char>>)
    ensures
        pieces_from(s, i, keys) matches Ok(ps) ==> slots_below(ps, keys.len()),
    decreases s.len() - i,
{
    if i < 0 || i >= s.len() {
    } else if s[i] == '{' {
        if i + 1 < s.len() && s[i + 1] == '{' {
            lemma_pieces_slots(s, i + 2, keys);
            lemma_cons_slots(Piece::Char('{'), pieces_from(s, i + 2, keys), keys.len());
        } else {
            let j = next_close(s, i + 1);
            lemma_next_close_bounds(s, i + 1);
            if j < s.len() {
                let key = trim(s.subrange(i + 1, j));
                lemma_last_index_of_bound(keys, key);
                match last_index_of(keys, key) {
                    None => {},
                    Some(k) => {
                        lemma_pieces_slots(s, j + 1, keys);
                        lemma_cons_slots(Piece::Slot(k), pieces_from(s, j + 1, keys), keys.len());
                    },
                }
            }
        }
    } else if s[i] == '}' {
        if i + 1 < s.len() && s[i + 1] == '}' {
            lemma_pieces_slots(s, i + 2, keys);
            lemma_cons_slots(Piece::Char('}'), pieces_from(s, i + 2, keys), keys.len());
        }
    } else {
        lemma_pieces_slots(s, i + 1, keys);
        lemma_cons_slots(Piece::Char(s[i]), pieces_from(s, i + 1, keys), keys.len());
    }
}

proof fn lemma_cons_slots(p: Piece, r: Result<Seq<Piece>, TemplateFault>, n: nat)
    requires
        r matches Ok(ps) ==> slots_below(ps, n),
        p matches Piece::Slot(k) ==> k < n,
    ensures
        cons_piece(p, r) matches Ok(ps) ==> slots_below(ps, n),
{
    match r {
        Ok(ps) => {
            let qs = seq![p] + ps;
            assert forall|i: int| 0 <= i < qs.len() implies (#[trigger] qs[i] matches Piece::Slot(
                k,
            ) ==> k < n) by {
                if i > 0 {
                    assert(qs[i] == ps[i - 1]);
                }
            }
        },
        Err(_) => {},
    }
}

// ---------------------------------------------------------------------------
// Laws
// ---------------------------------------------------------------------------

/// Text with no braces parses, whatever the allowed keys, into exactly its own
/// characters; rendering it gives the text back (less the stripped control
/// characters), whatever the values.
pub proof fn law_plain_text_round_trips(s: Seq<char>, keys: Seq<Seq<char>>, values: Seq<Seq<char>>)
    requires
        forall|i: int| 0 <= i < s.len() ==> s[i] != '{' && s[i] != '}',
    ensures
        parse_spec(s, keys) == Ok::<Seq<Piece>, TemplateFault>(chars_to_pieces(s)),
        render_pieces(chars_to_pieces(s), values) == s,
{
    lemma_plain_pieces(s, 0, keys);
    assert(s.subrange(0, s.len() as int) =~= s);
    lemma_render_chars(s, values);
}

proof fn lemma_plain_pieces(s: Seq<char>, i: int, keys: Seq<Seq<char>>)
    requires
        0 <= i <= s.len(),
        forall|k: int| 0 <= k < s.len() ==> s[k] != '{' && s[k] != '}',
    ensures
        pieces_from(s, i, keys) == Ok::<Seq<Piece>, TemplateFault>(
            chars_to_pieces(s.subrange(i, s.len() as int)),
        ),
    decreases s.len() - i,
{
    if i < s.len() {
        lemma_plain_pieces(s, i + 1, keys);
        assert(seq![char_piece(s[i])] + chars_to_pieces(s.subrange(i + 1, s.len() as int))
            =~= chars_to_pieces(s.subrange(i, s.len() as int)));
    } else {
        assert(chars_to_pieces(s.subrange(i, s.len() as int)) =~= Seq::<Piece>::empty());
    }
}

/// Rendering never yields a line break, carriage return or tab: whatever
/// the template and the values, every character of the output is visible.
pub proof fn law_rendered_text_has_no_line_breaks(ps: Seq<Piece>, values: Seq<Seq<char>>)
    ensures
        forall|i: int|
            0 <= i < visible(render_pieces(ps, values)).len() ==> is_visible(
                #[trigger] visible(render_pieces(ps, values))[i],
            ),
{
    let out = render_pieces(ps, values);
    assert forall|i: int| 0 <= i < visible(out).len() implies is_visible(#[trigger] visible(out)[i]) by {
        out.lemma_filter_pred(|c: char| is_visible(c), i);
    }
}

/// Every slot of a successfully parsed template names one of the allowed keys.
pub proof fn law_slots_name_allowed_keys(s: Seq<char>, keys: Seq<Seq<char>>)
    ensures
        parse_spec(s, keys) matches Ok(ps) ==> slots_below(ps, keys.len()),
{
    lemma_pieces_slots(s, 0, keys);
}

/// Rendering goes piece by piece: the text of two templates one after the
/// other is the text of the first followed by the text of the second.
pub proof fn law_rendering_is_piecewise(a: Seq<Piece>, b: Seq<Piece>, values: Seq<Seq<char>>)
    ensures
        render_pieces(a + b, values) == render_pieces(a, values) + render_pieces(b, values),
{
    lemma_render_concat(a, b, values);
}

proof fn lemma_last_index_found(keys: Seq<Seq<char>>, key: Seq<char>, k: int)
    requires
        0 <= k < keys.len(),
        keys[k] == key,
        forall|j: int| k < j < keys.len() ==> keys[j] != key,
    ensures
        last_index_of(keys, key) == Some(k as nat),
    decreases keys.len(),
{
    if keys.len() - 1 != k {
        assert(keys.last() == keys[keys.len() - 1]);
        assert forall|j: int| k < j < keys.drop_last().len() implies keys.drop_last()[j] != key by {
            assert(keys.drop_last()[j] == keys[j]);
        }
        lemma_last_index_found(keys.drop_last(), key, k);
    }
}

/// A placeholder `{key}` stands for the value of that key: it parses to a
/// slot at the key's (last) position among the allowed keys, and renders
/// to the value given for it.
pub proof fn law_placeholder_renders_its_value(key: Seq<char>, keys: Seq<Seq<char>>, k: int, values: Seq<Seq<char>>)
    requires
        0 <= k < keys.len(),
        keys[k] == key,
        forall|j: int| k < j < keys.len() ==> keys[j] != key,
        forall|i: int| 0 <= i < key.len() ==> key[i] != '}' && key[i] != '{',
        trim(key) == key,
    ensures
        parse_spec(seq!['{'] + key + seq!['}'], keys) == Ok::<Seq<Piece>, TemplateFault>(
            seq![Piece::Slot(k as nat)],
        ),
        k < values.len() ==> render_pieces(seq![Piece::Slot(k as nat)], values) == values[k],
{
    let s = seq!['{'] + key + seq!['}'];
    let n = key.len() as int;
    assert(s[0] == '{');
    assert forall|i: int| 1 <= i <= n implies s[i] != '}' by {
        assert(s[i] == key[i - 1]);
    }
    assert(s[n + 1] == '}');
    lemma_next_close_bounds(s, 1);
    assert(next_close(s, 1) == n + 1) by {
        lemma_next_close_reaches(s, 1, n + 1);
    }
    assert(s.subrange(1, n + 1) =~= key);
    lemma_last_index_found(keys, key, k);
    if n == 0 {
        assert(s[1] == '}');
    }
    assert(pieces_from(s, n + 2, keys) == Ok::<Seq<Piece>, TemplateFault>(seq![]));
    assert(s[1] != '{') by {
        if n > 0 {
            assert(s[1] == key[0]);
        }
    }
    assert(trim(s.subrange(1, n + 1)) == key);
    assert(pieces_from(s, 0, keys) == cons_piece(Piece::Slot(k as nat), pieces_from(s, n + 2, keys)));
    assert(seq![Piece::Slot(k as nat)] + seq![] =~= seq![Piece::Slot(k as nat)]);
    let one = seq![Piece::Slot(k as nat)];
    assert(one.drop_last() =~= Seq::<Piece>::empty());
    assert(render_pieces(one.drop_last(), values) == Seq::<char>::empty());
    if k < values.len() {
        assert(render_pieces(one, values) =~= values[k]);
    }
}

proof fn lemma_next_close_reaches(s: Seq<char>, j: int, c: int)
    requires
        j <= c < s.len(),
        s[c] == '}',
        forall|i: int| j <= i < c ==> s[i] != '}',
    ensures
        next_close(s, j) == c,
    decreases c - j,
{
    if j < c {
        lemma_next_close_reaches(s, j + 1, c);
    }
}

/// Braces are written doubled to stand for themselves: `{{` and `}}` parse
/// to a literal `{` and `}`, whatever the allowed keys.
pub proof fn law_doubled_braces_are_literal(keys: Seq<Seq<char>>)
    ensures
        parse_spec(seq!['{', '{', '}', '}'], keys) == Ok::<Seq<Piece>, TemplateFault>(
            seq![Piece::Char('{'), Piece::Char('}')],
        ),
{
    let s = seq!['{', '{', '}', '}'];
    assert(pieces_from(s, 4, keys) == Ok::<Seq<Piece>, TemplateFault>(seq![]));
    assert(pieces_from(s, 2, keys) == Ok::<Seq<Piece>, TemplateFault>(seq![Piece::Char('}')])) by {
        assert(seq![Piece::Char('}')] + seq![] =~= seq![Piece::Char('}')]);
    }
    assert(seq![Piece::Char('{')] + seq![Piece::Char('}')] =~= seq![Piece::Char('{'), Piece::Char('}')]);
}

/// An opening brace that is never closed is refused as unbalanced, and so
/// is a closing brace that opens the template on its own.
pub proof fn law_unbalanced_braces_are_refused(rest: Seq<char>, keys: Seq<Seq<char>>)
    requires
        forall|i: int| 0 <= i < rest.len() ==> rest[i] != '}' && rest[i] != '{',
    ensures
        parse_spec(seq!['{'] + rest, keys) == Err::<Seq<Piece>, TemplateFault>(TemplateFault::UnbalancedOpen),
        parse_spec(seq!['}'] + rest, keys) == Err::<Seq<Piece>, TemplateFault>(TemplateFault::UnbalancedClose),
{
    let s = seq!['{'] + rest;
    assert(s[0] == '{');
    assert forall|i: int| 1 <= i < s.len() implies s[i] != '}' by {
        assert(s[i] == rest[i - 1]);
    }
    if rest.len() > 0 {
        assert(s[1] == rest[0]);
    }
    lemma_next_close_bounds(s, 1);
    let t = seq!['}'] + rest;
    assert(t[0] == '}');
    if rest.len() > 0 {
        assert(t[1] == rest[0]);
    }
}

/// Spaces around a placeholder's key are ignored: a key padded with a
/// space on each side reads as the key itself (`{ state }` is `{state}`).
pub proof fn law_padded_keys_read_as_the_key(k: Seq<char>)
    requires
        k.len() > 0,
        !is_white_space(k[0]),
        !is_white_space(k.last()),
    ensures
        trim(seq![' '] + k + seq![' ']) == k,
        trim(k) == k,
{
    let s = seq![' '] + k + seq![' '];
    let t = k + seq![' '];
    assert(s[0] == ' ');
    assert(is_white_space(' '));
    assert(s.drop_first() =~= t);
    assert(t[0] == k[0]);
    assert(trim_start(t) == t);
    assert(trim_start(s) == t);
    assert(t.last() == ' ');
    assert(t.drop_last() =~= k);
    assert(trim_end(k) == k);
    assert(trim_end(t) == k);
    assert(trim_start(k) == k);
}

// ---------------------------------------------------------------------------
// Implementation
// ---------------------------------------------------------------------------

/// One piece of a parsed [`Template`].
#[derive(Clone, Debug, PartialEq)]
enum Segment {
    Literal(String),
    Placeholder(usize),
}

spec fn segment_pieces(seg: Segment) -> Seq<Piece> {
    match seg {
        Segment::Literal(s) => chars_to_pieces(s@),
        Segment::Placeholder(k) => seq![slot_piece(k as nat)],
    }
}

spec fn pieces_of(segs: Seq<Segment>) -> Seq<Piece>
    decreases segs.len(),
{
    if segs.len() == 0 {
        seq![]
    } else {
        pieces_of(segs.drop_last()) + segment_pieces(segs.last())
    }
}

proof fn lemma_pieces_of_push(segs: Seq<Segment>, seg: Segment)
    ensures
        pieces_of(segs.push(seg)) == pieces_of(segs) + segment_pieces(seg),
{
    assert(segs.push(seg).drop_last() =~= segs);
}

/// Literal text is kept in maximal runs: no literal segment is empty, and
/// a literal is always followed by a placeholder (or ends the list).
spec fn segments_merged(segs: Seq<Segment>) -> bool {
    forall|k: int|
        0 <= k < segs.len() ==> (#[trigger] segs[k] matches Segment::Literal(t) ==> t@.len() > 0 && (
        k + 1 < segs.len() ==> segs[k + 1] is Placeholder))
}

/// A parsed, reusable format template.
#[derive(Clone, Debug, PartialEq)]
pub struct Template {
    segments: Vec<Segment>,
}

impl Template {
    /// The template keeps its text in maximal literal runs: no literal
    /// segment is empty and no two literal segments are adjacent (adjacent
    /// text is one literal).
    pub closed spec fn literals_merged(&self) -> bool {
        segments_merged(self.segments@)
    }
}

impl View for Template {
    type V = Seq<Piece>;

    closed spec fn view(&self) -> Seq<Piece> {
        pieces_of(self.segments@)
    }
}

/// Why [`Template::parse`] rejected a template. Each variant carries the
/// allowed keys joined by `", "`, for the message.
#[derive(Clone, Debug, PartialEq)]
pub enum TemplateError {
    /// A `{` with no closing `}`.
    UnbalancedOpen { valid_keys: String },
    /// A placeholder naming a key that is not allowed (the key as trimmed).
    UnknownKey { key: String, valid_keys: String },
    /// A `}` with no matching `{`.
    UnbalancedClose { valid_keys: String },
}

/// The message a template error reads as.
pub open spec fn error_message(e: TemplateError) -> Seq<char> {
    match e {
        TemplateError::UnbalancedOpen { valid_keys } =>
            "format template has unbalanced '{' (missing '}'): valid keys are "@ + valid_keys@,
        TemplateError::UnknownKey { key, valid_keys } =>
            "format template references unknown key '{"@ + key@ + "}' (allowed: "@
                + valid_keys@ + ")"@,
        TemplateError::UnbalancedClose { valid_keys } =>
            "format template has unbalanced '}' (no matching '{'): valid keys are "@
                + valid_keys@,
    }
}

/// Whether an error value is the exec form of a specification fault, with
/// `list` as the joined allowed keys.
pub open spec fn error_matches(e: TemplateError, f: TemplateFault, list: Seq<char>) -> bool {
    match (e, f) {
        (TemplateError::UnbalancedOpen { valid_keys }, TemplateFault::UnbalancedOpen) =>
            valid_keys@ == list,
        (TemplateError::UnknownKey { key, valid_keys }, TemplateFault::UnknownKey(k)) =>
            key@ == k && valid_keys@ == list,
        (TemplateError::UnbalancedClose { valid_keys }, TemplateFault::UnbalancedClose) =>
            valid_keys@ == list,
        _ => false,
    }
}

impl TemplateError {
    /// The human-readable message, naming the offending key where there is one
    /// and listing the valid keys.
    pub fn to_string(&self) -> (msg: String)
        ensures
            msg@ == error_message(*self),
    {
        let mut msg = String::new();
        match self {
            TemplateError::UnbalancedOpen { valid_keys } => {
                msg.append("format template has unbalanced '{' (missing '}'): valid keys are ");
                msg.append(valid_keys.as_str());
            },
            TemplateError::UnknownKey { key, valid_keys } => {
                msg.append("format template references unknown key '{");
                msg.append(key.as_str());
                msg.append("}' (allowed: ");
                msg.append(valid_keys.as_str());
                msg.append(")");
            },
            TemplateError::UnbalancedClose { valid_keys } => {
                msg.append("format template has unbalanced '}' (no matching '{'): valid keys are ");
                msg.append(valid_keys.as_str());
            },
        }
        msg
    }
}

/// Whether `c` is Unicode white space (`char::is_whitespace`).
fn is_white_space_char(c: char) -> (b: bool)
    ensures
        b == is_white_space(c),
{
    let u = c as u32;
    (0x9 <= u && u <= 0xD) || u == 0x20 || u == 0x85 || u == 0xA0 || u == 0x1680 || (0x2000 <= u
        && u <= 0x200A) || u == 0x2028 || u == 0x2029 || u == 0x202F || u == 0x205F || u == 0x3000
}

/// The characters of `s[lo..hi]` with surrounding white space removed.
fn trimmed(s: &Vec<char>, lo: usize, hi: usize) -> (r: Vec<char>)
    requires
        lo <= hi <= s@.len(),
    ensures
        r@ == trim(s@.subrange(lo as int, hi as int)),
{
    let mut a = lo;
    while a < hi && is_white_space_char(s[a])
        invariant
            lo <= a <= hi <= s@.len(),
            trim_start(s@.subrange(lo as int, hi as int)) == trim_start(
                s@.subrange(a as int, hi as int),
            ),
        decreases hi - a,
    {
        assert(s@.subrange(a as int, hi as int).drop_first() =~= s@.subrange(
            a as int + 1,
            hi as int,
        ));
        a += 1;
    }
    let mut b = hi;
    while b > a && is_white_space_char(s[b - 1])
        invariant
            lo <= a <= b <= hi <= s@.len(),
            trim_end(s@.subrange(a as int, hi as int)) == trim_end(
                s@.subrange(a as int, b as int),
            ),
        decreases b - a,
    {
        assert(s@.subrange(a as int, b as int).drop_last() =~= s@.subrange(
            a as int,
            b as int - 1,
        ));
        b -= 1;
    }
    let mut r: Vec<char> = Vec::new();
    let mut k = a;
    while k < b
        invariant
            a <= k <= b <= s@.len(),
            r@ == s@.subrange(a as int, k as int),
        decreases b - k,
    {
        r.push(s[k]);
        proof {
            assert(s@.subrange(a as int, k as int + 1) =~= s@.subrange(a as int, k as int).push(
                s@[k as int],
            ));
        }
        k += 1;
    }
    r
}

/// The last position of `key` among `keys`, if any.
fn find_key(keys: &Vec<Vec<char>>, key: &Vec<char>) -> (r: Option<usize>)
    ensures
        match (r, last_index_of(vecs_view(keys@), key@)) {
            (Some(a), Some(b)) => a as nat == b,
            (None, None) => true,
            _ => false,
        },
{
    let ghost kv = vecs_view(keys@);
    let mut found: Option<usize> = None;
    let n = keys.len();
    let mut i: usize = 0;
    while i < n
        invariant
            n == keys@.len(),
            kv == vecs_view(keys@),
            i <= n,
            match (found, last_index_of(kv.take(i as int), key@)) {
                (Some(a), Some(b)) => a as nat == b,
                (None, None) => true,
                _ => false,
            },
        decreases n - i,
    {
        proof {
            assert(kv.take(i as int + 1).drop_last() =~= kv.take(i as int));
            assert(kv.take(i as int + 1).last() == keys@[i as int]@);
        }
        if chars_eq(keys[i].as_slice(), key.as_slice()) {
            found = Some(i);
        }
        i += 1;
    }
    proof {
        assert(kv.take(n as int) =~= kv);
    }
    found
}

/// The allowed keys joined by `", "`.
fn join_keys(keys: &Vec<Vec<char>>) -> (r: String)
    ensures
        r@ == join(vecs_view(keys@), ", "@),
{
    let ghost kv = vecs_view(keys@);
    let mut r = String::new();
    let n = keys.len();
    let mut i: usize = 0;
    while i < n
        invariant
            n == keys@.len(),
            kv == vecs_view(keys@),
            i <= n,
            r@ == join(kv.take(i as int), ", "@),
        decreases n - i,
    {
        proof {
            assert(kv.take(i as int + 1).drop_last() =~= kv.take(i as int));
        }
        if i > 0 {
            r.append(", ");
        }
        let ghost before = r@;
        let mut k: usize = 0;
        let m = keys[i].len();
        while k < m
            invariant
                i < n,
                n == keys@.len(),
                m == keys@[i as int]@.len(),
                k <= m,
                r@ == before + keys@[i as int]@.take(k as int),
            decreases m - k,
        {
            push_char(&mut r, keys[i][k]);
            proof {
                assert(keys@[i as int]@.take(k as int + 1) =~= keys@[i as int]@.take(
                    k as int,
                ).push(keys@[i as int]@[k as int]));
            }
            k += 1;
        }
        proof {
            assert(keys@[i as int]@.take(m as int) =~= keys@[i as int]@);
            if i == 0 {
                assert(r@ =~= join(kv.take(1), ", "@));
            }
        }
        i += 1;
    }
    proof {
        assert(kv.take(n as int) =~= kv);
    }
    r
}

impl Template {
    /// Parse `input`, allowing only the keys listed in `allowed`.
    ///
    /// Errors (unknown key, unbalanced brace) list the valid keys. The first
    /// fault in reading order is the one reported.
    pub fn parse(input: &str, allowed: &[&str]) -> (r: Result<Template, TemplateError>)
        ensures
            match (r, parse_spec(input@, keys_view(allowed@))) {
                (Ok(t), Ok(ps)) => t@ == ps,
                (Err(e), Err(f)) => error_matches(e, f, join(keys_view(allowed@), ", "@)),
                _ => false,
            },
            r matches Ok(t) ==> slots_below(t@, allowed@.len()),
            r matches Ok(t) ==> t.literals_merged(),
    {
        let s = chars_of(input);
        let ghost sv = input@;
        let ghost kv = keys_view(allowed@);
        let mut keys: Vec<Vec<char>> = Vec::new();
        let na = allowed.len();
        let mut q: usize = 0;
        while q < na
            invariant
                na == allowed@.len(),
                q <= na,
                keys@.len() == q,
                forall|t: int| 0 <= t < q ==> #[trigger] keys@[t]@ == allowed@[t]@,
            decreases na - q,
        {
            keys.push(chars_of(allowed[q]));
            q += 1;
        }
        proof {
            assert(vecs_view(keys@) =~= kv);
            lemma_pieces_slots(sv, 0, kv);
        }
        let n = s.len();
        let mut segments: Vec<Segment> = Vec::new();
        let mut buf: Vec<char> = Vec::new();
        let mut i: usize = 0;
        while i < n
            invariant
                s@ == sv,
                sv == input@,
                kv == keys_view(allowed@),
                n == sv.len(),
                i <= n,
                vecs_view(keys@) == kv,
                parse_spec(sv, kv) == prefix_with(
                    pieces_of(segments@) + chars_to_pieces(buf@),
                    pieces_from(sv, i as int, kv),
                ),
                segments_merged(segments@),
                segments@.len() > 0 ==> segments@.last() is Placeholder,
            decreases n - i,
        {
            let ghost acc = pieces_of(segments@) + chars_to_pieces(buf@);
            let c = s[i];
            if c == '{' {
                if i + 1 < n && s[i + 1] == '{' {
                    proof {
                        lemma_prefix_cons(acc, Piece::Char('{'), pieces_from(sv, i + 2, kv));
                        assert(chars_to_pieces(buf@.push('{')) =~= chars_to_pieces(buf@).push(
                            char_piece('{'),
                        ));
                    }
                    buf.push('{');
                    i += 2;
                    continue ;
                }
                let start = i + 1;
                let mut j = start;
                while j < n && s[j] != '}'
                    invariant
                        s@ == sv,
                        n == sv.len(),
                        start <= j <= n,
                        next_close(sv, start as int) == next_close(sv, j as int),
                    decreases n - j,
                {
                    j += 1;
                }
                if j >= n {
                    proof {
                        assert(next_close(sv, j as int) == j);
                        assert(pieces_from(sv, i as int, kv) == Err::<Seq<Piece>, TemplateFault>(TemplateFault::UnbalancedOpen));
                    }
                    return Err(TemplateError::UnbalancedOpen { valid_keys: join_keys(&keys) });
                }
                let key = trimmed(&s, start, j);
                match find_key(&keys, &key) {
                    None => {
                        proof {
                            lemma_next_close_bounds(sv, start as int);
                            assert(pieces_from(sv, i as int, kv) == Err::<Seq<Piece>, TemplateFault>(TemplateFault::UnknownKey(key@)));
                        }
                        let list = join_keys(&keys);
                        let key_string = crate::text::string_from_chars(key.as_slice());
                        return Err(TemplateError::UnknownKey { key: key_string, valid_keys: list });
                    },
                    Some(idx) => {
                        proof {
                            lemma_prefix_cons(
                                acc,
                                Piece::Slot(idx as nat),
                                pieces_from(sv, j + 1, kv),
                            );
                        }
                        if buf.len() > 0 {
                            let lit = crate::text::string_from_chars(buf.as_slice());
                            proof {
                                lemma_pieces_of_push(segments@, Segment::Literal(lit));
                            }
                            segments.push(Segment::Literal(lit));
                            buf = Vec::new();
                        } else {
                            proof {
                                assert(chars_to_pieces(buf@) =~= Seq::<Piece>::empty());
                                assert(pieces_of(segments@) + chars_to_pieces(buf@) =~= pieces_of(
                                    segments@,
                                ));
                            }
                        }
                        proof {
                            lemma_pieces_of_push(segments@, Segment::Placeholder(idx));
                            assert(chars_to_pieces(buf@) =~= Seq::<Piece>::empty());
                            assert(pieces_of(segments@.push(Segment::Placeholder(idx)))
                                + chars_to_pieces(buf@) =~= acc.push(Piece::Slot(idx as nat)));
                        }
                        segments.push(Segment::Placeholder(idx));
                        i = j + 1;
                    },
                }
            } else if c == '}' {
                if i + 1 < n && s[i + 1] == '}' {
                    proof {
                        lemma_prefix_cons(acc, Piece::Char('}'), pieces_from(sv, i + 2, kv));
                        assert(chars_to_pieces(buf@.push('}')) =~= chars_to_pieces(buf@).push(
                            char_piece('}'),
                        ));
                    }
                    buf.push('}');
                    i += 2;
                    continue ;
                }
                proof {
                    assert(pieces_from(sv, i as int, kv) == Err::<Seq<Piece>, TemplateFault>(TemplateFault::UnbalancedClose));
                }
                return Err(TemplateError::UnbalancedClose { valid_keys: join_keys(&keys) });
            } else {
                proof {
                    lemma_prefix_cons(acc, Piece::Char(c), pieces_from(sv, i + 1, kv));
                    assert(chars_to_pieces(buf@.push(c)) =~= chars_to_pieces(buf@).push(
                        char_piece(c),
                    ));
                }
                buf.push(c);
                i += 1;
            }
        }
        if buf.len() > 0 {
            let lit = crate::text::string_from_chars(buf.as_slice());
            proof {
                lemma_pieces_of_push(segments@, Segment::Literal(lit));
            }
            segments.push(Segment::Literal(lit));
        } else {
            proof {
                assert(pieces_of(segments@) + chars_to_pieces(buf@) =~= pieces_of(segments@));
            }
        }
        proof {
            assert(pieces_from(sv, n as int, kv) == Ok::<Seq<Piece>, TemplateFault>(seq![]));
            assert(pieces_of(segments@) + seq![] =~= pieces_of(segments@));
        }
        Ok(Template { segments })
    }

    /// Render the template. `values` is indexed by the placeholder index
    /// assigned during [`parse`](Self::parse) (position in `allowed`); a
    /// placeholder without a value renders as nothing.
    ///
    /// Newlines, carriage returns and tabs in the rendered output are
    /// stripped.
    pub fn render(&self, values: &[&str]) -> (out: String)
        ensures
            out@ == visible(render_pieces(self@, keys_view(values@))),
    {
        let ghost vv = keys_view(values@);
        let mut out = String::new();
        let ns = self.segments.len();
        let mut k: usize = 0;
        while k < ns
            invariant
                ns == self.segments@.len(),
                k <= ns,
                vv == keys_view(values@),
                out@ == visible(render_pieces(pieces_of(self.segments@.take(k as int)), vv)),
            decreases ns - k,
        {
            let cs: Vec<char> = match &self.segments[k] {
                Segment::Literal(text) => chars_of(text.as_str()),
                Segment::Placeholder(idx) => {
                    if *idx < values.len() {
                        chars_of(values[*idx])
                    } else {
                        Vec::new()
                    }
                },
            };
            let ghost base = render_pieces(pieces_of(self.segments@.take(k as int)), vv);
            proof {
                let seg = self.segments@[k as int];
                assert(self.segments@.take(k as int + 1) =~= self.segments@.take(k as int).push(
                    seg,
                ));
                lemma_pieces_of_push(self.segments@.take(k as int), seg);
                lemma_render_concat(
                    pieces_of(self.segments@.take(k as int)),
                    segment_pieces(seg),
                    vv,
                );
                match seg {
                    Segment::Literal(text) => {
                        lemma_render_chars(text@, vv);
                    },
                    Segment::Placeholder(idx) => {
                        let one = seq![slot_piece(idx as nat)];
                        assert(one.drop_last() =~= Seq::<Piece>::empty());
                        assert(one.last() == slot_piece(idx as nat));
                        assert(render_pieces(one.drop_last(), vv) =~= Seq::<char>::empty());
                        if idx < values@.len() {
                            assert(vv[idx as int] == values@[idx as int]@);
                            assert(render_pieces(seq![slot_piece(idx as nat)], vv) =~= cs@);
                        } else {
                            assert(render_pieces(seq![slot_piece(idx as nat)], vv) =~= cs@);
                        }
                    },
                }
                assert(render_pieces(segment_pieces(seg), vv) == cs@);
            }
            let m = cs.len();
            let mut p: usize = 0;
            while p < m
                invariant
                    m == cs@.len(),
                    p <= m,
                    out@ == visible(base + cs@.take(p as int)),
                decreases m - p,
            {
                let ch = cs[p];
                proof {
                    assert(base + cs@.take(p as int + 1) =~= (base + cs@.take(p as int)).push(ch));
                    (base + cs@.take(p as int)).lemma_filter_push(ch, |c: char| is_visible(c));
                }
                if ch != '\n' && ch != '\r' && ch != '\t' {
                    push_char(&mut out, ch);
                }
                p += 1;
            }
            proof {
                assert(cs@.take(m as int) =~= cs@);
            }
            k += 1;
        }
        proof {
            assert(self.segments@.take(ns as int) =~= self.segments@);
        }
        out
    }
}

} // verus!
