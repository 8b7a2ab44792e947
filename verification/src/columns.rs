//! Table column layout: which columns a table shows, in which order, with
//! which headers and widths. The user's configuration can reorder columns,
//! rename headers and override widths (in cells or as a percentage of the
//! table); an empty configuration selects the table's default columns.
//!
//! Percentages are exact fractions here: a width of `p` of a layout `w`
//! cells wide is `floor((w - 3) * p)` cells (three cells of padding), capped
//! at the largest `u16`.

use vstd::prelude::*;

use crate::text::str_eq;

verus! {

// ---------------------------------------------------------------------------
// Types
// ---------------------------------------------------------------------------

/// The tables whose columns can be configured.
#[derive(Debug, Clone, Copy, PartialEq, Eq, Structural)]
pub enum TableColumnSet {
    Songs,
    AlbumTracks,
    Albums,
    Podcasts,
    Episodes,
    RecentlyPlayed,
}

/// The role a column plays in rendering.
#[derive(Debug, Clone, Copy, PartialEq, Eq, Structural)]
pub enum ColumnId {
    Plain,
    Title,
    Liked,
}

/// A configured percentage, in hundredths of a percent (`3000` is 30%).
#[derive(Debug, Clone, Copy, PartialEq, Eq, Structural)]
pub struct Percent {
    pub hundredths: u32,
}

impl Percent {
    /// A whole-number percentage.
    pub fn whole(p: u16) -> (r: Percent)
        ensures
            r.hundredths == p * 100,
    {
        Percent { hundredths: (p as u32) * 100 }
    }
}

/// One configured column.
#[derive(Debug, Clone, PartialEq, Default)]
pub struct ColumnSpec {
    pub id: String,
    pub header: Option<String>,
    pub width_percent: Option<Percent>,
    pub width: Option<u16>,
}

/// How a column's default width is computed: fixed cells, a fraction
/// `num / den` of the table, or such a fraction less some cells.
#[derive(Debug, Clone, Copy, PartialEq, Eq, Structural)]
pub enum WidthSpec {
    Fixed(u16),
    Percent(u32, u32),
    PercentMinus(u32, u32, u16),
}

/// A column a table can show.
#[derive(Debug, Clone, Copy)]
pub struct ColumnDef {
    pub id: &'static str,
    pub header: &'static str,
    pub width: WidthSpec,
    pub column_id: ColumnId,
}

/// A column as it will be drawn.
#[derive(Debug, Clone, PartialEq)]
pub struct ResolvedColumn {
    pub id: String,
    pub header: String,
    pub width: u16,
    pub column_id: ColumnId,
}

// ---------------------------------------------------------------------------
// Widths
// ---------------------------------------------------------------------------

/// The largest `u16`.
pub open spec fn max_cells() -> nat {
    65535
}

/// `num / den` of a layout `w` cells wide, after three cells of padding,
/// rounded down and capped at the largest `u16`.
pub open spec fn percentage_width(w: nat, num: nat, den: nat) -> nat {
    let usable: nat = if w >= 3 {
        (w - 3) as nat
    } else {
        0
    };
    let cells = usable * num / den;
    if cells > max_cells() {
        max_cells()
    } else {
        cells
    }
}

/// The default width of a column in a layout `w` cells wide.
pub open spec fn width_of(w: nat, spec: WidthSpec) -> nat {
    match spec {
        WidthSpec::Fixed(x) => x as nat,
        WidthSpec::Percent(n, d) => percentage_width(w, n as nat, d as nat),
        WidthSpec::PercentMinus(n, d, m) => {
            let p = percentage_width(w, n as nat, d as nat);
            if p >= m {
                (p - m) as nat
            } else {
                0
            }
        },
    }
}

/// The denominators are positive.
pub open spec fn well_formed_width(spec: WidthSpec) -> bool {
    match spec {
        WidthSpec::Fixed(_) => true,
        WidthSpec::Percent(_, d) => d > 0,
        WidthSpec::PercentMinus(_, d, _) => d > 0,
    }
}

/// `num / den` of a layout `layout_width` cells wide (see
/// [`percentage_width`]).
pub fn get_percentage_width(layout_width: u16, num: u32, den: u32) -> (r: u16)
    requires
        den > 0,
    ensures
        r == percentage_width(layout_width as nat, num as nat, den as nat),
{
    let usable: u64 = if layout_width >= 3 {
        (layout_width - 3) as u64
    } else {
        0
    };
    assert(usable * (num as u64) <= 0xffff_ffff_ffff_ffff) by (nonlinear_arith)
        requires
            usable <= 65535,
            num <= 0xffff_ffff,
    ;
    let cells = usable * (num as u64) / (den as u64);
    if cells > 65535 {
        65535
    } else {
        cells as u16
    }
}

/// The default width of a column in a layout `layout_width` cells wide.
fn resolve_width(layout_width: u16, spec: WidthSpec) -> (r: u16)
    requires
        well_formed_width(spec),
    ensures
        r == width_of(layout_width as nat, spec),
{
    match spec {
        WidthSpec::Fixed(width) => width,
        WidthSpec::Percent(n, d) => get_percentage_width(layout_width, n, d),
        WidthSpec::PercentMinus(n, d, minus) => {
            let p = get_percentage_width(layout_width, n, d);
            if p >= minus {
                p - minus
            } else {
                0
            }
        },
    }
}

// ---------------------------------------------------------------------------
// Column catalogue
// ---------------------------------------------------------------------------

/// The liked-marker column.
pub open spec fn liked_def() -> ColumnDef {
    ColumnDef { id: "liked", header: "", width: WidthSpec::Fixed(2), column_id: ColumnId::Liked }
}

/// The track-number column.
pub open spec fn index_def() -> ColumnDef {
    ColumnDef { id: "index", header: "#", width: WidthSpec::Fixed(3), column_id: ColumnId::Plain }
}

/// The title column, with its width and header.
pub open spec fn title_def(width: WidthSpec, header: &'static str) -> ColumnDef {
    ColumnDef { id: "title", header, width, column_id: ColumnId::Title }
}

/// The artist column, with its width.
pub open spec fn artist_def(width: WidthSpec) -> ColumnDef {
    ColumnDef { id: "artist", header: "Artist", width, column_id: ColumnId::Plain }
}

/// The album column, with its width.
pub open spec fn album_def(width: WidthSpec) -> ColumnDef {
    ColumnDef { id: "album", header: "Album", width, column_id: ColumnId::Plain }
}

/// The length column, with its width and header.
pub open spec fn length_def(width: WidthSpec, header: &'static str) -> ColumnDef {
    ColumnDef { id: "length", header, width, column_id: ColumnId::Plain }
}

/// The liked-marker column.
fn liked_column() -> (c: ColumnDef)
    ensures
        c == liked_def(),
{
    ColumnDef { id: "liked", header: "", width: WidthSpec::Fixed(2), column_id: ColumnId::Liked }
}

/// The track-number column.
fn index_column() -> (c: ColumnDef)
    ensures
        c == index_def(),
{
    ColumnDef { id: "index", header: "#", width: WidthSpec::Fixed(3), column_id: ColumnId::Plain }
}

/// The title column.
fn title_column(width: WidthSpec, header: &'static str) -> (c: ColumnDef)
    ensures
        c == title_def(width, header),
{
    ColumnDef { id: "title", header, width, column_id: ColumnId::Title }
}

/// The artist column.
fn artist_column(width: WidthSpec) -> (c: ColumnDef)
    ensures
        c == artist_def(width),
{
    ColumnDef { id: "artist", header: "Artist", width, column_id: ColumnId::Plain }
}

/// The album column.
fn album_column(width: WidthSpec) -> (c: ColumnDef)
    ensures
        c == album_def(width),
{
    ColumnDef { id: "album", header: "Album", width, column_id: ColumnId::Plain }
}

/// The length column.
fn length_column(width: WidthSpec, header: &'static str) -> (c: ColumnDef)
    ensures
        c == length_def(width, header),
{
    ColumnDef { id: "length", header, width, column_id: ColumnId::Plain }
}

/// The columns each table can show, in catalogue order.
pub open spec fn defs_of(table: TableColumnSet) -> Seq<ColumnDef> {
    match table {
        TableColumnSet::Songs => seq![
            liked_def(),
            index_def(),
            title_def(WidthSpec::Percent(3, 10), "Title"),
            artist_def(WidthSpec::Percent(3, 10)),
            album_def(WidthSpec::Percent(3, 10)),
            length_def(WidthSpec::Percent(1, 10), "Length"),
        ],
        TableColumnSet::AlbumTracks => seq![
            liked_def(),
            index_def(),
            title_def(WidthSpec::PercentMinus(2, 5, 5), "Title"),
            artist_def(WidthSpec::Percent(2, 5)),
            album_def(WidthSpec::Percent(3, 10)),
            length_def(WidthSpec::Percent(1, 5), "Length"),
        ],
        TableColumnSet::Albums => seq![
            title_def(WidthSpec::Percent(2, 5), "Name"),
            artist_def(WidthSpec::Percent(2, 5)),
            ColumnDef {
                id: "date",
                header: "Release Date",
                width: WidthSpec::Percent(1, 5),
                column_id: ColumnId::Plain,
            },
            liked_def(),
        ],
        TableColumnSet::Podcasts => seq![
            title_def(WidthSpec::Percent(2, 5), "Name"),
            ColumnDef {
                id: "publisher",
                header: "Publisher(s)",
                width: WidthSpec::Percent(2, 5),
                column_id: ColumnId::Plain,
            },
        ],
        TableColumnSet::Episodes => seq![
            ColumnDef { id: "played", header: "", width: WidthSpec::Fixed(2), column_id: ColumnId::Plain },
            ColumnDef {
                id: "date",
                header: "Date",
                width: WidthSpec::PercentMinus(1, 10, 2),
                column_id: ColumnId::Plain,
            },
            title_def(WidthSpec::Percent(7, 10), "Name"),
            ColumnDef {
                id: "duration",
                header: "Duration",
                width: WidthSpec::Percent(1, 5),
                column_id: ColumnId::Plain,
            },
        ],
        TableColumnSet::RecentlyPlayed => seq![
            liked_def(),
            index_def(),
            title_def(WidthSpec::PercentMinus(2, 5, 2), "Title"),
            artist_def(WidthSpec::Percent(2, 5)),
            album_def(WidthSpec::Percent(3, 10)),
            length_def(WidthSpec::Percent(1, 5), "Length"),
        ],
    }
}

/// The columns a table can show.
fn column_defs(table: TableColumnSet) -> (r: Vec<ColumnDef>)
    ensures
        r@ == defs_of(table),
{
    let mut v: Vec<ColumnDef> = Vec::new();
    match table {
        TableColumnSet::Songs => {
            v.push(liked_column());
            v.push(index_column());
            v.push(title_column(WidthSpec::Percent(3, 10), "Title"));
            v.push(artist_column(WidthSpec::Percent(3, 10)));
            v.push(album_column(WidthSpec::Percent(3, 10)));
            v.push(length_column(WidthSpec::Percent(1, 10), "Length"));
        },
        TableColumnSet::AlbumTracks => {
            v.push(liked_column());
            v.push(index_column());
            v.push(title_column(WidthSpec::PercentMinus(2, 5, 5), "Title"));
            v.push(artist_column(WidthSpec::Percent(2, 5)));
            v.push(album_column(WidthSpec::Percent(3, 10)));
            v.push(length_column(WidthSpec::Percent(1, 5), "Length"));
        },
        TableColumnSet::Albums => {
            v.push(title_column(WidthSpec::Percent(2, 5), "Name"));
            v.push(artist_column(WidthSpec::Percent(2, 5)));
            v.push(
                ColumnDef {
                    id: "date",
                    header: "Release Date",
                    width: WidthSpec::Percent(1, 5),
                    column_id: ColumnId::Plain,
                },
            );
            v.push(liked_column());
        },
        TableColumnSet::Podcasts => {
            v.push(title_column(WidthSpec::Percent(2, 5), "Name"));
            v.push(
                ColumnDef {
                    id: "publisher",
                    header: "Publisher(s)",
                    width: WidthSpec::Percent(2, 5),
                    column_id: ColumnId::Plain,
                },
            );
        },
        TableColumnSet::Episodes => {
            v.push(
                ColumnDef {
                    id: "played",
                    header: "",
                    width: WidthSpec::Fixed(2),
                    column_id: ColumnId::Plain,
                },
            );
            v.push(
                ColumnDef {
                    id: "date",
                    header: "Date",
                    width: WidthSpec::PercentMinus(1, 10, 2),
                    column_id: ColumnId::Plain,
                },
            );
            v.push(title_column(WidthSpec::Percent(7, 10), "Name"));
            v.push(
                ColumnDef {
                    id: "duration",
                    header: "Duration",
                    width: WidthSpec::Percent(1, 5),
                    column_id: ColumnId::Plain,
                },
            );
        },
        TableColumnSet::RecentlyPlayed => {
            v.push(liked_column());
            v.push(index_column());
            v.push(title_column(WidthSpec::PercentMinus(2, 5, 2), "Title"));
            v.push(artist_column(WidthSpec::Percent(2, 5)));
            v.push(album_column(WidthSpec::Percent(3, 10)));
            v.push(length_column(WidthSpec::Percent(1, 5), "Length"));
        },
    }
    assert(v@ =~= defs_of(table));
    v
}

/// Every catalogued width has a positive denominator.
proof fn lemma_defs_well_formed(table: TableColumnSet)
    ensures
        forall|i: int| 0 <= i < defs_of(table).len() ==> well_formed_width(#[trigger] defs_of(table)[i].width),
{
}

/// The first column of `defs` with id `id`.
pub open spec fn find_def(defs: Seq<ColumnDef>, id: Seq<char>) -> Option<ColumnDef>
    decreases defs.len(),
{
    if defs.len() == 0 {
        None
    } else if defs[0].id@ == id {
        Some(defs[0])
    } else {
        find_def(defs.drop_first(), id)
    }
}

proof fn lemma_find_def_in(defs: Seq<ColumnDef>, id: Seq<char>)
    ensures
        find_def(defs, id) matches Some(d) ==> exists|i: int| 0 <= i < defs.len() && defs[i] == d,
    decreases defs.len(),
{
    if defs.len() > 0 && defs[0].id@ != id {
        lemma_find_def_in(defs.drop_first(), id);
        if let Some(d) = find_def(defs, id) {
            let i = choose|i: int| 0 <= i < defs.drop_first().len() && defs.drop_first()[i] == d;
            assert(defs[i + 1] == d);
        }
    }
}

/// The column of `table` with id `id`, if the table has one.
fn column_def(table: TableColumnSet, id: &str) -> (r: Option<ColumnDef>)
    ensures
        r == find_def(defs_of(table), id@),
        r matches Some(d) ==> well_formed_width(d.width),
{
    let defs = column_defs(table);
    let n = defs.len();
    let mut i: usize = 0;
    assert(defs@.subrange(0, n as int) =~= defs@);
    while i < n
        invariant
            n == defs@.len(),
            defs@ == defs_of(table),
            i <= n,
            find_def(defs@, id@) == find_def(defs@.subrange(i as int, n as int), id@),
        decreases n - i,
    {
        let d = defs[i];
        proof {
            assert(defs@.subrange(i as int, n as int).drop_first() =~= defs@.subrange(
                i as int + 1,
                n as int,
            ));
        }
        if str_eq(d.id, id) {
            proof {
                lemma_defs_well_formed(table);
                assert(defs@[i as int] == d);
            }
            return Some(d);
        }
        i += 1;
    }
    None
}

// ---------------------------------------------------------------------------
// Resolution
// ---------------------------------------------------------------------------

/// What a configured column asks for: its id, header, percentage and width.
pub open spec fn request_of(c: ColumnSpec) -> (Seq<char>, Option<Seq<char>>, Option<Percent>, Option<u16>) {
    (
        c.id@,
        match c.header {
            Some(h) => Some(h@),
            None => None,
        },
        c.width_percent,
        c.width,
    )
}

/// A resolved column as plain values: id, header, width and role.
pub open spec fn resolved_view(r: ResolvedColumn) -> (Seq<char>, Seq<char>, u16, ColumnId) {
    (r.id@, r.header@, r.width, r.column_id)
}

/// The column a request resolves to in `table`, laid out `w` cells wide:
/// nothing for an id the table does not know; else the requested header (or
/// the catalogue's), the requested width in cells, else the requested
/// percentage, else the catalogue's default width.
pub open spec fn resolve_one(
    table: TableColumnSet,
    w: nat,
    req: (Seq<char>, Option<Seq<char>>, Option<Percent>, Option<u16>),
) -> Option<(Seq<char>, Seq<char>, u16, ColumnId)> {
    match find_def(defs_of(table), req.0) {
        Some(d) => Some(
            (
                req.0,
                match req.1 {
                    Some(h) => h,
                    None => d.header@,
                },
                match req.3 {
                    Some(x) => x,
                    None => match req.2 {
                        Some(p) => percentage_width(w, p.hundredths as nat, 10000) as u16,
                        None => width_of(w, d.width) as u16,
                    },
                },
                d.column_id,
            ),
        ),
        None => None,
    }
}

/// The columns the requests resolve to, in request order, dropping unknown
/// ids.
pub open spec fn resolve_all(
    table: TableColumnSet,
    w: nat,
    reqs: Seq<(Seq<char>, Option<Seq<char>>, Option<Percent>, Option<u16>)>,
) -> Seq<(Seq<char>, Seq<char>, u16, ColumnId)>
    decreases reqs.len(),
{
    if reqs.len() == 0 {
        seq![]
    } else {
        let rest = resolve_all(table, w, reqs.drop_last());
        match resolve_one(table, w, reqs.last()) {
            Some(c) => rest.push(c),
            None => rest,
        }
    }
}

/// The default column ids of each table, in display order.
pub open spec fn default_ids(table: TableColumnSet) -> Seq<Seq<char>> {
    match table {
        TableColumnSet::Songs => seq!["liked"@, "title"@, "artist"@, "album"@, "length"@],
        TableColumnSet::AlbumTracks => seq!["liked"@, "index"@, "title"@, "artist"@, "length"@],
        TableColumnSet::Albums => seq!["title"@, "artist"@, "date"@],
        TableColumnSet::Podcasts => seq!["title"@, "publisher"@],
        TableColumnSet::Episodes => seq!["played"@, "date"@, "title"@, "duration"@],
        TableColumnSet::RecentlyPlayed => seq!["liked"@, "title"@, "artist"@, "length"@],
    }
}

/// A bare request for column `id`.
pub open spec fn bare_request(id: Seq<char>) -> (Seq<char>, Option<Seq<char>>, Option<Percent>, Option<u16>) {
    (id, None, None, None)
}

/// The requests a table makes when nothing is configured.
pub open spec fn default_requests(table: TableColumnSet) -> Seq<(Seq<char>, Option<Seq<char>>, Option<Percent>, Option<u16>)> {
    default_ids(table).map_values(|id: Seq<char>| bare_request(id))
}

/// The requests in effect: the configured ones, or the defaults when none
/// are configured.
pub open spec fn requests_in_effect(table: TableColumnSet, configured: Seq<ColumnSpec>) -> Seq<(Seq<char>, Option<Seq<char>>, Option<Percent>, Option<u16>)> {
    if configured.len() == 0 {
        default_requests(table)
    } else {
        configured.map_values(|c: ColumnSpec| request_of(c))
    }
}

/// The default column ids of a table.
fn default_column_ids(table: TableColumnSet) -> (r: Vec<&'static str>)
    ensures
        r@.map_values(|s: &'static str| s@) == default_ids(table),
{
    let mut v: Vec<&'static str> = Vec::new();
    match table {
        TableColumnSet::Songs => {
            v.push("liked");
            v.push("title");
            v.push("artist");
            v.push("album");
            v.push("length");
        },
        TableColumnSet::AlbumTracks => {
            v.push("liked");
            v.push("index");
            v.push("title");
            v.push("artist");
            v.push("length");
        },
        TableColumnSet::Albums => {
            v.push("title");
            v.push("artist");
            v.push("date");
        },
        TableColumnSet::Podcasts => {
            v.push("title");
            v.push("publisher");
        },
        TableColumnSet::Episodes => {
            v.push("played");
            v.push("date");
            v.push("title");
            v.push("duration");
        },
        TableColumnSet::RecentlyPlayed => {
            v.push("liked");
            v.push("title");
            v.push("artist");
            v.push("length");
        },
    }
    assert(v@.map_values(|s: &'static str| s@) =~= default_ids(table));
    v
}

/// The configuration a table uses when nothing is configured: its default
/// columns with nothing overridden.
fn default_specs(table: TableColumnSet) -> (r: Vec<ColumnSpec>)
    ensures
        r@.map_values(|c: ColumnSpec| request_of(c)) == default_requests(table),
{
    let ids = default_column_ids(table);
    let mut r: Vec<ColumnSpec> = Vec::new();
    let n = ids.len();
    let mut i: usize = 0;
    while i < n
        invariant
            n == ids@.len(),
            ids@.map_values(|s: &'static str| s@) == default_ids(table),
            i <= n,
            r@.len() == i,
            r@.map_values(|c: ColumnSpec| request_of(c)) == default_requests(table).take(i as int),
        decreases n - i,
    {
        let id = ids[i];
        let spec = ColumnSpec { id: id.to_owned(), header: None, width_percent: None, width: None };
        let ghost before = r@;
        r.push(spec);
        proof {
            assert(ids@.map_values(|s: &'static str| s@)[i as int] == id@);
            assert(default_requests(table)[i as int] == bare_request(default_ids(table)[i as int]));
            assert(request_of(r@[i as int]) == bare_request(id@));
            assert(r@.drop_last() == before);
            assert(r@.map_values(|c: ColumnSpec| request_of(c)) =~= before.map_values(
                |c: ColumnSpec| request_of(c),
            ).push(request_of(r@[i as int])));
            assert(r@.map_values(|c: ColumnSpec| request_of(c)) =~= default_requests(table).take(
                i as int + 1,
            ));
        }
        i += 1;
    }
    proof {
        assert(default_requests(table).take(n as int) =~= default_requests(table));
    }
    r
}

/// Resolve a table's columns for a layout `layout_width` cells wide, from
/// the configured columns (or the table's defaults when none are
/// configured). Columns the table does not know are left out.
pub fn resolve_columns(
    table: TableColumnSet,
    layout_width: u16,
    configured: &[ColumnSpec],
) -> (r: Vec<ResolvedColumn>)
    ensures
        r@.map_values(|c: ResolvedColumn| resolved_view(c)) == resolve_all(
            table,
            layout_width as nat,
            requests_in_effect(table, configured@),
        ),
{
    let defaults: Vec<ColumnSpec>;
    let specs: &[ColumnSpec] = if configured.len() == 0 {
        defaults = default_specs(table);
        defaults.as_slice()
    } else {
        configured
    };
    let ghost reqs = specs@.map_values(|c: ColumnSpec| request_of(c));
    assert(reqs == requests_in_effect(table, configured@));
    let mut r: Vec<ResolvedColumn> = Vec::new();
    let n = specs.len();
    let mut i: usize = 0;
    while i < n
        invariant
            n == specs@.len(),
            reqs == specs@.map_values(|c: ColumnSpec| request_of(c)),
            i <= n,
            r@.map_values(|c: ResolvedColumn| resolved_view(c)) == resolve_all(
                table,
                layout_width as nat,
                reqs.take(i as int),
            ),
        decreases n - i,
    {
        let spec = &specs[i];
        proof {
            assert(reqs.take(i as int + 1).drop_last() =~= reqs.take(i as int));
            assert(reqs.take(i as int + 1).last() == request_of(specs@[i as int]));
        }
        if let Some(def) = column_def(table, spec.id.as_str()) {
            let header = match &spec.header {
                Some(h) => h.clone(),
                None => def.header.to_owned(),
            };
            let width = match spec.width {
                Some(x) => x,
                None => match spec.width_percent {
                    Some(p) => get_percentage_width(layout_width, p.hundredths, 10000),
                    None => resolve_width(layout_width, def.width),
                },
            };
            r.push(ResolvedColumn { id: spec.id.clone(), header, width, column_id: def.column_id });
            proof {
                assert(r@.map_values(|c: ResolvedColumn| resolved_view(c)) =~= r@.drop_last().map_values(
                    |c: ResolvedColumn| resolved_view(c),
                ).push(resolved_view(r@.last())));
            }
        }
        i += 1;
    }
    proof {
        assert(reqs.take(n as int) =~= reqs);
    }
    r
}

// ---------------------------------------------------------------------------
// Laws
// ---------------------------------------------------------------------------

/// The ids of resolved columns.
pub open spec fn resolved_ids(cols: Seq<(Seq<char>, Seq<char>, u16, ColumnId)>) -> Seq<Seq<char>> {
    cols.map_values(|c: (Seq<char>, Seq<char>, u16, ColumnId)| c.0)
}

/// With nothing configured, a table shows exactly its default columns, in
/// their default order, whatever the layout width.
pub proof fn law_empty_configuration_shows_the_defaults(table: TableColumnSet, w: nat)
    ensures
        resolved_ids(resolve_all(table, w, requests_in_effect(table, seq![]))) == default_ids(table),
{
    lemma_defaults_resolve(table, w);
}

/// `find_def` finds a column whenever one with that id is listed.
proof fn lemma_find_some(defs: Seq<ColumnDef>, id: Seq<char>, k: int)
    requires
        0 <= k < defs.len(),
        defs[k].id@ == id,
    ensures
        find_def(defs, id) is Some,
    decreases k,
{
    if defs[0].id@ != id {
        assert(defs.drop_first()[k - 1] == defs[k]);
        lemma_find_some(defs.drop_first(), id, k - 1);
    }
}

/// Requests for known ids resolve to columns with those ids, in order.
proof fn lemma_known_ids_resolve(
    table: TableColumnSet,
    w: nat,
    reqs: Seq<(Seq<char>, Option<Seq<char>>, Option<Percent>, Option<u16>)>,
)
    requires
        forall|i: int| 0 <= i < reqs.len() ==> (#[trigger] find_def(defs_of(table), reqs[i].0)) is Some,
    ensures
        resolved_ids(resolve_all(table, w, reqs)) == reqs.map_values(
            |r: (Seq<char>, Option<Seq<char>>, Option<Percent>, Option<u16>)| r.0,
        ),
    decreases reqs.len(),
{
    if reqs.len() > 0 {
        let front = reqs.drop_last();
        assert forall|i: int| 0 <= i < front.len() implies (#[trigger] find_def(defs_of(table), front[i].0)) is Some by {
            assert(front[i] == reqs[i]);
        }
        lemma_known_ids_resolve(table, w, front);
        assert(find_def(defs_of(table), reqs[reqs.len() - 1].0) is Some);
        let c = resolve_one(table, w, reqs.last());
        assert(c is Some && (c->0).0 == reqs.last().0);
        assert(resolve_all(table, w, reqs) == resolve_all(table, w, front).push(c->0));
        assert(resolved_ids(resolve_all(table, w, reqs)) =~= resolved_ids(resolve_all(table, w, front)).push(
            reqs.last().0,
        ));
        assert(reqs.map_values(|r: (Seq<char>, Option<Seq<char>>, Option<Percent>, Option<u16>)| r.0)
            =~= front.map_values(|r: (Seq<char>, Option<Seq<char>>, Option<Percent>, Option<u16>)| r.0).push(
            reqs.last().0,
        ));
        assert(resolved_ids(resolve_all(table, w, reqs)) =~= reqs.map_values(
            |r: (Seq<char>, Option<Seq<char>>, Option<Percent>, Option<u16>)| r.0,
        ));
    } else {
        assert(resolved_ids(resolve_all(table, w, reqs)) =~= reqs.map_values(
            |r: (Seq<char>, Option<Seq<char>>, Option<Percent>, Option<u16>)| r.0,
        ));
    }
}

proof fn lemma_defaults_resolve(table: TableColumnSet, w: nat)
    ensures
        resolved_ids(resolve_all(table, w, requests_in_effect(table, seq![]))) == default_ids(table),
{
    match table {
            TableColumnSet::Songs => {
                lemma_find_some(defs_of(table), default_ids(table)[0], 0);
                lemma_find_some(defs_of(table), default_ids(table)[1], 2);
                lemma_find_some(defs_of(table), default_ids(table)[2], 3);
                lemma_find_some(defs_of(table), default_ids(table)[3], 4);
                lemma_find_some(defs_of(table), default_ids(table)[4], 5);
            },
            TableColumnSet::AlbumTracks => {
                lemma_find_some(defs_of(table), default_ids(table)[0], 0);
                lemma_find_some(defs_of(table), default_ids(table)[1], 1);
                lemma_find_some(defs_of(table), default_ids(table)[2], 2);
                lemma_find_some(defs_of(table), default_ids(table)[3], 3);
                lemma_find_some(defs_of(table), default_ids(table)[4], 5);
            },
            TableColumnSet::Albums => {
                lemma_find_some(defs_of(table), default_ids(table)[0], 0);
                lemma_find_some(defs_of(table), default_ids(table)[1], 1);
                lemma_find_some(defs_of(table), default_ids(table)[2], 2);
            },
            TableColumnSet::Podcasts => {
                lemma_find_some(defs_of(table), default_ids(table)[0], 0);
                lemma_find_some(defs_of(table), default_ids(table)[1], 1);
            },
            TableColumnSet::Episodes => {
                lemma_find_some(defs_of(table), default_ids(table)[0], 0);
                lemma_find_some(defs_of(table), default_ids(table)[1], 1);
                lemma_find_some(defs_of(table), default_ids(table)[2], 2);
                lemma_find_some(defs_of(table), default_ids(table)[3], 3);
            },
            TableColumnSet::RecentlyPlayed => {
                lemma_find_some(defs_of(table), default_ids(table)[0], 0);
                lemma_find_some(defs_of(table), default_ids(table)[1], 2);
                lemma_find_some(defs_of(table), default_ids(table)[2], 3);
                lemma_find_some(defs_of(table), default_ids(table)[3], 5);
            },
    }
    let reqs = default_requests(table);
    assert(requests_in_effect(table, seq![]) == reqs);
    assert forall|i: int| 0 <= i < reqs.len() implies (#[trigger] find_def(defs_of(table), reqs[i].0)) is Some by {
        assert(reqs[i].0 == default_ids(table)[i]);
    }
    lemma_known_ids_resolve(table, w, reqs);
    assert(reqs.map_values(|r: (Seq<char>, Option<Seq<char>>, Option<Percent>, Option<u16>)| r.0)
        =~= default_ids(table));
}

/// The headers of resolved columns.
pub open spec fn resolved_headers(cols: Seq<(Seq<char>, Seq<char>, u16, ColumnId)>) -> Seq<Seq<char>> {
    cols.map_values(|c: (Seq<char>, Seq<char>, u16, ColumnId)| c.1)
}

/// With nothing configured, each table shows its stock columns, whatever
/// the layout width: songs show liked, title, artist, album and length;
/// album tracks liked, index, title, artist and length; albums title,
/// artist and release date; podcasts title and publisher; episodes played,
/// date, title and duration; recently played liked, title, artist and
/// length.
pub proof fn law_stock_columns_of_each_table(w: nat)
    ensures
        resolved_ids(resolve_all(TableColumnSet::Songs, w, requests_in_effect(TableColumnSet::Songs, seq![])))
            == seq!["liked"@, "title"@, "artist"@, "album"@, "length"@],
        resolved_ids(
            resolve_all(TableColumnSet::AlbumTracks, w, requests_in_effect(TableColumnSet::AlbumTracks, seq![])),
        ) == seq!["liked"@, "index"@, "title"@, "artist"@, "length"@],
        resolved_ids(resolve_all(TableColumnSet::Albums, w, requests_in_effect(TableColumnSet::Albums, seq![])))
            == seq!["title"@, "artist"@, "date"@],
        resolved_ids(
            resolve_all(TableColumnSet::Podcasts, w, requests_in_effect(TableColumnSet::Podcasts, seq![])),
        ) == seq!["title"@, "publisher"@],
        resolved_ids(
            resolve_all(TableColumnSet::Episodes, w, requests_in_effect(TableColumnSet::Episodes, seq![])),
        ) == seq!["played"@, "date"@, "title"@, "duration"@],
        resolved_ids(
            resolve_all(
                TableColumnSet::RecentlyPlayed,
                w,
                requests_in_effect(TableColumnSet::RecentlyPlayed, seq![]),
            ),
        ) == seq!["liked"@, "title"@, "artist"@, "length"@],
{
    law_empty_configuration_shows_the_defaults(TableColumnSet::Songs, w);
    law_empty_configuration_shows_the_defaults(TableColumnSet::AlbumTracks, w);
    law_empty_configuration_shows_the_defaults(TableColumnSet::Albums, w);
    law_empty_configuration_shows_the_defaults(TableColumnSet::Podcasts, w);
    law_empty_configuration_shows_the_defaults(TableColumnSet::Episodes, w);
    law_empty_configuration_shows_the_defaults(TableColumnSet::RecentlyPlayed, w);
}

/// With nothing configured, the albums table is headed Name, Artist and
/// Release Date.
#[verifier::spinoff_prover]
pub proof fn law_album_table_headers(w: nat)
    ensures
        resolved_headers(resolve_all(TableColumnSet::Albums, w, requests_in_effect(TableColumnSet::Albums, seq![])))
            == seq!["Name"@, "Artist"@, "Release Date"@],
{
    reveal_strlit("title");
    reveal_strlit("artist");
    reveal_strlit("date");
    let defs = defs_of(TableColumnSet::Albums);
    assert(find_def(defs, "title"@) == Some(defs[0]));
    assert(defs.drop_first()[0] == defs[1]);
    assert(find_def(defs.drop_first(), "artist"@) == Some(defs[1]));
    assert("title"@[0] != "artist"@[0]);
    assert(defs[0].id@ != "artist"@);
    assert(find_def(defs, "artist"@) == Some(defs[1]));
    assert(defs.drop_first().drop_first()[0] == defs[2]);
    assert(find_def(defs.drop_first().drop_first(), "date"@) == Some(defs[2]));
    assert("artist"@[0] != "date"@[0]);
    assert("title"@[0] != "date"@[0]);
    assert(defs[1].id@ != "date"@);
    assert(defs[0].id@ != "date"@);
    assert(find_def(defs.drop_first(), "date"@) == Some(defs[2]));
    assert(find_def(defs, "date"@) == Some(defs[2]));
    let reqs = default_requests(TableColumnSet::Albums);
    assert(requests_in_effect(TableColumnSet::Albums, seq![]) == reqs);
    assert(reqs.len() == 3);
    assert(reqs[0] == bare_request("title"@));
    assert(reqs[1] == bare_request("artist"@));
    assert(reqs[2] == bare_request("date"@));
    let r1 = resolve_all(TableColumnSet::Albums, w, reqs.take(1));
    let r2 = resolve_all(TableColumnSet::Albums, w, reqs.take(2));
    let r3 = resolve_all(TableColumnSet::Albums, w, reqs);
    assert(reqs.take(1).drop_last() =~= seq![]);
    assert(reqs.take(2).drop_last() =~= reqs.take(1));
    assert(reqs.drop_last() =~= reqs.take(2));
    assert(reqs.take(1).last() == reqs[0]);
    assert(reqs.take(2).last() == reqs[1]);
    assert(reqs.last() == reqs[2]);
    assert(resolve_all(TableColumnSet::Albums, w, reqs.take(1).drop_last()) == Seq::<(Seq<char>, Seq<char>, u16, ColumnId)>::empty());
    assert(resolve_one(TableColumnSet::Albums, w, reqs[0]) is Some);
    assert(resolve_one(TableColumnSet::Albums, w, reqs[1]) is Some);
    assert(resolve_one(TableColumnSet::Albums, w, reqs[2]) is Some);
    assert(r1 == seq![].push(resolve_one(TableColumnSet::Albums, w, reqs[0])->0));
    assert(r2 == r1.push(resolve_one(TableColumnSet::Albums, w, reqs[1])->0));
    assert(r3 == r2.push(resolve_one(TableColumnSet::Albums, w, reqs[2])->0));
    assert(resolved_headers(r3) =~= seq!["Name"@, "Artist"@, "Release Date"@]);
}

/// A configured column takes the header and width it asks for: its own
/// header over the catalogue's, a width in cells over a percentage, a
/// percentage over the catalogue's default width; the role is always the
/// catalogue's. An id the table does not know gives no column.
pub proof fn law_configuration_overrides_the_catalogue(
    table: TableColumnSet,
    w: nat,
    req: (Seq<char>, Option<Seq<char>>, Option<Percent>, Option<u16>),
)
    ensures
        find_def(defs_of(table), req.0) is None <==> resolve_one(table, w, req) is None,
        find_def(defs_of(table), req.0) matches Some(d) ==> {
            let c = resolve_one(table, w, req)->0;
            &&& c.0 == req.0
            &&& c.1 == (if req.1 is Some { req.1->0 } else { d.header@ })
            &&& req.3 is Some ==> c.2 == req.3->0
            &&& (req.3 is None && req.2 is Some) ==> c.2 == percentage_width(w, req.2->0.hundredths as nat, 10000)
            &&& (req.3 is None && req.2 is None) ==> c.2 == width_of(w, d.width) as u16
            &&& c.3 == d.column_id
        },
{
}

/// Configured columns the table knows are shown in the configured order,
/// one column per entry.
pub proof fn law_known_configured_columns_keep_their_order(
    table: TableColumnSet,
    w: nat,
    configured: Seq<ColumnSpec>,
)
    requires
        configured.len() > 0,
        forall|i: int| 0 <= i < configured.len() ==> (#[trigger] find_def(defs_of(table), configured[i].id@)) is Some,
    ensures
        resolved_ids(resolve_all(table, w, requests_in_effect(table, configured))) == configured.map_values(
            |c: ColumnSpec| c.id@,
        ),
{
    let reqs = requests_in_effect(table, configured);
    assert forall|i: int| 0 <= i < reqs.len() implies (#[trigger] find_def(defs_of(table), reqs[i].0)) is Some by {
        assert(reqs[i].0 == configured[i].id@);
    }
    lemma_known_ids_resolve(table, w, reqs);
    assert(reqs.map_values(|r: (Seq<char>, Option<Seq<char>>, Option<Percent>, Option<u16>)| r.0)
        =~= configured.map_values(|c: ColumnSpec| c.id@));
}

/// A percentage width is that share of the layout after three cells of
/// padding, rounded down: a whole share is the full usable width, no share
/// is nothing, and a larger share or a wider layout is never narrower.
pub proof fn law_percentage_width_is_a_share(w: nat, w2: nat, num: nat, num2: nat, den: nat)
    requires
        den > 0,
        w <= w2,
        num <= num2,
        w2 <= 65535,
    ensures
        percentage_width(w, den, den) == (if w >= 3 { w - 3 } else { 0 }),
        percentage_width(w, 0, den) == 0,
        num <= den ==> percentage_width(w, num, den) <= (if w >= 3 { w - 3 } else { 0 }),
        percentage_width(w, num, den) <= percentage_width(w2, num2, den),
{
    let u: nat = if w >= 3 { (w - 3) as nat } else { 0 };
    let u2: nat = if w2 >= 3 { (w2 - 3) as nat } else { 0 };
    assert(u * den / den == u) by (nonlinear_arith)
        requires
            den > 0,
    ;
    assert(u * 0 / den == 0) by (nonlinear_arith)
        requires
            den > 0,
    ;
    if num <= den {
        assert(u * num / den <= u) by (nonlinear_arith)
            requires
                den > 0,
                num <= den,
        ;
    }
    assert(u <= u2);
    vstd::arithmetic::mul::lemma_mul_upper_bound(u as int, u2 as int, num as int, num2 as int);
    vstd::arithmetic::div_mod::lemma_div_is_ordered((u * num) as int, (u2 * num2) as int, den as int);
}

} // verus!
