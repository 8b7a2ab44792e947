//! Tolerant parsing of string ids/URIs into Spotify ids, through the
//! `rspotify` id types. Parsing never fails loudly: a malformed or
//! wrong-type id yields `None`, and collection parsers drop such entries.
//!
//! The parsed ids are returned as their bare id strings (and, for the
//! ambiguous kinds, tagged with the kind the URI named), which is all the
//! rest of the program reads of them.

use vstd::prelude::*;

use rspotify::model::idtypes::{
    AlbumId, ArtistId, EpisodeId, PlaylistId, ShowId, TrackId, UserId,
};
use rspotify::prelude::Id;

verus! {

// ---------------------------------------------------------------------------
// What the rspotify id types accept
// ---------------------------------------------------------------------------

/// An ASCII letter or digit.
pub open spec fn is_ascii_alnum(c: char) -> bool {
    ('0' <= c && c <= '9') || ('a' <= c && c <= 'z') || ('A' <= c && c <= 'Z')
}

/// An id made only of ASCII letters and digits (the empty id included).
pub open spec fn is_base62_id(s: Seq<char>) -> bool {
    forall|i: int| 0 <= i < s.len() ==> is_ascii_alnum(#[trigger] s[i])
}

/// The kinds of Spotify ids.
#[derive(Clone, Copy, PartialEq, Eq, Structural)]
pub enum IdKind {
    Artist,
    Album,
    Track,
    Playlist,
    User,
    Show,
    Episode,
}

/// The name of a kind, as it stands in a URI.
pub open spec fn kind_name(k: IdKind) -> Seq<char> {
    match k {
        IdKind::Artist => seq!['a', 'r', 't', 'i', 's', 't'],
        IdKind::Album => seq!['a', 'l', 'b', 'u', 'm'],
        IdKind::Track => seq!['t', 'r', 'a', 'c', 'k'],
        IdKind::Playlist => seq!['p', 'l', 'a', 'y', 'l', 'i', 's', 't'],
        IdKind::User => seq!['u', 's', 'e', 'r'],
        IdKind::Show => seq!['s', 'h', 'o', 'w'],
        IdKind::Episode => seq!['e', 'p', 'i', 's', 'o', 'd', 'e'],
    }
}

/// The ids a kind accepts: any string for users, ASCII letters and digits
/// for the others.
pub open spec fn kind_accepts(k: IdKind, id: Seq<char>) -> bool {
    match k {
        IdKind::User => true,
        _ => is_base62_id(id),
    }
}

/// `s` starts with `spotify` followed by `:` or `/`.
pub open spec fn has_uri_prefix(s: Seq<char>) -> bool {
    &&& s.len() > 7
    &&& s.take(7) == seq!['s', 'p', 'o', 't', 'i', 'f', 'y']
    &&& (s[7] == ':' || s[7] == '/')
}

/// The last index at which `c` occurs in `s`.
pub open spec fn last_index_of_char(s: Seq<char>, c: char) -> Option<int>
    decreases s.len(),
{
    if s.len() == 0 {
        None
    } else if s.last() == c {
        Some(s.len() - 1)
    } else {
        last_index_of_char(s.drop_last(), c)
    }
}

/// The type and id parts of a prefixed URI: what follows the separator after
/// `spotify`, split at the last occurrence of that separator.
pub open spec fn uri_parts(s: Seq<char>) -> Option<(Seq<char>, Seq<char>)> {
    let sep = s[7];
    let rest = s.subrange(8, s.len() as int);
    match last_index_of_char(rest, sep) {
        Some(mid) => Some((rest.take(mid), rest.subrange(mid + 1, rest.len() as int))),
        None => None,
    }
}

/// The id in `s` when `s` is a URI of kind `k` (`spotify:{kind}:{id}` or
/// `spotify/{kind}/{id}`) whose id the kind accepts.
pub open spec fn id_from_uri(s: Seq<char>, k: IdKind) -> Option<Seq<char>> {
    if has_uri_prefix(s) {
        match uri_parts(s) {
            Some((t, id)) => if t == kind_name(k) && kind_accepts(k, id) {
                Some(id)
            } else {
                None
            },
            None => None,
        }
    } else {
        None
    }
}

/// The id in `s`, read as a URI of kind `k` when it has a URI prefix and as
/// a bare id otherwise.
pub open spec fn id_from_id_or_uri(s: Seq<char>, k: IdKind) -> Option<Seq<char>> {
    if has_uri_prefix(s) {
        id_from_uri(s, k)
    } else if kind_accepts(k, s) {
        Some(s)
    } else {
        None
    }
}

/// `r` holds exactly the characters that `expected` holds.
pub open spec fn same_id(r: Option<String>, expected: Option<Seq<char>>) -> bool {
    match (r, expected) {
        (Some(x), Some(e)) => x@ == e,
        (None, None) => true,
        _ => false,
    }
}

// ---------------------------------------------------------------------------
// rspotify calls
// ---------------------------------------------------------------------------

/// Trusted wrapper around `TrackId::from_id_or_uri`: rspotify reads a
/// `spotify`-prefixed string as a URI (which must name a track) and anything
/// else as a bare id (ASCII letters and digits); the id is kept as written.
#[verifier::external_body]
fn rspotify_track_id_or_uri(s: &str) -> (r: Option<String>)
    ensures
        same_id(r, id_from_id_or_uri(s@, IdKind::Track)),
{
    TrackId::from_id_or_uri(s).ok().map(|id| id.id().to_string())
}

/// Trusted wrapper around `AlbumId::from_id_or_uri` (as for tracks, with
/// URIs that name an album).
#[verifier::external_body]
fn rspotify_album_id_or_uri(s: &str) -> (r: Option<String>)
    ensures
        same_id(r, id_from_id_or_uri(s@, IdKind::Album)),
{
    AlbumId::from_id_or_uri(s).ok().map(|id| id.id().to_string())
}

/// Trusted wrapper around `ArtistId::from_id_or_uri` (as for tracks, with
/// URIs that name an artist).
#[verifier::external_body]
fn rspotify_artist_id_or_uri(s: &str) -> (r: Option<String>)
    ensures
        same_id(r, id_from_id_or_uri(s@, IdKind::Artist)),
{
    ArtistId::from_id_or_uri(s).ok().map(|id| id.id().to_string())
}

/// Trusted wrapper around `PlaylistId::from_id_or_uri` (as for tracks, with
/// URIs that name a playlist).
#[verifier::external_body]
fn rspotify_playlist_id_or_uri(s: &str) -> (r: Option<String>)
    ensures
        same_id(r, id_from_id_or_uri(s@, IdKind::Playlist)),
{
    PlaylistId::from_id_or_uri(s).ok().map(|id| id.id().to_string())
}

/// Trusted wrapper around `ShowId::from_id_or_uri` (as for tracks, with URIs
/// that name a show).
#[verifier::external_body]
fn rspotify_show_id_or_uri(s: &str) -> (r: Option<String>)
    ensures
        same_id(r, id_from_id_or_uri(s@, IdKind::Show)),
{
    ShowId::from_id_or_uri(s).ok().map(|id| id.id().to_string())
}

/// Trusted wrapper around `UserId::from_id_or_uri`: as for tracks, with URIs
/// that name a user, except that a user id may hold any characters.
#[verifier::external_body]
fn rspotify_user_id_or_uri(s: &str) -> (r: Option<String>)
    ensures
        same_id(r, id_from_id_or_uri(s@, IdKind::User)),
{
    UserId::from_id_or_uri(s).ok().map(|id| id.id().to_string())
}

/// Trusted wrapper around `TrackId::from_uri`: only a URI that names a track,
/// with an id of ASCII letters and digits.
#[verifier::external_body]
fn rspotify_track_from_uri(s: &str) -> (r: Option<String>)
    ensures
        same_id(r, id_from_uri(s@, IdKind::Track)),
{
    TrackId::from_uri(s).ok().map(|id| id.id().to_string())
}

/// Trusted wrapper around `EpisodeId::from_uri`: only a URI that names an
/// episode, with an id of ASCII letters and digits.
#[verifier::external_body]
fn rspotify_episode_from_uri(s: &str) -> (r: Option<String>)
    ensures
        same_id(r, id_from_uri(s@, IdKind::Episode)),
{
    EpisodeId::from_uri(s).ok().map(|id| id.id().to_string())
}

/// Trusted wrapper around `ArtistId::from_uri`: only a URI that names an
/// artist, with an id of ASCII letters and digits.
#[verifier::external_body]
fn rspotify_artist_from_uri(s: &str) -> (r: Option<String>)
    ensures
        same_id(r, id_from_uri(s@, IdKind::Artist)),
{
    ArtistId::from_uri(s).ok().map(|id| id.id().to_string())
}

/// Trusted wrapper around `AlbumId::from_uri`: only a URI that names an
/// album, with an id of ASCII letters and digits.
#[verifier::external_body]
fn rspotify_album_from_uri(s: &str) -> (r: Option<String>)
    ensures
        same_id(r, id_from_uri(s@, IdKind::Album)),
{
    AlbumId::from_uri(s).ok().map(|id| id.id().to_string())
}

/// Trusted wrapper around `PlaylistId::from_uri`: only a URI that names a
/// playlist, with an id of ASCII letters and digits.
#[verifier::external_body]
fn rspotify_playlist_from_uri(s: &str) -> (r: Option<String>)
    ensures
        same_id(r, id_from_uri(s@, IdKind::Playlist)),
{
    PlaylistId::from_uri(s).ok().map(|id| id.id().to_string())
}

/// Trusted wrapper around `ShowId::from_uri`: only a URI that names a show,
/// with an id of ASCII letters and digits.
#[verifier::external_body]
fn rspotify_show_from_uri(s: &str) -> (r: Option<String>)
    ensures
        same_id(r, id_from_uri(s@, IdKind::Show)),
{
    ShowId::from_uri(s).ok().map(|id| id.id().to_string())
}

/// Trusted wrapper around `TrackId::from_id`: rspotify accepts exactly the
/// ids made only of ASCII letters and digits, keeping the id as given.
#[verifier::external_body]
fn rspotify_track_from_id(id: &str) -> (r: Option<String>)
    ensures
        same_id(r, if is_base62_id(id@) { Some(id@) } else { None }),
{
    TrackId::from_id(id).ok().map(|t| t.id().to_string())
}

/// Trusted wrapper around `PlaylistId::from_id`: rspotify accepts exactly
/// the ids made only of ASCII letters and digits, keeping the id as given.
#[verifier::external_body]
fn rspotify_playlist_from_id(id: &str) -> (r: Option<String>)
    ensures
        same_id(r, if is_base62_id(id@) { Some(id@) } else { None }),
{
    PlaylistId::from_id(id).ok().map(|p| p.id().to_string())
}

// ---------------------------------------------------------------------------
// Single ids
// ---------------------------------------------------------------------------

/// The playlist id `id`, if it is a valid bare playlist id.
pub fn playlist_from_id(id: &str) -> (r: Option<String>)
    ensures
        r is Some <==> is_base62_id(id@),
        r matches Some(x) ==> x@ == id@,
{
    rspotify_playlist_from_id(id)
}

/// The track id `id`, if it is a valid bare track id.
pub fn track_from_id(id: &str) -> (r: Option<String>)
    ensures
        r is Some <==> is_base62_id(id@),
        r matches Some(x) ==> x@ == id@,
{
    rspotify_track_from_id(id)
}

/// Parse a single track id or URI.
pub fn track_id(id_or_uri: &str) -> (r: Option<String>)
    ensures
        same_id(r, id_from_id_or_uri(id_or_uri@, IdKind::Track)),
{
    rspotify_track_id_or_uri(id_or_uri)
}

/// Parse a single album id or URI.
pub fn album_id(id_or_uri: &str) -> (r: Option<String>)
    ensures
        same_id(r, id_from_id_or_uri(id_or_uri@, IdKind::Album)),
{
    rspotify_album_id_or_uri(id_or_uri)
}

/// Parse a single artist id or URI.
pub fn artist_id(id_or_uri: &str) -> (r: Option<String>)
    ensures
        same_id(r, id_from_id_or_uri(id_or_uri@, IdKind::Artist)),
{
    rspotify_artist_id_or_uri(id_or_uri)
}

/// Parse a single playlist id or URI.
pub fn playlist_id(id_or_uri: &str) -> (r: Option<String>)
    ensures
        same_id(r, id_from_id_or_uri(id_or_uri@, IdKind::Playlist)),
{
    rspotify_playlist_id_or_uri(id_or_uri)
}

/// Parse a single show id or URI.
pub fn show_id(id_or_uri: &str) -> (r: Option<String>)
    ensures
        same_id(r, id_from_id_or_uri(id_or_uri@, IdKind::Show)),
{
    rspotify_show_id_or_uri(id_or_uri)
}

/// Parse a single user id or URI.
pub fn user_id(id_or_uri: &str) -> (r: Option<String>)
    ensures
        same_id(r, id_from_id_or_uri(id_or_uri@, IdKind::User)),
{
    rspotify_user_id_or_uri(id_or_uri)
}

// ---------------------------------------------------------------------------
// Collections
// ---------------------------------------------------------------------------

/// The ids of kind `k` parsed from `items`, in order, dropping the entries
/// that do not parse.
pub open spec fn parsed_ids(items: Seq<String>, k: IdKind) -> Seq<Seq<char>>
    decreases items.len(),
{
    if items.len() == 0 {
        seq![]
    } else {
        let rest = parsed_ids(items.drop_last(), k);
        match id_from_id_or_uri(items.last()@, k) {
            Some(id) => rest.push(id),
            None => rest,
        }
    }
}

/// The characters of each string.
pub open spec fn views(v: Seq<String>) -> Seq<Seq<char>> {
    v.map_values(|s: String| s@)
}

/// Parse `s` as an id or URI of kind `k` (a kind that has a bare-id
/// parser).
fn parse_one(s: &str, k: IdKind) -> (r: Option<String>)
    requires
        k != IdKind::Episode,
    ensures
        same_id(r, id_from_id_or_uri(s@, k)),
{
    match k {
        IdKind::Track => track_id(s),
        IdKind::Album => album_id(s),
        IdKind::Artist => artist_id(s),
        IdKind::Playlist => playlist_id(s),
        IdKind::Show => show_id(s),
        IdKind::User => user_id(s),
        IdKind::Episode => None,
    }
}

/// Parse each of `items` as an id of kind `k`, dropping failures.
fn parse_all(items: &Vec<String>, k: IdKind) -> (r: Vec<String>)
    requires
        k != IdKind::Episode,
    ensures
        views(r@) == parsed_ids(items@, k),
{
    let mut r: Vec<String> = Vec::new();
    let n = items.len();
    let mut i: usize = 0;
    while i < n
        invariant
            n == items@.len(),
            i <= n,
            k != IdKind::Episode,
            views(r@) == parsed_ids(items@.take(i as int), k),
        decreases n - i,
    {
        let parsed = parse_one(items[i].as_str(), k);
        proof {
            assert(items@.take(i as int + 1).drop_last() =~= items@.take(i as int));
            assert(items@.take(i as int + 1).last() == items@[i as int]);
        }
        if let Some(id) = parsed {
            r.push(id);
            proof {
                assert(views(r@) =~= views(r@.drop_last()).push(r@.last()@));
            }
        }
        i += 1;
    }
    proof {
        assert(items@.take(n as int) =~= items@);
    }
    r
}

/// Parse a list of track ids/URIs, dropping any that fail to parse.
pub fn track_ids(items: &Vec<String>) -> (r: Vec<String>)
    ensures
        views(r@) == parsed_ids(items@, IdKind::Track),
{
    parse_all(items, IdKind::Track)
}

/// Parse a list of album ids/URIs, dropping any that fail to parse.
pub fn album_ids(items: &Vec<String>) -> (r: Vec<String>)
    ensures
        views(r@) == parsed_ids(items@, IdKind::Album),
{
    parse_all(items, IdKind::Album)
}

/// Parse a list of artist ids/URIs, dropping any that fail to parse.
pub fn artist_ids(items: &Vec<String>) -> (r: Vec<String>)
    ensures
        views(r@) == parsed_ids(items@, IdKind::Artist),
{
    parse_all(items, IdKind::Artist)
}

/// Parse a list of show ids/URIs, dropping any that fail to parse.
pub fn show_ids(items: &Vec<String>) -> (r: Vec<String>)
    ensures
        views(r@) == parsed_ids(items@, IdKind::Show),
{
    parse_all(items, IdKind::Show)
}

// ---------------------------------------------------------------------------
// Playables and play contexts
// ---------------------------------------------------------------------------

/// Something that can be played: a track or a podcast episode, by bare id.
#[derive(Debug, Clone, PartialEq, Eq)]
pub enum Playable {
    Track(String),
    Episode(String),
}

/// A context that plays as a whole, by bare id.
#[derive(Debug, Clone, PartialEq, Eq)]
pub enum PlayContext {
    Artist(String),
    Album(String),
    Playlist(String),
    Show(String),
}

/// What a playable id/URI names: a track URI, else an episode URI, else a
/// bare id, which is taken as a track.
pub open spec fn playable_of(s: Seq<char>) -> Option<(IdKind, Seq<char>)> {
    match id_from_uri(s, IdKind::Track) {
        Some(id) => Some((IdKind::Track, id)),
        None => match id_from_uri(s, IdKind::Episode) {
            Some(id) => Some((IdKind::Episode, id)),
            None => if is_base62_id(s) {
                Some((IdKind::Track, s))
            } else {
                None
            },
        },
    }
}

/// `r` is the playable that `expected` describes.
pub open spec fn same_playable(r: Option<Playable>, expected: Option<(IdKind, Seq<char>)>) -> bool {
    match (r, expected) {
        (Some(Playable::Track(x)), Some((k, e))) => k == IdKind::Track && x@ == e,
        (Some(Playable::Episode(x)), Some((k, e))) => k == IdKind::Episode && x@ == e,
        (None, None) => true,
        _ => false,
    }
}

/// Parse a playable id/URI: the URI scheme selects track or episode; a bare
/// id is ambiguous and is read as a track.
pub fn playable_id(uri_or_id: &str) -> (r: Option<Playable>)
    ensures
        same_playable(r, playable_of(uri_or_id@)),
{
    if let Some(id) = rspotify_track_from_uri(uri_or_id) {
        return Some(Playable::Track(id));
    }
    if let Some(id) = rspotify_episode_from_uri(uri_or_id) {
        return Some(Playable::Episode(id));
    }
    match rspotify_track_from_id(uri_or_id) {
        Some(id) => Some(Playable::Track(id)),
        None => None,
    }
}

/// The playables parsed from `items`, in order, dropping failures.
pub open spec fn parsed_playables(items: Seq<String>) -> Seq<(IdKind, Seq<char>)>
    decreases items.len(),
{
    if items.len() == 0 {
        seq![]
    } else {
        let rest = parsed_playables(items.drop_last());
        match playable_of(items.last()@) {
            Some(p) => rest.push(p),
            None => rest,
        }
    }
}

/// The kind and id of a playable.
pub open spec fn playable_view(p: Playable) -> (IdKind, Seq<char>) {
    match p {
        Playable::Track(x) => (IdKind::Track, x@),
        Playable::Episode(x) => (IdKind::Episode, x@),
    }
}

/// Parse a list of playable ids/URIs, dropping any that fail to parse.
pub fn playable_ids(items: &Vec<String>) -> (r: Vec<Playable>)
    ensures
        r@.map_values(|p: Playable| playable_view(p)) == parsed_playables(items@),
{
    let mut r: Vec<Playable> = Vec::new();
    let n = items.len();
    let mut i: usize = 0;
    while i < n
        invariant
            n == items@.len(),
            i <= n,
            r@.map_values(|p: Playable| playable_view(p)) == parsed_playables(items@.take(i as int)),
        decreases n - i,
    {
        let parsed = playable_id(items[i].as_str());
        proof {
            assert(items@.take(i as int + 1).drop_last() =~= items@.take(i as int));
            assert(items@.take(i as int + 1).last() == items@[i as int]);
        }
        if let Some(p) = parsed {
            r.push(p);
            proof {
                assert(r@.map_values(|p: Playable| playable_view(p)) =~= r@.drop_last().map_values(
                    |p: Playable| playable_view(p),
                ).push(playable_view(r@.last())));
            }
        }
        i += 1;
    }
    proof {
        assert(items@.take(n as int) =~= items@);
    }
    r
}

/// What a context URI names: an artist, album, playlist or show URI, tried
/// in that order. A bare id is ambiguous across context kinds and names
/// nothing.
pub open spec fn context_of(s: Seq<char>) -> Option<(IdKind, Seq<char>)> {
    match id_from_uri(s, IdKind::Artist) {
        Some(id) => Some((IdKind::Artist, id)),
        None => match id_from_uri(s, IdKind::Album) {
            Some(id) => Some((IdKind::Album, id)),
            None => match id_from_uri(s, IdKind::Playlist) {
                Some(id) => Some((IdKind::Playlist, id)),
                None => match id_from_uri(s, IdKind::Show) {
                    Some(id) => Some((IdKind::Show, id)),
                    None => None,
                },
            },
        },
    }
}

/// `r` is the context that `expected` describes.
pub open spec fn same_context(r: Option<PlayContext>, expected: Option<(IdKind, Seq<char>)>) -> bool {
    match (r, expected) {
        (Some(PlayContext::Artist(x)), Some((k, e))) => k == IdKind::Artist && x@ == e,
        (Some(PlayContext::Album(x)), Some((k, e))) => k == IdKind::Album && x@ == e,
        (Some(PlayContext::Playlist(x)), Some((k, e))) => k == IdKind::Playlist && x@ == e,
        (Some(PlayContext::Show(x)), Some((k, e))) => k == IdKind::Show && x@ == e,
        (None, None) => true,
        _ => false,
    }
}

/// Parse a context URI (artist, album, playlist or show). A full URI is
/// required.
pub fn play_context_id(uri: &str) -> (r: Option<PlayContext>)
    ensures
        same_context(r, context_of(uri@)),
{
    if let Some(id) = rspotify_artist_from_uri(uri) {
        return Some(PlayContext::Artist(id));
    }
    if let Some(id) = rspotify_album_from_uri(uri) {
        return Some(PlayContext::Album(id));
    }
    if let Some(id) = rspotify_playlist_from_uri(uri) {
        return Some(PlayContext::Playlist(id));
    }
    if let Some(id) = rspotify_show_from_uri(uri) {
        return Some(PlayContext::Show(id));
    }
    None
}

/// The ids present in `ids`, in order.
pub open spec fn present_ids(ids: Seq<Option<String>>) -> Seq<Seq<char>>
    decreases ids.len(),
{
    if ids.len() == 0 {
        seq![]
    } else {
        let rest = present_ids(ids.drop_last());
        match ids.last() {
            Some(x) => rest.push(x@),
            None => rest,
        }
    }
}

/// Collect the track ids for a saved-tracks check, skipping tracks without
/// a Spotify id (local files).
pub fn track_check_ids(ids: &Vec<Option<String>>) -> (r: Vec<String>)
    ensures
        views(r@) == present_ids(ids@),
{
    let mut r: Vec<String> = Vec::new();
    let n = ids.len();
    let mut i: usize = 0;
    while i < n
        invariant
            n == ids@.len(),
            i <= n,
            views(r@) == present_ids(ids@.take(i as int)),
        decreases n - i,
    {
        proof {
            assert(ids@.take(i as int + 1).drop_last() =~= ids@.take(i as int));
            assert(ids@.take(i as int + 1).last() == ids@[i as int]);
        }
        if let Some(x) = &ids[i] {
            r.push(x.clone());
            proof {
                assert(views(r@) =~= views(r@.drop_last()).push(r@.last()@));
            }
        }
        i += 1;
    }
    proof {
        assert(ids@.take(n as int) =~= ids@);
    }
    r
}

// ---------------------------------------------------------------------------
// Laws
// ---------------------------------------------------------------------------

/// A bare id (no `spotify` URI prefix) that its kind accepts parses as
/// itself.
pub proof fn law_bare_ids_parse_as_themselves(s: Seq<char>, k: IdKind)
    requires
        !has_uri_prefix(s),
        kind_accepts(k, s),
    ensures
        id_from_id_or_uri(s, k) == Some(s),
{
}

/// A URI that names another kind never parses, not even as a bare id.
pub proof fn law_wrong_kind_uri_is_rejected(s: Seq<char>, k: IdKind)
    requires
        has_uri_prefix(s),
        uri_parts(s) matches Some((t, _)) && t != kind_name(k),
    ensures
        id_from_id_or_uri(s, k) is None,
{
}

/// The `spotify:{kind}:{id}` URI of an id of kind `k`.
pub open spec fn spotify_uri(k: IdKind, id: Seq<char>) -> Seq<char> {
    seq!['s', 'p', 'o', 't', 'i', 'f', 'y', ':'] + kind_name(k) + seq![':'] + id
}

proof fn lemma_last_colon(a: Seq<char>, b: Seq<char>)
    requires
        !b.contains(':'),
    ensures
        last_index_of_char(a.push(':') + b, ':') == Some(a.len() as int),
    decreases b.len(),
{
    let s = a.push(':') + b;
    if b.len() == 0 {
        assert(s =~= a.push(':'));
    } else {
        assert(s.last() == b.last());
        assert(s.drop_last() =~= a.push(':') + b.drop_last());
        assert(!b.drop_last().contains(':')) by {
            if b.drop_last().contains(':') {
                let j = choose|j: int| 0 <= j < b.drop_last().len() && b.drop_last()[j] == ':';
                assert(b[j] == ':');
            }
        }
        assert(b.last() != ':') by {
            if b.last() == ':' {
                assert(b[b.len() - 1] == ':');
            }
        }
        lemma_last_colon(a, b.drop_last());
    }
}

/// An id written as a `spotify:{kind}:{id}` URI parses back to that id,
/// for every kind and every id the kind accepts (with no `:` in it).
pub proof fn law_uris_parse_back_to_their_id(k: IdKind, id: Seq<char>)
    requires
        kind_accepts(k, id),
        !id.contains(':'),
    ensures
        id_from_id_or_uri(spotify_uri(k, id), k) == Some(id),
        id_from_uri(spotify_uri(k, id), k) == Some(id),
{
    let s = spotify_uri(k, id);
    let name = kind_name(k);
    assert(s.take(7) =~= seq!['s', 'p', 'o', 't', 'i', 'f', 'y']);
    assert(s[7] == ':');
    let rest = s.subrange(8, s.len() as int);
    assert(rest =~= name.push(':') + id);
    lemma_last_colon(name, id);
    assert(rest.take(name.len() as int) =~= name);
    assert(rest.subrange(name.len() as int + 1, rest.len() as int) =~= id);
}

proof fn lemma_base62_has_no_colon(id: Seq<char>)
    requires
        is_base62_id(id),
    ensures
        !id.contains(':'),
{
    if id.contains(':') {
        let j = choose|j: int| 0 <= j < id.len() && id[j] == ':';
        assert(is_ascii_alnum(id[j]));
    }
}

proof fn lemma_uri_parts_of(k: IdKind, id: Seq<char>)
    requires
        !id.contains(':'),
    ensures
        has_uri_prefix(spotify_uri(k, id)),
        uri_parts(spotify_uri(k, id)) == Some((kind_name(k), id)),
{
    let s = spotify_uri(k, id);
    let name = kind_name(k);
    assert(s.take(7) =~= seq!['s', 'p', 'o', 't', 'i', 'f', 'y']);
    assert(s[7] == ':');
    let rest = s.subrange(8, s.len() as int);
    assert(rest =~= name.push(':') + id);
    lemma_last_colon(name, id);
    assert(rest.take(name.len() as int) =~= name);
    assert(rest.subrange(name.len() as int + 1, rest.len() as int) =~= id);
}

/// A track or episode URI plays that track or episode, and a bare id plays
/// as a track; a context URI (artist, album, playlist, podcast) opens that
/// context, while a track URI is no context.
pub proof fn law_uris_name_what_they_play(id: Seq<char>)
    requires
        is_base62_id(id),
    ensures
        playable_of(spotify_uri(IdKind::Track, id)) == Some((IdKind::Track, id)),
        playable_of(spotify_uri(IdKind::Episode, id)) == Some((IdKind::Episode, id)),
        !has_uri_prefix(id) ==> playable_of(id) == Some((IdKind::Track, id)),
        context_of(spotify_uri(IdKind::Artist, id)) == Some((IdKind::Artist, id)),
        context_of(spotify_uri(IdKind::Album, id)) == Some((IdKind::Album, id)),
        context_of(spotify_uri(IdKind::Playlist, id)) == Some((IdKind::Playlist, id)),
        context_of(spotify_uri(IdKind::Show, id)) == Some((IdKind::Show, id)),
        context_of(spotify_uri(IdKind::Track, id)) is None,
{
    lemma_base62_has_no_colon(id);
    lemma_uri_parts_of(IdKind::Track, id);
    lemma_uri_parts_of(IdKind::Episode, id);
    lemma_uri_parts_of(IdKind::Artist, id);
    lemma_uri_parts_of(IdKind::Album, id);
    lemma_uri_parts_of(IdKind::Playlist, id);
    lemma_uri_parts_of(IdKind::Show, id);
    assert(kind_name(IdKind::Track) != kind_name(IdKind::Episode)) by {
        assert(kind_name(IdKind::Track).len() != kind_name(IdKind::Episode).len());
    }
    assert(kind_name(IdKind::Artist) != kind_name(IdKind::Album)) by {
        assert(kind_name(IdKind::Artist).len() != kind_name(IdKind::Album).len());
    }
    assert(kind_name(IdKind::Artist) != kind_name(IdKind::Playlist)) by {
        assert(kind_name(IdKind::Artist).len() != kind_name(IdKind::Playlist).len());
    }
    assert(kind_name(IdKind::Album) != kind_name(IdKind::Playlist)) by {
        assert(kind_name(IdKind::Album).len() != kind_name(IdKind::Playlist).len());
    }
    assert(kind_name(IdKind::Artist) != kind_name(IdKind::Show)) by {
        assert(kind_name(IdKind::Artist).len() != kind_name(IdKind::Show).len());
    }
    assert(kind_name(IdKind::Album) != kind_name(IdKind::Show)) by {
        assert(kind_name(IdKind::Album).len() != kind_name(IdKind::Show).len());
    }
    assert(kind_name(IdKind::Playlist) != kind_name(IdKind::Show)) by {
        assert(kind_name(IdKind::Playlist).len() != kind_name(IdKind::Show).len());
    }
    assert(kind_name(IdKind::Track) != kind_name(IdKind::Artist)) by {
        assert(kind_name(IdKind::Track).len() != kind_name(IdKind::Artist).len());
    }
    assert(kind_name(IdKind::Track) != kind_name(IdKind::Album)) by {
        assert(kind_name(IdKind::Track)[0] != kind_name(IdKind::Album)[0]);
    }
    assert(kind_name(IdKind::Track) != kind_name(IdKind::Playlist)) by {
        assert(kind_name(IdKind::Track).len() != kind_name(IdKind::Playlist).len());
    }
    assert(kind_name(IdKind::Track) != kind_name(IdKind::Show)) by {
        assert(kind_name(IdKind::Track).len() != kind_name(IdKind::Show).len());
    }
}

/// Parsing a list of ids or URIs keeps the ones that parse, in order:
/// never more ids than entries, and when every entry parses, one id per
/// entry at its own position.
pub proof fn law_id_lists_keep_their_order(items: Seq<String>, k: IdKind)
    ensures
        parsed_ids(items, k).len() <= items.len(),
        (forall|j: int| 0 <= j < items.len() ==> (#[trigger] id_from_id_or_uri(items[j]@, k)) is Some)
            ==> parsed_ids(items, k).len() == items.len() && forall|j: int|
            0 <= j < items.len() ==> Some(#[trigger] parsed_ids(items, k)[j]) == id_from_id_or_uri(
                items[j]@,
                k,
            ),
    decreases items.len(),
{
    if items.len() > 0 {
        let front = items.drop_last();
        law_id_lists_keep_their_order(front, k);
        if forall|j: int| 0 <= j < items.len() ==> (#[trigger] id_from_id_or_uri(items[j]@, k)) is Some {
            assert forall|j: int| 0 <= j < front.len() implies (#[trigger] id_from_id_or_uri(front[j]@, k)) is Some by {
                assert(front[j] == items[j]);
                assert(id_from_id_or_uri(items[j]@, k) is Some);
            }
            assert(id_from_id_or_uri(items[items.len() - 1]@, k) is Some);
            assert(items.last() == items[items.len() - 1]);
            assert forall|j: int| 0 <= j < items.len() implies Some(#[trigger] parsed_ids(items, k)[j])
                == id_from_id_or_uri(items[j]@, k) by {
                if j < front.len() {
                    assert(front[j] == items[j]);
                }
            }
        }
    }
}

} // verus!
