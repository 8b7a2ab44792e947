//! The source-neutral track record shared by queues, tables and sessions.

use vstd::prelude::*;

verus! {

/// A reference to an artist of a track.
#[derive(Clone, Debug, PartialEq)]
pub struct ArtistRef {
    pub id: Option<String>,
    pub name: String,
}

/// One playable item, whatever source it comes from. A `uri` scheme
/// (`spotify:`, `file:`, `subsonic:`, `youtube:`, `radio:`) names the source.
#[derive(Clone, Debug, PartialEq)]
pub struct TrackInfo {
    pub uri: Option<String>,
    pub name: String,
    pub artists: Vec<String>,
    pub album: String,
    pub duration_ms: u32,
    pub id: Option<String>,
    pub album_id: Option<String>,
    pub artist_refs: Vec<ArtistRef>,
    pub is_playable: bool,
    pub is_local: bool,
    pub track_number: u32,
    pub explicit: bool,
    pub image_url: Option<String>,
}

} // verus!

verus! {

/// A copy of a list of strings.
pub fn copy_strings(v: &Vec<String>) -> (r: Vec<String>)
    ensures
        r@ == v@,
{
    let mut r: Vec<String> = Vec::new();
    let n = v.len();
    let mut i: usize = 0;
    while i < n
        invariant
            n == v@.len(),
            i <= n,
            r@ == v@.take(i as int),
        decreases n - i,
    {
        r.push(v[i].clone());
        proof {
            assert(v@.take(i as int + 1) =~= v@.take(i as int).push(v@[i as int]));
        }
        i += 1;
    }
    proof {
        assert(v@.take(n as int) =~= v@);
    }
    r
}

impl ArtistRef {
    /// A copy of this reference.
    pub fn duplicate(&self) -> (r: ArtistRef)
        ensures
            r == *self,
    {
        ArtistRef { id: self.id.clone(), name: self.name.clone() }
    }
}

/// Two tracks hold the same data (lists compared by their contents).
pub open spec fn same_track(a: TrackInfo, b: TrackInfo) -> bool {
    &&& a.uri == b.uri
    &&& a.name == b.name
    &&& a.artists@ == b.artists@
    &&& a.album == b.album
    &&& a.duration_ms == b.duration_ms
    &&& a.id == b.id
    &&& a.album_id == b.album_id
    &&& a.artist_refs@ == b.artist_refs@
    &&& a.is_playable == b.is_playable
    &&& a.is_local == b.is_local
    &&& a.track_number == b.track_number
    &&& a.explicit == b.explicit
    &&& a.image_url == b.image_url
}

impl TrackInfo {
    /// A copy of this track.
    pub fn duplicate(&self) -> (r: TrackInfo)
        ensures
            same_track(r, *self),
    {
        let mut refs: Vec<ArtistRef> = Vec::new();
        let n = self.artist_refs.len();
        let mut i: usize = 0;
        while i < n
            invariant
                n == self.artist_refs@.len(),
                i <= n,
                refs@ == self.artist_refs@.take(i as int),
            decreases n - i,
        {
            refs.push(self.artist_refs[i].duplicate());
            proof {
                assert(self.artist_refs@.take(i as int + 1) =~= self.artist_refs@.take(
                    i as int,
                ).push(self.artist_refs@[i as int]));
            }
            i += 1;
        }
        proof {
            assert(self.artist_refs@.take(n as int) =~= self.artist_refs@);
        }
        let r = TrackInfo {
            uri: self.uri.clone(),
            name: self.name.clone(),
            artists: copy_strings(&self.artists),
            album: self.album.clone(),
            duration_ms: self.duration_ms,
            id: self.id.clone(),
            album_id: self.album_id.clone(),
            artist_refs: refs,
            is_playable: self.is_playable,
            is_local: self.is_local,
            track_number: self.track_number,
            explicit: self.explicit,
            image_url: self.image_url.clone(),
        };
        proof {
            assert(r.artists@ == self.artists@);
            assert(r.artist_refs@ == self.artist_refs@);
        }
        r
    }
}

} // verus!

verus! {

/// Two lists hold the same tracks, in the same order.
pub open spec fn same_tracks(a: Seq<TrackInfo>, b: Seq<TrackInfo>) -> bool {
    &&& a.len() == b.len()
    &&& forall|i: int| 0 <= i < a.len() ==> same_track(#[trigger] a[i], b[i])
}

} // verus!
