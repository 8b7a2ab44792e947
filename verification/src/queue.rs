//! Native cross-source playback queue: source identity and suspension
//! records.

use vstd::prelude::*;

use crate::text::{has_prefix, starts_with};
use crate::track::TrackInfo;

verus! {

/// Which source a queue item plays through, derived from its URI scheme.
#[derive(Debug, Clone, Copy, PartialEq, Eq)]
pub enum QueueItemSource {
    Spotify,
    LocalFile,
    Subsonic,
    YouTube,
}

/// The source a URI belongs to: `file:`, `subsonic:` and `youtube:` name
/// their sources; anything else is Spotify.
pub open spec fn source_of_uri(uri: Seq<char>) -> QueueItemSource {
    if has_prefix(uri, "file:"@) {
        QueueItemSource::LocalFile
    } else if has_prefix(uri, "subsonic:"@) {
        QueueItemSource::Subsonic
    } else if has_prefix(uri, "youtube:"@) {
        QueueItemSource::YouTube
    } else {
        QueueItemSource::Spotify
    }
}

/// Classify a queue item by its URI scheme. Anything that is not a local
/// file, Subsonic, or YouTube URI is treated as Spotify.
pub fn queue_item_source(uri: &str) -> (s: QueueItemSource)
    ensures
        s == source_of_uri(uri@),
{
    if starts_with(uri, "file:") {
        QueueItemSource::LocalFile
    } else if starts_with(uri, "subsonic:") {
        QueueItemSource::Subsonic
    } else if starts_with(uri, "youtube:") {
        QueueItemSource::YouTube
    } else {
        QueueItemSource::Spotify
    }
}

/// The label of a source as shown in the Queue screen.
pub open spec fn label_of(source: QueueItemSource) -> Seq<char> {
    match source {
        QueueItemSource::Spotify => "Spotify"@,
        QueueItemSource::LocalFile => "Local"@,
        QueueItemSource::Subsonic => "Subsonic"@,
        QueueItemSource::YouTube => "YouTube"@,
    }
}

/// A short, human-readable tag for a queue item's source.
pub fn source_label(source: QueueItemSource) -> (label: &'static str)
    ensures
        label@ == label_of(source),
{
    match source {
        QueueItemSource::Spotify => "Spotify",
        QueueItemSource::LocalFile => "Local",
        QueueItemSource::Subsonic => "Subsonic",
        QueueItemSource::YouTube => "YouTube",
    }
}

/// Which playback sources a build carries.
#[derive(Debug, Clone, Copy, PartialEq, Eq)]
pub struct BuildFeatures {
    /// Native Spotify streaming.
    pub streaming: bool,
    pub local_files: bool,
    pub subsonic: bool,
    pub youtube: bool,
    pub internet_radio: bool,
}

/// Whether a build with `features` can play items of `source`.
pub open spec fn available_in(source: QueueItemSource, features: BuildFeatures) -> bool {
    match source {
        QueueItemSource::Spotify => features.streaming,
        QueueItemSource::LocalFile => features.local_files,
        QueueItemSource::Subsonic => features.subsonic,
        QueueItemSource::YouTube => features.youtube,
    }
}

/// Whether a build with `features` can actually play a queue item from the
/// given source: Spotify needs native streaming, each other source its own
/// feature.
pub fn source_available(source: QueueItemSource, features: BuildFeatures) -> (b: bool)
    ensures
        b == available_in(source, features),
{
    match source {
        QueueItemSource::Spotify => features.streaming,
        QueueItemSource::LocalFile => features.local_files,
        QueueItemSource::Subsonic => features.subsonic,
        QueueItemSource::YouTube => features.youtube,
    }
}

/// How to resume the underlying per-source context after the native queue
/// drains. `resume_index: None` means the context was exhausted, so it should
/// be torn down rather than resumed.
#[derive(Debug, Clone, PartialEq)]
pub enum SuspendedContext {
    /// The native-Spotify context to resume: its uri and the track to resume
    /// at.
    Spotify { context_uri: Option<String>, resume_track_uri: Option<String> },
    Local { resume_index: Option<usize>, resume_position_ms: u64 },
    Subsonic { resume_index: Option<usize>, resume_position_ms: u64 },
    YouTube { resume_index: Option<usize>, resume_position_ms: u64 },
    /// A live stream cannot be paused, so resuming means reconnecting to this
    /// station.
    Radio { station: TrackInfo },
}

/// A uri's scheme names the source that plays it: `file:` uris play as
/// local files, `subsonic:` ones through Subsonic, `youtube:` ones through
/// YouTube, and `spotify:` ones (like anything unprefixed) through Spotify.
pub proof fn law_uri_scheme_names_the_source(rest: Seq<char>)
    ensures
        source_of_uri("file:"@ + rest) == QueueItemSource::LocalFile,
        source_of_uri("subsonic:"@ + rest) == QueueItemSource::Subsonic,
        source_of_uri("youtube:"@ + rest) == QueueItemSource::YouTube,
        source_of_uri("spotify:"@ + rest) == QueueItemSource::Spotify,
{
    reveal_strlit("file:");
    reveal_strlit("subsonic:");
    reveal_strlit("youtube:");
    reveal_strlit("spotify:");
    assert(("file:"@ + rest).take(5) =~= "file:"@);
    assert(("subsonic:"@ + rest).take(9) =~= "subsonic:"@);
    assert(("subsonic:"@ + rest).take(5) != "file:"@) by {
        assert(("subsonic:"@ + rest).take(5)[0] != "file:"@[0]);
    }
    assert(("youtube:"@ + rest).take(8) =~= "youtube:"@);
    assert(("youtube:"@ + rest).take(5) != "file:"@) by {
        assert(("youtube:"@ + rest).take(5)[0] != "file:"@[0]);
    }
    assert(!has_prefix("youtube:"@ + rest, "subsonic:"@)) by {
        if ("youtube:"@ + rest).len() >= 9 {
            assert(("youtube:"@ + rest).take(9)[0] != "subsonic:"@[0]);
        }
    }
    let sp = "spotify:"@ + rest;
    assert(sp.take(5) != "file:"@) by {
        assert(sp.take(5)[0] != "file:"@[0]);
    }
    assert(sp.len() >= 9 ==> sp.take(9) != "subsonic:"@) by {
        if sp.len() >= 9 {
            assert(sp.take(9)[1] != "subsonic:"@[1]);
        }
    }
    assert(sp.take(8) != "youtube:"@) by {
        assert(sp.take(8)[0] != "youtube:"@[0]);
    }
}

/// A build plays a source exactly when it carries that source: Spotify
/// items need native streaming, the others their own feature.
pub proof fn law_sources_need_their_feature(f: BuildFeatures)
    ensures
        available_in(QueueItemSource::Spotify, f) == f.streaming,
        available_in(QueueItemSource::LocalFile, f) == f.local_files,
        available_in(QueueItemSource::Subsonic, f) == f.subsonic,
        available_in(QueueItemSource::YouTube, f) == f.youtube,
{
}

/// Each source is shown under its own name.
pub proof fn law_source_labels(a: QueueItemSource, b: QueueItemSource)
    ensures
        label_of(QueueItemSource::Spotify) == "Spotify"@,
        label_of(QueueItemSource::LocalFile) == "Local"@,
        label_of(QueueItemSource::Subsonic) == "Subsonic"@,
        label_of(QueueItemSource::YouTube) == "YouTube"@,
        a != b ==> label_of(a) != label_of(b),
{
    reveal_strlit("Spotify");
    reveal_strlit("Local");
    reveal_strlit("Subsonic");
    reveal_strlit("YouTube");
    assert("Spotify"@[0] != "Local"@[0]);
    assert("Spotify"@[1] != "Subsonic"@[1]);
    assert("Spotify"@.len() != "YouTube"@.len() || "Spotify"@[0] != "YouTube"@[0]);
    assert("Local"@[0] != "Subsonic"@[0]);
    assert("Local"@[0] != "YouTube"@[0]);
    assert("Subsonic"@[0] != "YouTube"@[0]);
}

} // verus!
