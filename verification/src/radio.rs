//! Station records of the radio-browser.info directory, as far as the
//! player reads them.

use vstd::prelude::*;

verus! {

/// One station record from the directory's station listings. Every field
/// may be blank in a sparse record.
#[derive(Debug, Clone, Default, PartialEq)]
pub struct RbStation {
    /// Stable station identifier, used for the click-count ping.
    pub stationuuid: String,
    pub name: String,
    /// The stream URL as submitted; may point at a playlist (`.m3u`/`.pls`).
    pub url: String,
    /// The URL after the directory resolved playlists and redirects.
    pub url_resolved: String,
    /// Comma-separated genre tags, e.g. `"ambient,chillout"`.
    pub tags: String,
    /// ISO 3166-1 alpha-2 country code, e.g. `"US"`.
    pub countrycode: String,
    /// Audio codec as reported by the directory, e.g. `"MP3"`.
    pub codec: String,
    /// Bitrate in kbps; `0` when unknown.
    pub bitrate: u32,
    /// `1` when the directory's last connectivity check succeeded.
    pub lastcheckok: u8,
}

} // verus!
