use spotatui::app::{AlbumInfo, ArtistInfo};
use spotatui::search_view::{
    album_row, artist_row, help_text, input_scroll_offset, settings_hint, song_row, station_row, top_row_width,
};
use spotatui::track::{ArtistRef, TrackInfo};

fn station(name: &str, tags: Vec<String>, summary: &str) -> TrackInfo {
    TrackInfo {
        uri: Some(format!("radio:https://example.com/{name}")),
        name: name.to_string(),
        artists: tags,
        album: summary.to_string(),
        duration_ms: 0,
        id: None,
        album_id: None,
        artist_refs: vec![],
        is_playable: true,
        is_local: false,
        track_number: 0,
        explicit: false,
        image_url: None,
    }
}

#[test]
fn station_rows_show_tags_and_summary_only_when_present() {
    assert_eq!(
        station_row(&station("Groove Salad", vec!["ambient".to_string(), "chillout".to_string()], "US \u{2022} MP3")),
        "\u{1F4FB} Groove Salad - ambient, chillout  (US \u{2022} MP3)"
    );
    assert_eq!(station_row(&station("Bare FM", vec![], "")), "\u{1F4FB} Bare FM");
}

#[test]
fn song_rows_mark_playing_and_liked() {
    let mut t = station("Song", vec!["A".to_string(), "B".to_string()], "");
    t.id = Some("id1".to_string());
    assert_eq!(song_row(&t, "id1", true, "<3 "), "\u{25B6} <3 Song - A, B");
    assert_eq!(song_row(&t, "other", false, "<3 "), "Song - A, B");
    t.id = None;
    assert_eq!(song_row(&t, "", false, "<3 "), "\u{25B6} Song - A, B");
}

#[test]
fn album_and_artist_rows() {
    let album = AlbumInfo {
        id: Some("a".to_string()),
        uri: None,
        name: "Album".to_string(),
        artists: vec![
            ArtistRef { id: None, name: "X".to_string() },
            ArtistRef { id: None, name: "Y".to_string() },
        ],
        album_type: None,
    };
    assert_eq!(album_row(&album, true, "* "), "* Album - X, Y (unknown)");
    let artist = ArtistInfo { id: Some("b".to_string()), uri: None, name: "Band".to_string() };
    assert_eq!(artist_row(&artist, false, "* "), "Band");
    assert_eq!(artist_row(&artist, true, "* "), "* Band");
}

#[test]
fn input_box_scrolls_to_keep_the_cursor_visible() {
    assert_eq!(input_scroll_offset(12, 3), 0);
    assert_eq!(input_scroll_offset(12, 10), 1);
    assert_eq!(input_scroll_offset(12, 14), 5);
    assert_eq!(input_scroll_offset(2, 14), 0);
    assert_eq!(top_row_width(65000, 600, 10), 65535);
}

#[test]
fn help_and_settings_hints() {
    assert_eq!(help_text(true, true), "...");
    assert_eq!(help_text(false, true), "?");
    assert_eq!(help_text(false, false), "Type ?");
    assert_eq!(settings_hint("<Alt+,>", false), "Type Alt+,");
    assert_eq!(settings_hint("<Alt+,>", true), "Alt+,");
}
