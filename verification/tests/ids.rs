use spotatui::ids::{
    album_id, playable_id, playable_ids, play_context_id, playlist_id, track_check_ids, track_id, track_ids,
    user_id, PlayContext, Playable,
};

const BARE: &str = "0000000000000000000001";

#[test]
fn play_context_id_sniffs_each_context_type_from_its_uri() {
    assert!(matches!(play_context_id(&format!("spotify:album:{BARE}")), Some(PlayContext::Album(_))));
    assert!(matches!(play_context_id(&format!("spotify:artist:{BARE}")), Some(PlayContext::Artist(_))));
    assert!(matches!(play_context_id(&format!("spotify:playlist:{BARE}")), Some(PlayContext::Playlist(_))));
    assert!(matches!(play_context_id(&format!("spotify:show:{BARE}")), Some(PlayContext::Show(_))));
}

#[test]
fn play_context_id_rejects_bare_id_and_non_context_uri() {
    assert!(play_context_id(BARE).is_none());
    assert!(play_context_id(&format!("spotify:track:{BARE}")).is_none());
}

#[test]
fn playable_id_sniffs_track_vs_episode_from_uri() {
    assert!(matches!(playable_id(&format!("spotify:track:{BARE}")), Some(Playable::Track(_))));
    assert!(matches!(playable_id(&format!("spotify:episode:{BARE}")), Some(Playable::Episode(_))));
}

#[test]
fn playable_id_treats_bare_id_as_track() {
    assert!(matches!(playable_id(BARE), Some(Playable::Track(_))));
}

#[test]
fn mono_parser_accepts_id_or_matching_uri_and_rejects_wrong_type() {
    assert!(track_id(BARE).is_some());
    assert!(track_id(&format!("spotify:track:{BARE}")).is_some());
    assert!(album_id(&format!("spotify:album:{BARE}")).is_some());
    assert!(track_id(&format!("spotify:album:{BARE}")).is_none());
}

#[test]
fn track_check_ids_collects_base62_ids_and_skips_local_files() {
    let items = vec![Some("0000000000000000000001".to_string()), None, Some("0000000000000000000002".to_string())];
    assert_eq!(
        track_check_ids(&items),
        vec!["0000000000000000000001".to_string(), "0000000000000000000002".to_string()]
    );
}

#[test]
fn track_check_ids_empty_input_yields_empty_vec() {
    let items: Vec<Option<String>> = Vec::new();
    assert!(track_check_ids(&items).is_empty());
}

#[test]
fn collection_parser_drops_unparseable_entries() {
    let ids = vec![format!("spotify:track:{BARE}"), BARE.to_string(), "not a valid id!".to_string()];
    assert_eq!(track_ids(&ids).len(), 2);
}

#[test]
fn playlist_id_from_full_uri() {
    assert_eq!(
        playlist_id("spotify:playlist:37i9dQZF1DXcBWIGoYBM5M").as_deref(),
        Some("37i9dQZF1DXcBWIGoYBM5M")
    );
}

#[test]
fn playlist_id_from_bare_id() {
    assert_eq!(playlist_id("37i9dQZF1DXcBWIGoYBM5M").as_deref(), Some("37i9dQZF1DXcBWIGoYBM5M"));
}

#[test]
fn playlist_id_from_invalid_returns_error() {
    assert!(playlist_id("not-a-valid-id!!!@@@").is_none());
}

#[test]
fn parsed_ids_keep_the_id_part_of_a_uri() {
    assert_eq!(track_id(&format!("spotify/track/{BARE}")).as_deref(), Some(BARE));
    assert_eq!(
        playable_id(&format!("spotify:episode:{BARE}")),
        Some(Playable::Episode(BARE.to_string()))
    );
    assert_eq!(playable_ids(&vec![BARE.to_string(), "bad id".to_string()]), vec![Playable::Track(BARE.to_string())]);
}

#[test]
fn user_ids_accept_any_characters() {
    assert_eq!(user_id("some.user-name").as_deref(), Some("some.user-name"));
    assert_eq!(user_id("spotify:user:some.user").as_deref(), Some("some.user"));
    assert!(user_id("spotify:track:abc").is_none());
}

#[test]
fn a_malformed_uri_does_not_fall_back_to_a_bare_id() {
    assert!(track_id("spotify:nonsense").is_none());
    assert!(track_id("spotifyabc").is_some());
}
