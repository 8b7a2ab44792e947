use spotatui::spotify::{all_track_ids, next_page_offset};

#[test]
fn listings_stop_after_the_last_or_an_empty_page() {
    assert_eq!(next_page_offset(0, 50, true, false), Some(50));
    assert_eq!(next_page_offset(50, 50, false, false), None);
    assert_eq!(next_page_offset(100, 50, true, true), None);
}

#[test]
fn listings_stop_where_the_next_offset_would_not_fit() {
    assert_eq!(next_page_offset(u32::MAX - 50, 50, true, false), Some(u32::MAX));
    assert_eq!(next_page_offset(u32::MAX - 49, 50, true, false), None);
}

#[test]
fn playlist_edits_need_every_track_id_to_parse() {
    let ok = vec!["spotify:track:0000000000000000000001".to_string(), "0000000000000000000002".to_string()];
    assert_eq!(
        all_track_ids(&ok),
        Ok(vec!["0000000000000000000001".to_string(), "0000000000000000000002".to_string()])
    );
    let bad = vec!["0000000000000000000001".to_string(), "not valid!".to_string(), "also bad!".to_string()];
    assert_eq!(all_track_ids(&bad), Err("not valid!".to_string()));
    assert_eq!(all_track_ids(&[]), Ok(vec![]));
}
