use spotatui::app::{
    ActiveBlock, App, AppRequest, DialogContext, IoEvent, Key, Paged, PlaylistInfo, RouteId, SearchResultBlock,
    Source,
};
use spotatui::search_results::handler;
use spotatui::track::TrackInfo;

fn station(uri: &str, name: &str) -> TrackInfo {
    TrackInfo {
        uri: Some(uri.to_string()),
        name: name.to_string(),
        artists: vec!["ambient".to_string()],
        album: "US \u{2022} MP3 \u{2022} 128 kbps".to_string(),
        duration_ms: 0,
        id: None,
        album_id: None,
        artist_refs: vec![],
        is_playable: true,
        is_local: false,
        track_number: 0,
        explicit: false,
        image_url: None,
    }
}

fn paged(items: Vec<TrackInfo>) -> Paged<TrackInfo> {
    let total = items.len() as u32;
    Paged { items, offset: 0, limit: 0, total, next: None, previous: None }
}

#[test]
fn radio_results_pin_navigation_and_enter_plays_station() {
    let mut app = App::default();
    app.active_source = Source::Radio;
    app.search_results.tracks = Some(paged(vec![
        station("radio:https://a.example/one", "One FM"),
        station("radio:https://b.example/two", "Two FM"),
    ]));
    app.search_results.selected_tracks_index = Some(0);
    app.search_results.hovered_block = SearchResultBlock::SongSearch;
    app.push_navigation_stack(RouteId::Search, ActiveBlock::SearchResultBlock);

    handler(Key::Down, &mut app);
    assert_eq!(app.search_results.hovered_block, SearchResultBlock::SongSearch);
    assert_eq!(app.search_results.selected_block, SearchResultBlock::SongSearch);
    assert_eq!(app.search_results.selected_tracks_index, Some(1));

    handler(Key::Enter, &mut app);
    match app.dispatched.last().unwrap() {
        IoEvent::StartPlayback(None, Some(uris), Some(1)) => {
            assert_eq!(uris[1], "radio:https://b.example/two");
        }
        _ => panic!("expected a StartPlayback of the station uris"),
    }
}

#[test]
fn hover_moves_between_blocks_without_a_selection() {
    let mut app = App::default();
    assert_eq!(app.search_results.hovered_block, SearchResultBlock::SongSearch);
    handler(Key::Char('l'), &mut app);
    assert_eq!(app.search_results.hovered_block, SearchResultBlock::ArtistSearch);
    handler(Key::Char('l'), &mut app);
    assert_eq!(app.search_results.hovered_block, SearchResultBlock::SongSearch);
}

#[test]
fn pressing_w_on_search_song_opens_add_to_playlist_picker() {
    let mut app = App::default();
    app.user_id = Some("spotatui-owner".to_string());
    app.all_playlists = vec![PlaylistInfo {
        id: Some("37i9dQZF1DXcBWIGoYBM5M".to_string()),
        uri: "spotify:playlist:37i9dQZF1DXcBWIGoYBM5M".to_string(),
        name: "Owned Playlist".to_string(),
        owner_id: "spotatui-owner".to_string(),
        collaborative: false,
    }];
    let mut song = station("spotify:track:0000000000000000000001", "Search Track");
    song.id = Some("0000000000000000000001".to_string());
    app.search_results.tracks = Some(Paged { items: vec![song], offset: 0, limit: 1, total: 1, next: None, previous: None });
    app.search_results.selected_block = SearchResultBlock::SongSearch;
    app.search_results.selected_tracks_index = Some(0);
    app.push_navigation_stack(RouteId::Search, ActiveBlock::SearchResultBlock);

    handler(Key::Char('w'), &mut app);

    assert_eq!(
        app.pending_playlist_track_add.as_ref().map(|pending| pending.track_name.as_str()),
        Some("Search Track")
    );
    assert_eq!(
        app.get_current_route().active_block,
        ActiveBlock::Dialog(DialogContext::AddTrackToPlaylistPicker)
    );
}

#[test]
fn pressing_w_on_a_song_without_an_id_tells_the_user() {
    let mut app = App::default();
    let song = station("local:///music/song.mp3", "Local Song");
    app.search_results.tracks = Some(paged(vec![song]));
    app.search_results.selected_block = SearchResultBlock::SongSearch;
    app.search_results.selected_tracks_index = Some(0);
    app.push_navigation_stack(RouteId::Search, ActiveBlock::SearchResultBlock);
    handler(Key::Char('w'), &mut app);
    assert_eq!(app.pending_playlist_track_add, None);
    assert_eq!(app.requests, vec![AppRequest::CannotAddToPlaylist("Local Song".to_string())]);
    assert_eq!(app.get_current_route().active_block, ActiveBlock::SearchResultBlock);
}

#[test]
fn spotify_only_keys_are_inert_under_radio() {
    let mut app = App::default();
    app.active_source = Source::Radio;
    app.search_results.tracks = Some(paged(vec![station("radio:https://a.example/one", "One FM")]));
    app.search_results.selected_tracks_index = Some(0);
    app.search_results.selected_block = SearchResultBlock::SongSearch;
    app.search_results.hovered_block = SearchResultBlock::AlbumSearch;
    let queue_key = app.keys.add_item_to_queue;
    for key in [Key::Char('w'), Key::Char('D'), Key::Char('r'), queue_key] {
        handler(key, &mut app);
        assert_eq!(app.search_results.hovered_block, SearchResultBlock::SongSearch);
        assert_eq!(app.search_results.selected_block, SearchResultBlock::SongSearch);
        assert_eq!(app.search_results.selected_tracks_index, Some(0));
        assert!(app.dispatched.is_empty());
        assert!(app.requests.is_empty());
        assert_eq!(app.pending_playlist_track_add, None);
    }
}
