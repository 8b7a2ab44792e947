use spotatui::app::{
    ActiveBlock, App, AppRequest, DialogContext, IoEvent, Key, PendingTrackAdd, PendingTrackRemoval,
    PlaylistFolder, PlaylistFolderItem, PlaylistInfo, RouteId, Source,
};
use spotatui::dialog::{handler, playlist_picker_items, PlaylistPickerRow};

fn playlist_info(id: &str, name: &str, owner: &str, collaborative: bool) -> PlaylistInfo {
    PlaylistInfo {
        id: Some(id.to_string()),
        uri: format!("spotify:playlist:{id}"),
        name: name.to_string(),
        owner_id: owner.to_string(),
        collaborative,
    }
}

fn pending_add() -> Option<PendingTrackAdd> {
    Some(PendingTrackAdd { track_id: "0000000000000000000001".to_string(), track_name: "Track".to_string() })
}

#[test]
fn confirmation_dialog_toggles_with_vim_hl() {
    let mut app = App::default();
    app.push_navigation_stack(
        RouteId::Dialog,
        ActiveBlock::Dialog(DialogContext::RemoveTrackFromPlaylistConfirm),
    );
    app.confirm = false;

    handler(Key::Char('l'), &mut app);
    assert!(app.confirm);

    handler(Key::Char('h'), &mut app);
    assert!(!app.confirm);
}

#[test]
fn add_to_playlist_picker_dispatches_selected_editable_playlist() {
    let mut app = App::default();
    app.user_id = Some("spotatui-owner".to_string());
    app.all_playlists = vec![
        playlist_info("37i9dQZF1DWZqd5JICZI0u", "Followed", "friend-owner", false),
        playlist_info("37i9dQZF1DXcBWIGoYBM5M", "Owned", "spotatui-owner", false),
        playlist_info("37i9dQZF1DX4WYpdgoIcn6", "Collaborative", "friend-owner", true),
    ];
    app.pending_playlist_track_add = pending_add();
    app.push_navigation_stack(RouteId::Dialog, ActiveBlock::Dialog(DialogContext::AddTrackToPlaylistPicker));
    app.playlist_picker_selected_index = 0;

    handler(Key::Enter, &mut app);

    match app.dispatched.last().unwrap() {
        IoEvent::AddTrackToPlaylist(playlist_id, track_id) => {
            assert_eq!(playlist_id, "37i9dQZF1DXcBWIGoYBM5M");
            assert_eq!(track_id, "0000000000000000000001");
        }
        _ => panic!("expected add-track event"),
    }
}

#[test]
fn add_to_playlist_picker_navigates_folders_and_filters_uneditable() {
    let mut app = App::default();
    app.user_id = Some("spotatui-owner".to_string());
    app.all_playlists = vec![
        playlist_info("37i9dQZF1DXcBWIGoYBM5M", "Owned", "spotatui-owner", false),
        playlist_info("37i9dQZF1DWZqd5JICZI0u", "Followed", "friend-owner", false),
    ];
    app.playlist_folder_items = vec![
        PlaylistFolderItem::Folder(PlaylistFolder { name: "Mixes".to_string(), current_id: 0, target_id: 1 }),
        PlaylistFolderItem::Folder(PlaylistFolder {
            name: "\u{2190} Mixes".to_string(),
            current_id: 1,
            target_id: 0,
        }),
        PlaylistFolderItem::Playlist { index: 0, current_id: 1 },
        PlaylistFolderItem::Playlist { index: 1, current_id: 0 },
    ];
    app.pending_playlist_track_add = pending_add();
    app.push_navigation_stack(RouteId::Dialog, ActiveBlock::Dialog(DialogContext::AddTrackToPlaylistPicker));

    assert_eq!(playlist_picker_items(&app).len(), 1);

    handler(Key::Enter, &mut app);
    assert_eq!(app.playlist_picker_folder_id, 1);
    assert_eq!(app.playlist_picker_selected_index, 0);
    assert!(matches!(
        app.get_current_route().active_block,
        ActiveBlock::Dialog(DialogContext::AddTrackToPlaylistPicker)
    ));
    assert!(app.dispatched.is_empty());

    assert_eq!(playlist_picker_items(&app).len(), 2);
    app.playlist_picker_selected_index = 1;
    handler(Key::Enter, &mut app);
    match app.dispatched.last().unwrap() {
        IoEvent::AddTrackToPlaylist(playlist_id, track_id) => {
            assert_eq!(playlist_id, "37i9dQZF1DXcBWIGoYBM5M");
            assert_eq!(track_id, "0000000000000000000001");
        }
        _ => panic!("expected add-track event"),
    }
}

#[test]
fn picker_rows_respect_group_folders_first() {
    let mut app = App::default();
    app.user_id = Some("spotatui-owner".to_string());
    app.all_playlists = vec![playlist_info("37i9dQZF1DXcBWIGoYBM5M", "Owned", "spotatui-owner", false)];
    app.playlist_folder_items = vec![
        PlaylistFolderItem::Playlist { index: 0, current_id: 0 },
        PlaylistFolderItem::Folder(PlaylistFolder { name: "Mixes".to_string(), current_id: 0, target_id: 1 }),
    ];

    assert!(matches!(playlist_picker_items(&app)[0], PlaylistPickerRow::Playlist(_)));
    app.group_folders_first = true;
    assert!(matches!(playlist_picker_items(&app)[0], PlaylistPickerRow::Folder(_)));
}

#[test]
fn picker_under_youtube_lists_local_playlists_and_dispatches_a_local_add() {
    let mut app = App::default();
    app.active_source = Source::YouTube;
    app.youtube_playlists = vec![playlist_info("yt1", "Focus", "me", false)];
    app.pending_playlist_track_add = pending_add();
    app.push_navigation_stack(RouteId::Dialog, ActiveBlock::Dialog(DialogContext::AddTrackToPlaylistPicker));
    handler(Key::Enter, &mut app);
    assert_eq!(
        app.dispatched,
        vec![IoEvent::AddTrackToYouTubePlaylist("yt1".to_string(), "0000000000000000000001".to_string())]
    );
    assert_eq!(app.navigation_stack.len(), 1);
}

#[test]
fn confirmed_removal_targets_youtube_or_spotify_by_prefix() {
    for (playlist, expected) in [
        (
            "youtube:playlist:abc",
            IoEvent::RemoveTrackFromYouTubePlaylist("youtube:playlist:abc".to_string(), "t1".to_string()),
        ),
        (
            "spotify:playlist:xyz",
            IoEvent::RemoveTrackFromPlaylistAtPosition("spotify:playlist:xyz".to_string(), "t1".to_string(), 3),
        ),
    ] {
        let mut app = App::default();
        app.pending_playlist_track_removal = Some(PendingTrackRemoval {
            playlist_id: playlist.to_string(),
            track_id: "t1".to_string(),
            position: 3,
        });
        app.push_navigation_stack(
            RouteId::Dialog,
            ActiveBlock::Dialog(DialogContext::RemoveTrackFromPlaylistConfirm),
        );
        app.confirm = true;
        handler(Key::Enter, &mut app);
        assert_eq!(app.dispatched, vec![expected]);
        assert_eq!(app.navigation_stack.len(), 1);
        assert!(!app.confirm);
    }
}

#[test]
fn declined_keybinding_fallback_notes_session_only() {
    let mut app = App::default();
    app.push_navigation_stack(
        RouteId::Dialog,
        ActiveBlock::Dialog(DialogContext::PersistKeybindingFallback),
    );
    handler(Key::Char('q'), &mut app);
    assert_eq!(
        app.requests,
        vec![AppRequest::StatusMessage("Using Alt+, for this session only".to_string(), 4)]
    );
    assert_eq!(app.navigation_stack.len(), 1);
}

#[test]
fn keys_outside_a_dialog_do_nothing() {
    let mut app = App::default();
    app.confirm = false;
    handler(Key::Char('l'), &mut app);
    assert!(!app.confirm);
}
