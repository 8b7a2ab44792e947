use spotatui::app::{App, AppRequest, IoEvent};
use spotatui::queue::{BuildFeatures, QueueItemSource, SuspendedContext};
use spotatui::queue_engine::{
    choose_queue_player, claim_queue_slot, plan_context_resume, plan_queued_item, plan_resume, queue_route,
    release_queue_slot, resume_or_finish, resume_radio, resume_spotify, slot_player_stops, take_queue_head,
    ContextResume, DecodedSource, PlayerChoice, QueueRoute, QueuedPlan, ResumePlan,
};
use spotatui::track::TrackInfo;

fn track(uri: Option<&str>, name: &str) -> TrackInfo {
    TrackInfo {
        uri: uri.map(|u| u.to_string()),
        name: name.to_string(),
        artists: vec!["Artist".to_string()],
        album: "Album".to_string(),
        duration_ms: 1000,
        id: None,
        album_id: None,
        artist_refs: vec![],
        is_playable: true,
        is_local: false,
        track_number: 0,
        explicit: false,
        image_url: None,
    }
}

const SLIM: BuildFeatures =
    BuildFeatures { streaming: false, local_files: false, subsonic: false, youtube: false, internet_radio: false };

#[test]
fn unavailable_sources_are_skipped_with_a_message() {
    assert_eq!(
        plan_queued_item(&track(Some("subsonic:track:1"), "Unplayable"), SLIM),
        QueuedPlan::Skip("Subsonic playback isn't available in this build".to_string())
    );
    assert_eq!(
        plan_queued_item(&track(None, "No uri"), SLIM),
        QueuedPlan::Skip("Skipped a queued track with no URI".to_string())
    );
    let yt = BuildFeatures { youtube: true, ..SLIM };
    assert_eq!(
        plan_queued_item(&track(Some("youtube:abc"), "Video"), yt),
        QueuedPlan::Play(QueueItemSource::YouTube, "youtube:abc".to_string())
    );
}

#[test]
fn advancing_takes_the_queue_head() {
    let mut app = App::default();
    assert_eq!(take_queue_head(&mut app), None);
    app.native_queue = vec![track(Some("a"), "A"), track(Some("b"), "B")];
    assert_eq!(take_queue_head(&mut app).unwrap().name, "A");
    assert_eq!(app.native_queue.len(), 1);
    assert_eq!(app.native_queue[0].name, "B");
}

#[test]
fn queue_routes_depend_on_the_slot() {
    assert_eq!(queue_route(&IoEvent::AdvanceNativeQueue, false), QueueRoute::Advance);
    assert_eq!(queue_route(&IoEvent::PausePlayback, false), QueueRoute::Pass);
    assert_eq!(queue_route(&IoEvent::PausePlayback, true), QueueRoute::Pause);
    assert_eq!(queue_route(&IoEvent::NextTrack, true), QueueRoute::SkipQueued);
    assert_eq!(queue_route(&IoEvent::PreviousTrack, true), QueueRoute::RestartQueued);
    assert_eq!(queue_route(&IoEvent::StartPlayback(None, None, None), true), QueueRoute::ClearSlotThenPass);
    assert_eq!(queue_route(&IoEvent::StartPlayback(None, None, None), false), QueueRoute::ClearSlotThenPass);
    assert_eq!(
        queue_route(&IoEvent::StartPlayback(Some("spotify:track:x".to_string()), None, None), true),
        QueueRoute::ClearSlotThenPass
    );
    assert_eq!(queue_route(&IoEvent::GetYouTubePlaylists, true), QueueRoute::Pass);
}

#[test]
fn players_are_chosen_in_priority_order() {
    assert_eq!(choose_queue_player(true, true), PlayerChoice::ReuseSlot);
    assert_eq!(choose_queue_player(false, true), PlayerChoice::ReuseSuspended);
    assert_eq!(choose_queue_player(false, false), PlayerChoice::OpenFresh);
}

#[test]
fn drained_queues_resume_the_suspended_context() {
    assert_eq!(plan_resume(None), ResumePlan::Finish);
    assert_eq!(
        plan_resume(Some(SuspendedContext::Local { resume_index: None, resume_position_ms: 5 })),
        ResumePlan::TeardownContext(DecodedSource::Local)
    );
    assert_eq!(
        plan_resume(Some(SuspendedContext::YouTube { resume_index: Some(2), resume_position_ms: 7 })),
        ResumePlan::ResumeContext(DecodedSource::YouTube, 2, 7)
    );
    assert_eq!(
        plan_resume(Some(SuspendedContext::Spotify {
            context_uri: Some("spotify:album:x".to_string()),
            resume_track_uri: None
        })),
        ResumePlan::ResumeSpotify(Some("spotify:album:x".to_string()), None)
    );
    assert_eq!(plan_context_resume(3, Some(3)), ContextResume::Replay);
    assert_eq!(plan_context_resume(3, Some(2)), ContextResume::PlayIndex(3));
    assert_eq!(plan_context_resume(3, None), ContextResume::PlayIndex(3));
}

#[test]
fn radio_resume_seeds_the_table_and_restarts_the_station() {
    let mut app = App::default();
    resume_radio(&mut app, track(Some("radio:https://x.example/s"), "Station"));
    assert_eq!(app.track_table.tracks.len(), 1);
    assert_eq!(
        app.dispatched,
        vec![IoEvent::StartPlayback(Some("radio:https://x.example/s".to_string()), None, None)]
    );
    let mut quiet = App::default();
    resume_radio(&mut quiet, track(None, "No uri"));
    assert!(quiet.dispatched.is_empty());
    resume_spotify(&mut quiet, None, Some("spotify:track:t".to_string()));
    assert_eq!(
        quiet.dispatched,
        vec![IoEvent::ResumeSpotifyContext(None, Some("spotify:track:t".to_string()))]
    );
}

#[test]
fn a_new_start_releases_the_slot_and_keeps_the_queued_items() {
    let mut app = App::default();
    app.native_queue = vec![track(Some("spotify:track:q"), "Queued")];
    claim_queue_slot(&mut app);
    app.queue_suspended = Some(SuspendedContext::Local { resume_index: Some(1), resume_position_ms: 0 });
    assert!(release_queue_slot(&mut app));
    assert!(!app.queue_owns_playback);
    assert_eq!(app.queue_suspended, None);
    assert_eq!(app.native_queue.len(), 1);
    assert!(!release_queue_slot(&mut app));
}

#[test]
fn a_drained_queue_with_nothing_suspended_says_it_finished() {
    let mut app = App::default();
    claim_queue_slot(&mut app);
    assert_eq!(resume_or_finish(&mut app, true), ResumePlan::Finish);
    assert!(!app.queue_owns_playback);
    assert_eq!(app.requests, vec![AppRequest::StatusMessage("Queue finished".to_string(), 3)]);

    let mut idle = App::default();
    assert_eq!(resume_or_finish(&mut idle, false), ResumePlan::Finish);
    assert!(idle.requests.is_empty());
}

#[test]
fn a_drained_queue_resumes_what_it_suspended() {
    let mut app = App::default();
    claim_queue_slot(&mut app);
    app.queue_suspended = Some(SuspendedContext::Spotify {
        context_uri: Some("spotify:album:x".to_string()),
        resume_track_uri: Some("spotify:track:t".to_string()),
    });
    assert_eq!(
        resume_or_finish(&mut app, false),
        ResumePlan::ResumeSpotify(Some("spotify:album:x".to_string()), Some("spotify:track:t".to_string()))
    );
    assert_eq!(app.queue_suspended, None);
    assert!(!app.queue_owns_playback);
    assert_eq!(
        app.dispatched,
        vec![IoEvent::ResumeSpotifyContext(Some("spotify:album:x".to_string()), Some("spotify:track:t".to_string()))]
    );

    let mut radio = App::default();
    radio.queue_suspended = Some(SuspendedContext::Radio { station: track(Some("radio:https://x.example/s"), "Station") });
    let plan = resume_or_finish(&mut radio, true);
    assert!(matches!(plan, ResumePlan::RestartRadio(_)));
    assert_eq!(radio.track_table.tracks[0].name, "Station");
    assert_eq!(
        radio.dispatched,
        vec![IoEvent::StartPlayback(Some("radio:https://x.example/s".to_string()), None, None)]
    );
    assert!(radio.requests.is_empty());

    let mut local = App::default();
    local.queue_suspended = Some(SuspendedContext::Local { resume_index: Some(4), resume_position_ms: 900 });
    assert_eq!(resume_or_finish(&mut local, true), ResumePlan::ResumeContext(DecodedSource::Local, 4, 900));
    assert!(local.dispatched.is_empty());
}

#[test]
fn the_slot_player_stops_unless_a_resumed_context_shares_it() {
    assert!(slot_player_stops(&ResumePlan::Finish, true));
    assert!(slot_player_stops(&ResumePlan::ResumeContext(DecodedSource::Local, 0, 0), false));
    assert!(!slot_player_stops(&ResumePlan::ResumeContext(DecodedSource::Local, 0, 0), true));
    assert!(!slot_player_stops(&ResumePlan::ResumeContext(DecodedSource::Subsonic, 1, 0), false));
    assert!(!slot_player_stops(&ResumePlan::ResumeContext(DecodedSource::YouTube, 1, 0), false));
    assert!(slot_player_stops(&ResumePlan::TeardownContext(DecodedSource::YouTube), true));
    assert!(slot_player_stops(&ResumePlan::ResumeSpotify(None, None), true));
}
