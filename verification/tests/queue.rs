use spotatui::queue::{queue_item_source, source_available, source_label, BuildFeatures, QueueItemSource};

#[test]
fn classifies_uri_schemes() {
    assert_eq!(queue_item_source("spotify:track:abc"), QueueItemSource::Spotify);
    assert_eq!(queue_item_source("file:///music/a.mp3"), QueueItemSource::LocalFile);
    assert_eq!(queue_item_source("subsonic:track:42"), QueueItemSource::Subsonic);
    assert_eq!(queue_item_source("youtube:5NV6Rdv1a3I"), QueueItemSource::YouTube);
    assert_eq!(queue_item_source("something-else"), QueueItemSource::Spotify);
}

#[test]
fn source_labels_are_stable() {
    assert_eq!(source_label(QueueItemSource::Spotify), "Spotify");
    assert_eq!(source_label(QueueItemSource::LocalFile), "Local");
    assert_eq!(source_label(QueueItemSource::Subsonic), "Subsonic");
    assert_eq!(source_label(QueueItemSource::YouTube), "YouTube");
}

#[test]
fn availability_follows_the_build_features() {
    let slim = BuildFeatures {
        streaming: false,
        local_files: false,
        subsonic: false,
        youtube: false,
        internet_radio: false,
    };
    assert!(!source_available(QueueItemSource::Spotify, slim));
    assert!(!source_available(QueueItemSource::YouTube, slim));
    let yt = BuildFeatures { youtube: true, ..slim };
    assert!(source_available(QueueItemSource::YouTube, yt));
    assert!(!source_available(QueueItemSource::LocalFile, yt));
    let streaming = BuildFeatures { streaming: true, ..slim };
    assert!(source_available(QueueItemSource::Spotify, streaming));
}

#[test]
fn scheme_prefix_must_be_at_the_start() {
    assert_eq!(queue_item_source("spotify:file:x"), QueueItemSource::Spotify);
    assert_eq!(queue_item_source("file:"), QueueItemSource::LocalFile);
    assert_eq!(queue_item_source(""), QueueItemSource::Spotify);
}
