use beanal::adapters::{
    LinuxMediaManager, MacMediaManager, PlaybackStatus, TransportCommand, WindowsMediaManager,
};

#[test]
fn linux_snapshot_defaults() {
    let _ = LinuxMediaManager::new();
    let s = LinuxMediaManager::snapshot("VLC media player".to_string(), None, None, None, None, None);
    assert_eq!(s.title, "Unknown Title");
    assert_eq!(s.artist, "Unknown Artist");
    assert_eq!(s.album, "");
    assert!(!s.is_playing);
    assert_eq!(s.source_app, "VLC media player");
    assert_eq!(s.album_art, None);
}

#[test]
fn linux_snapshot_joins_artists() {
    let artists = vec!["A".to_string(), "B".to_string(), "C".to_string()];
    let s = LinuxMediaManager::snapshot(
        "Spotify".to_string(),
        Some(PlaybackStatus::Playing),
        Some("T".to_string()),
        Some(artists),
        Some("Al".to_string()),
        Some(vec![7, 8]),
    );
    assert_eq!(s.artist, "A, B, C");
    assert_eq!(s.title, "T");
    assert_eq!(s.album, "Al");
    assert!(s.is_playing);
    assert_eq!(s.album_art, Some(vec![7, 8]));
    let one = LinuxMediaManager::snapshot("p".to_string(), None, None, Some(vec!["Solo".to_string()]), None, None);
    assert_eq!(one.artist, "Solo");
    let none = LinuxMediaManager::snapshot("p".to_string(), None, None, Some(Vec::new()), None, None);
    assert_eq!(none.artist, "");
}

#[test]
fn playing_only_when_status_is_playing() {
    for (status, expected) in [
        (Some(PlaybackStatus::Playing), true),
        (Some(PlaybackStatus::Paused), false),
        (Some(PlaybackStatus::Stopped), false),
        (None, false),
    ] {
        let s = WindowsMediaManager::snapshot(None, status, Some("t".to_string()), None, None);
        assert_eq!(s.is_playing, expected);
    }
}

#[test]
fn mac_snapshot_cleans_bundle_id() {
    let _ = MacMediaManager::new();
    let s = MacMediaManager::snapshot(
        Some("Song".to_string()),
        Some("Band".to_string()),
        None,
        Some("com.spotify.client".to_string()),
        Some(vec![1]),
        true,
    );
    assert_eq!(s.source_app, "Spotify");
    assert_eq!(s.title, "Song");
    assert_eq!(s.artist, "Band");
    assert_eq!(s.album, "");
    assert_eq!(s.album_art, Some(vec![1]));
    assert!(s.is_playing);
    let unknown = MacMediaManager::snapshot(None, None, None, None, None, false);
    assert_eq!(unknown.source_app, "Unknown");
    assert_eq!(unknown.title, "");
}

#[test]
fn windows_snapshot_cleans_app_id() {
    let _ = WindowsMediaManager::new();
    let s = WindowsMediaManager::snapshot(
        Some("Spotify.exe".to_string()),
        Some(PlaybackStatus::Paused),
        Some("Song".to_string()),
        Some("Band".to_string()),
        Some("LP".to_string()),
    );
    assert_eq!(s.source_app, "Spotify");
    assert_eq!(s.album, "LP");
    assert_eq!(s.album_art, None);
    assert!(!s.is_playing);
}

#[test]
fn only_play_pause_falls_back() {
    assert!(TransportCommand::PlayPause.falls_back_to_first_session());
    assert!(!TransportCommand::Next.falls_back_to_first_session());
    assert!(!TransportCommand::Previous.falls_back_to_first_session());
}
