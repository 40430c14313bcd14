use beanal::monitor::{MonitorState, TickOutcome, POLL_INTERVAL_MS};
use beanal::snapshot::MediaTrackInfo;

fn track(title: &str, artist: &str, playing: bool) -> MediaTrackInfo {
    MediaTrackInfo {
        title: title.to_string(),
        artist: artist.to_string(),
        album: String::new(),
        is_playing: playing,
        source_app: "Player".to_string(),
        album_art: None,
    }
}

fn published(out: TickOutcome) -> Option<MediaTrackInfo> {
    match out {
        TickOutcome::Publishing(s) => Some(s),
        _ => None,
    }
}

#[test]
fn end_to_end_three_ticks() {
    let mut m = MonitorState::new(5000);
    let first = published(m.tick(Some(track("Song A", "Artist A", true)), 1000));
    assert_eq!(first, Some(track("Song A", "Artist A", true)));
    let second = m.tick(Some(track("Song A", "Artist A", true)), 2000);
    assert!(matches!(second, TickOutcome::Suppressed));
    let third = published(m.tick(Some(track("Song A", "Artist A", false)), 3000)).unwrap();
    assert_eq!(third, track("Song A", "Artist A", false));
    assert!(!third.is_playing);
}

#[test]
fn repeated_polls_send_once() {
    let mut m = MonitorState::new(5000);
    let mut sent = 0;
    for t in 0..10u64 {
        if published(m.tick(Some(track("X", "Y", true)), t * 1000)).is_some() {
            sent += 1;
        }
    }
    assert_eq!(sent, 1);
}

#[test]
fn changed_then_back_is_sent_again() {
    let mut m = MonitorState::new(5000);
    assert!(published(m.tick(Some(track("A", "", true)), 0)).is_some());
    assert!(published(m.tick(Some(track("B", "", true)), 1)).is_some());
    assert!(published(m.tick(Some(track("A", "", true)), 2)).is_some());
}

#[test]
fn idle_between_same_snapshot_sends_nothing() {
    let mut m = MonitorState::new(5000);
    assert!(published(m.tick(Some(track("A", "", true)), 0)).is_some());
    assert!(matches!(m.tick(None, 1000), TickOutcome::Idle { .. }));
    assert!(matches!(m.tick(Some(track("A", "", true)), 2000), TickOutcome::Suppressed));
}

#[test]
fn artwork_bytes_take_part_in_dedup() {
    let mut m = MonitorState::new(5000);
    let mut a = track("A", "", true);
    a.album_art = Some(vec![1, 2, 3]);
    let mut b = track("A", "", true);
    b.album_art = Some(vec![1, 2, 4]);
    assert!(published(m.tick(Some(a.clone()), 0)).is_some());
    assert!(matches!(m.tick(Some(a), 1), TickOutcome::Suppressed));
    assert!(published(m.tick(Some(b), 2)).is_some());
}

#[test]
fn empty_title_never_sent() {
    let mut m = MonitorState::new(5000);
    let mut t = track("", "Artist", true);
    t.album_art = Some(vec![9]);
    for i in 0..3u64 {
        assert!(matches!(m.tick(Some(t.clone()), i * 1000), TickOutcome::Idle { .. }));
    }
}

#[test]
fn idle_log_is_rate_limited() {
    let mut m = MonitorState::new(5000);
    assert!(matches!(m.tick(None, 1000), TickOutcome::Idle { log: false }));
    assert!(matches!(m.tick(None, 5000), TickOutcome::Idle { log: false }));
    assert!(matches!(m.tick(None, 5001), TickOutcome::Idle { log: true }));
    assert!(matches!(m.tick(None, 6000), TickOutcome::Idle { log: false }));
    assert!(matches!(m.tick(None, 10001), TickOutcome::Idle { log: false }));
    assert!(matches!(m.tick(None, 10002), TickOutcome::Idle { log: true }));
}

#[test]
fn poll_interval_is_one_second() {
    assert_eq!(POLL_INTERVAL_MS, 1000);
}

#[test]
fn snapshot_equality_is_fieldwise() {
    let a = track("A", "B", true);
    assert_eq!(a, a.clone());
    assert_ne!(a, track("A", "B", false));
    let mut c = track("A", "B", true);
    c.album = "X".to_string();
    assert_ne!(a, c);
    let mut d = track("A", "B", true);
    d.album_art = Some(Vec::new());
    assert_ne!(a, d);
}

#[test]
fn sends_first_of_each_run_of_equal_snapshots() {
    let mut m = MonitorState::new(5000);
    let polls = [
        Some(track("A", "", true)),
        Some(track("A", "", true)),
        None,
        Some(track("", "", true)),
        Some(track("A", "", true)),
        Some(track("B", "", true)),
        Some(track("B", "", true)),
        Some(track("A", "", true)),
        Some(track("A", "", false)),
    ];
    let mut sent = Vec::new();
    for (t, p) in polls.into_iter().enumerate() {
        if let Some(s) = published(m.tick(p, t as u64)) {
            sent.push(s);
        }
    }
    assert_eq!(
        sent,
        vec![track("A", "", true), track("B", "", true), track("A", "", true), track("A", "", false)]
    );
}
