use std::time::Duration;

use timer::music::engine::source_summary;
use timer::music::queue::skip_current;
use timer::music::{ProviderKind, RepeatMode, TrackMeta, TrackQueue};

fn track(id: u64) -> TrackMeta {
    TrackMeta {
        id,
        title: format!("track-{id}"),
        artist: "Unknown".to_string(),
        duration: Some(Duration::from_secs(60)),
        provider: ProviderKind::Local,
        path_or_url: format!("/tmp/{id}.mp3"),
    }
}

#[test]
fn repeat_all_wraps_to_start() {
    let mut queue = TrackQueue::new(false, RepeatMode::All);
    queue.load(vec![track(1), track(2)]);
    queue.select(1);
    let next = queue.next(false).expect("expected wrapped track");
    assert_eq!(next.id, 1);
}

#[test]
fn repeat_one_keeps_same_track_on_auto_advance() {
    let mut queue = TrackQueue::new(false, RepeatMode::One);
    queue.load(vec![track(1), track(2)]);
    queue.select(1);
    let next = queue.next(false).expect("expected same track");
    assert_eq!(next.id, 2);
}

#[test]
fn shuffle_picks_another_track_when_possible() {
    let mut queue = TrackQueue::new(true, RepeatMode::Off);
    queue.load(vec![track(1), track(2), track(3)]);
    queue.select(0);
    let next = queue.next(true).expect("expected track");
    assert_ne!(next.id, 1);
}

#[test]
fn append_extends_without_resetting_index() {
    let mut queue = TrackQueue::new(false, RepeatMode::Off);
    queue.load(vec![track(1), track(2)]);
    queue.select(1);
    queue.append(vec![track(3), track(4)]);
    assert_eq!(queue.current_index(), Some(1));
    assert_eq!(queue.tracks().len(), 4);
}

#[test]
fn append_to_empty_sets_index() {
    let mut queue = TrackQueue::new(false, RepeatMode::Off);
    queue.append(vec![track(1)]);
    assert_eq!(queue.current_index(), Some(0));
}

#[test]
fn next_stops_at_end_without_repeat() {
    let mut queue = TrackQueue::new(false, RepeatMode::Off);
    queue.load(vec![track(1), track(2)]);
    queue.select(1);
    assert!(queue.next(true).is_none());
    assert_eq!(queue.current_index(), Some(1));
}

#[test]
fn repeat_one_still_skips_on_manual_next() {
    let mut queue = TrackQueue::new(false, RepeatMode::One);
    queue.load(vec![track(1), track(2)]);
    let next = queue.next(true).expect("expected next track");
    assert_eq!(next.id, 2);
}

#[test]
fn prev_wraps_to_last_under_repeat_all_and_stays_otherwise() {
    let mut queue = TrackQueue::new(false, RepeatMode::All);
    queue.load(vec![track(1), track(2), track(3)]);
    assert_eq!(queue.prev().expect("expected last track").id, 3);

    let mut plain = TrackQueue::new(false, RepeatMode::Off);
    plain.load(vec![track(1), track(2)]);
    assert_eq!(plain.prev().expect("expected first track").id, 1);
}

#[test]
fn next_then_prev_returns_to_the_same_track() {
    let mut queue = TrackQueue::new(false, RepeatMode::Off);
    queue.load(vec![track(1), track(2), track(3)]);
    queue.select(1);
    queue.next(true);
    let back = queue.prev().expect("expected a track");
    assert_eq!(back.id, 2);
}

#[test]
fn empty_queue_has_no_moves() {
    let mut queue = TrackQueue::new(false, RepeatMode::All);
    assert!(queue.current().is_none());
    assert!(queue.next(true).is_none());
    assert!(queue.prev().is_none());
    assert!(queue.select(0).is_none());
}

#[test]
fn shuffle_and_repeat_settings() {
    let mut queue = TrackQueue::new(false, RepeatMode::Off);
    assert!(queue.toggle_shuffle());
    assert!(queue.shuffle());
    queue.set_repeat_mode(RepeatMode::One);
    assert_eq!(queue.repeat_mode(), RepeatMode::One);
}

#[test]
fn set_current_duration_touches_only_the_current_track() {
    let mut queue = TrackQueue::new(false, RepeatMode::Off);
    queue.load(vec![track(1), track(2)]);
    queue.select(1);
    queue.set_current_duration(Duration::from_secs(7));
    assert_eq!(queue.tracks()[1].duration, Some(Duration::from_secs(7)));
    assert_eq!(queue.tracks()[0].duration, Some(Duration::from_secs(60)));
}

#[test]
fn test_source_summary() {
    let mut queue = TrackQueue::new(false, RepeatMode::Off);
    let tracks = vec![
        TrackMeta {
            id: 1,
            title: "Local 1".into(),
            artist: "A".into(),
            duration: None,
            provider: ProviderKind::Local,
            path_or_url: "/tmp/1".into(),
        },
        TrackMeta {
            id: 2,
            title: "Local 2".into(),
            artist: "B".into(),
            duration: None,
            provider: ProviderKind::Local,
            path_or_url: "/tmp/2".into(),
        },
        TrackMeta {
            id: 3,
            title: "Radio 1".into(),
            artist: "C".into(),
            duration: None,
            provider: ProviderKind::Radio,
            path_or_url: "http://radio".into(),
        },
    ];
    queue.load(tracks);
    let summary = source_summary(queue.tracks());

    assert_eq!(summary.len(), 2);
    assert_eq!(summary[0].kind, ProviderKind::Local);
    assert_eq!(summary[0].count, 2);
    assert_eq!(summary[1].kind, ProviderKind::Radio);
    assert_eq!(summary[1].count, 1);
}

#[test]
fn source_summary_orders_by_label() {
    let mut a = track(1);
    a.provider = ProviderKind::YtDlp;
    let mut b = track(2);
    b.provider = ProviderKind::HttpStream;
    let mut c = track(3);
    c.provider = ProviderKind::Podcast;
    let summary = source_summary(&[a, b, c]);
    let kinds: Vec<ProviderKind> = summary.iter().map(|s| s.kind).collect();
    assert_eq!(kinds, vec![ProviderKind::Podcast, ProviderKind::HttpStream, ProviderKind::YtDlp]);
}

#[test]
fn shuffle_draw_passes_over_the_current_track() {
    assert_eq!(skip_current(2, 1), 1);
    assert_eq!(skip_current(2, 2), 3);
    assert_eq!(skip_current(0, 0), 1);
    assert_eq!(skip_current(3, 2), 2);
}
