use std::time::Duration;

use timer::music::player::{shift_position, PlayerAction, PlayerCore, StartOrigin};
use timer::music::{InputRef, MusicCommand, PlaybackState, ProviderKind, RepeatMode, TrackMeta, TrackQueue, VisualizerMode};

fn track(id: u64, provider: ProviderKind) -> TrackMeta {
    TrackMeta {
        id,
        title: format!("t{id}"),
        artist: "a".into(),
        duration: None,
        provider,
        path_or_url: format!("/music/{id}.mp3"),
    }
}

fn player(tracks: Vec<TrackMeta>, repeat: RepeatMode) -> PlayerCore {
    let mut q = TrackQueue::new(false, repeat);
    q.load(tracks);
    PlayerCore::new(q, 150)
}

fn started_id(a: &PlayerAction) -> Option<u64> {
    match a {
        PlayerAction::Start { track, .. } => Some(track.id),
        _ => None,
    }
}

#[test]
fn new_player_is_idle_with_capped_volume() {
    let p = player(vec![track(1, ProviderKind::Local)], RepeatMode::Off);
    assert!(matches!(p.state(), PlaybackState::Idle));
    assert_eq!(p.volume(), 100);
    assert_eq!(p.visualizer_mode(), VisualizerMode::Scatter);
    assert_eq!(p.position(10_000), 0);
    assert!(!p.has_sink());
}

#[test]
fn play_starts_the_current_track_and_reports_playing() {
    let mut p = player(vec![track(1, ProviderKind::Local), track(2, ProviderKind::Local)], RepeatMode::Off);
    let a = p.dispatch(MusicCommand::Play, 1_000);
    assert_eq!(started_id(&a), Some(1));
    assert!(matches!(p.state(), PlaybackState::Buffering));
    p.track_started(1_000, 0, Some(Duration::from_secs(90)), StartOrigin::Command);
    assert!(matches!(p.state(), PlaybackState::Playing));
    assert_eq!(p.current_duration(), Some(Duration::from_secs(90)));
    assert_eq!(p.queue().tracks()[0].duration, Some(Duration::from_secs(90)));
    assert_eq!(p.position(4_000), 3_000);
    assert!(matches!(p.dispatch(MusicCommand::Play, 4_000), PlayerAction::Nothing));
}

#[test]
fn toggle_pauses_and_resumes_at_the_same_position() {
    let mut p = player(vec![track(1, ProviderKind::Local)], RepeatMode::Off);
    p.dispatch(MusicCommand::Play, 0);
    p.track_started(0, 0, None, StartOrigin::Command);
    assert!(matches!(p.dispatch(MusicCommand::Toggle, 5_000), PlayerAction::Pause));
    assert!(matches!(p.state(), PlaybackState::Paused));
    assert_eq!(p.position(9_000), 5_000);
    assert!(matches!(p.dispatch(MusicCommand::Toggle, 9_000), PlayerAction::Resume));
    assert_eq!(p.position(9_000), 5_000);
    assert_eq!(p.position(10_000), 6_000);
}

#[test]
fn stop_drops_the_sink() {
    let mut p = player(vec![track(1, ProviderKind::Local)], RepeatMode::Off);
    p.dispatch(MusicCommand::Play, 0);
    p.track_started(0, 0, None, StartOrigin::Command);
    assert!(matches!(p.dispatch(MusicCommand::Stop, 1_000), PlayerAction::Stop));
    assert!(matches!(p.state(), PlaybackState::Stopped));
    assert!(!p.has_sink());
    assert!(matches!(p.dispatch(MusicCommand::Stop, 1_000), PlayerAction::Nothing));
}

#[test]
fn next_at_end_ends_and_repeat_all_wraps() {
    let mut p = player(vec![track(1, ProviderKind::Local), track(2, ProviderKind::Local)], RepeatMode::Off);
    assert_eq!(started_id(&p.dispatch(MusicCommand::Next, 0)), Some(2));
    assert!(matches!(p.dispatch(MusicCommand::Next, 0), PlayerAction::Nothing));
    assert!(matches!(p.state(), PlaybackState::Ended));
    p.dispatch(MusicCommand::SetRepeat(RepeatMode::All), 0);
    assert_eq!(started_id(&p.dispatch(MusicCommand::Next, 0)), Some(1));
    assert_eq!(started_id(&p.dispatch(MusicCommand::Prev, 0)), Some(2));
}

#[test]
fn drained_sink_advances_or_repeats() {
    let mut p = player(vec![track(1, ProviderKind::Local), track(2, ProviderKind::Local)], RepeatMode::One);
    p.dispatch(MusicCommand::Play, 0);
    p.track_started(0, 0, None, StartOrigin::Command);
    let a = p.sink_drained();
    assert_eq!(started_id(&a), Some(1));
    assert!(matches!(a, PlayerAction::Start { origin: StartOrigin::AutoAdvance, .. }));
    p.track_failed("decoder".into(), StartOrigin::AutoAdvance, true);
    assert!(matches!(p.state(), PlaybackState::Stopped));
    assert!(p.last_error().is_none());
    assert!(matches!(p.sink_drained(), PlayerAction::Nothing));
}

#[test]
fn failed_command_start_shows_the_error() {
    let mut p = player(vec![track(1, ProviderKind::Local)], RepeatMode::Off);
    p.dispatch(MusicCommand::Play, 0);
    p.track_failed("failed to open file".into(), StartOrigin::Command, true);
    assert!(matches!(p.state(), PlaybackState::Error(m) if m == "failed to open file"));
    assert_eq!(p.last_error().as_deref(), Some("failed to open file"));
}

#[test]
fn seek_is_debounced_then_restarts_the_track() {
    let mut p = player(vec![track(1, ProviderKind::Local)], RepeatMode::Off);
    p.dispatch(MusicCommand::Play, 0);
    p.track_started(0, 0, None, StartOrigin::Command);
    p.dispatch(MusicCommand::Seek(5), 10_000);
    p.dispatch(MusicCommand::Seek(5), 10_050);
    assert!(matches!(p.flush_pending_seek(10_100), PlayerAction::Nothing));
    let a = p.flush_pending_seek(10_200);
    match a {
        PlayerAction::Start { start_at_ms, origin, .. } => {
            assert_eq!(start_at_ms, 20_200);
            assert_eq!(origin, StartOrigin::Seek);
        }
        _ => panic!("expected a restart"),
    }
    p.track_started(10_200, 20_200, None, StartOrigin::Seek);
    p.dispatch(MusicCommand::Seek(-100), 10_250);
    assert!(matches!(p.flush_pending_seek(10_370), PlayerAction::Nothing));
    match p.flush_pending_seek(10_400) {
        PlayerAction::Start { start_at_ms, .. } => assert_eq!(start_at_ms, 0),
        _ => panic!("expected a restart"),
    }
}

#[test]
fn live_streams_are_not_seeked() {
    let mut p = player(vec![track(1, ProviderKind::Radio)], RepeatMode::Off);
    p.dispatch(MusicCommand::Play, 0);
    p.track_started(0, 0, None, StartOrigin::Command);
    p.dispatch(MusicCommand::Seek(30), 1_000);
    assert!(matches!(p.flush_pending_seek(2_000), PlayerAction::Nothing));
    assert!(matches!(p.state(), PlaybackState::Playing));
}

#[test]
fn volume_mute_and_visualizer() {
    let mut p = player(vec![track(1, ProviderKind::Local)], RepeatMode::Off);
    assert!(matches!(p.dispatch(MusicCommand::SetVolume(40), 0), PlayerAction::Nothing));
    p.dispatch(MusicCommand::Play, 0);
    p.track_started(0, 0, None, StartOrigin::Command);
    assert!(matches!(p.dispatch(MusicCommand::SetVolume(250), 0), PlayerAction::ApplyVolume(100)));
    assert!(matches!(p.toggle_mute(), PlayerAction::ApplyVolume(0)));
    assert_eq!(p.effective_volume(), 0);
    p.cycle_visualizer_mode();
    assert_eq!(p.visualizer_mode(), VisualizerMode::Scatter.next());
    assert!(p.advance_frame());
    assert_eq!(p.visualizer_frame(), 1);
}

#[test]
fn loading_and_selection() {
    let mut p = player(vec![], RepeatMode::Off);
    let a = p.dispatch(MusicCommand::Load(vec![InputRef::Path("/music".into())]), 0);
    assert!(matches!(a, PlayerAction::BuildTracks(v) if v.len() == 1));
    p.load(vec![track(1, ProviderKind::Local), track(2, ProviderKind::Local), track(3, ProviderKind::Local)]);
    assert_eq!(p.queue_len(), 3);
    p.move_selection(5);
    assert_eq!(p.selected_index(), 2);
    p.move_selection(-1);
    assert_eq!(p.selected_index(), 1);
    assert_eq!(started_id(&p.select_and_play(9)), Some(3));
    assert_eq!(p.selected_index(), 2);
    p.url_loaded("https://nothing.example.com", vec![]);
    assert_eq!(p.last_error().as_deref(), Some("No playable tracks found at: https://nothing.example.com"));
    p.url_loaded("https://a.example.com", vec![track(4, ProviderKind::HttpStream)]);
    assert!(p.last_error().is_none());
    assert_eq!(p.queue_len(), 4);
    assert!(matches!(p.dispatch(MusicCommand::LoadUrl("https://x".into()), 0), PlayerAction::BuildUrl(u) if u == "https://x"));
}

#[test]
fn shifted_positions_stop_at_the_ends() {
    assert_eq!(shift_position(5_000, -10), 0);
    assert_eq!(shift_position(5_000, 3), 8_000);
    assert_eq!(shift_position(u64::MAX - 10, 1), u64::MAX);
    assert_eq!(shift_position(1_000, i64::MIN), 0);
}
