use timer::app::{DashboardState, KeyEffect, ModeKind, PlayerView};
use timer::cli::{initial_mode, light_bg, music_inputs, music_options, Command};
use timer::music::command_line::KeyCode;
use timer::music::config::{MusicCliOptions, MusicConfig};
use timer::music::{MusicCommand, RepeatMode};

fn player() -> PlayerView {
    PlayerView { volume: 98, repeat_mode: RepeatMode::One }
}

#[test]
fn cli_overrides_config_values() {
    let cfg = MusicConfig { shuffle: false, repeat_mode: RepeatMode::Off, volume: 12, auto_play: false };
    let cli = MusicCliOptions { shuffle: true, repeat_mode: Some(RepeatMode::All), volume: Some(64), auto_play: true };
    let merged = cfg.merge_cli(&cli);
    assert!(merged.shuffle);
    assert_eq!(merged.repeat_mode, RepeatMode::All);
    assert_eq!(merged.volume, 64);
    assert!(merged.auto_play);
}

#[test]
fn cli_without_options_keeps_config() {
    let cfg = MusicConfig { shuffle: true, repeat_mode: RepeatMode::One, volume: 30, auto_play: true };
    let cli = MusicCliOptions { shuffle: false, repeat_mode: None, volume: Some(250), auto_play: false };
    let merged = cfg.merge_cli(&cli);
    assert!(merged.shuffle);
    assert_eq!(merged.repeat_mode, RepeatMode::One);
    assert_eq!(merged.volume, 100);
    assert!(merged.auto_play);
    let d = MusicConfig::default();
    assert_eq!((d.shuffle, d.volume, d.auto_play), (false, 80, false));
}

#[test]
fn subcommands_choose_the_opening_mode() {
    assert_eq!(initial_mode(&None), ModeKind::Clock);
    assert_eq!(initial_mode(&Some(Command::Clock)), ModeKind::Clock);
    let pomodoro = Some(Command::Pomodoro { light_bg: true });
    assert_eq!(initial_mode(&pomodoro), ModeKind::Pomodoro);
    assert!(light_bg(&pomodoro));
    assert!(!light_bg(&None));
    let music = Some(Command::Music {
        inputs: vec!["/music".into()],
        shuffle: true,
        repeat: Some(RepeatMode::All),
        volume: Some(40),
        auto_play: false,
    });
    assert_eq!(initial_mode(&music), ModeKind::Music);
    assert_eq!(music_inputs(&music), &["/music".to_string()][..]);
    assert!(music_inputs(&None).is_empty());
    let o = music_options(&music);
    assert!(o.shuffle);
    assert_eq!(o.repeat_mode, Some(RepeatMode::All));
    assert_eq!(o.volume, Some(40));
    let none = music_options(&None);
    assert!(!none.shuffle && none.repeat_mode.is_none() && none.volume.is_none() && !none.auto_play);
}

#[test]
fn quit_and_tab_work_everywhere() {
    let mut s = DashboardState::new(ModeKind::Pomodoro, false);
    assert!(s.dark_bg);
    let e = s.handle_key(KeyCode::Tab, false, player());
    assert!(matches!(e, KeyEffect::Transition { from: ModeKind::Pomodoro, to: ModeKind::Music }));
    assert_eq!(s.mode, ModeKind::Music);
    s.handle_key(KeyCode::Char('q'), false, player());
    assert!(s.should_quit);
    let mut t = DashboardState::new(ModeKind::Clock, true);
    assert!(!t.dark_bg);
    t.handle_key(KeyCode::Esc, false, player());
    assert!(t.should_quit);
}

#[test]
fn arrows_switch_modes_outside_music() {
    let mut s = DashboardState::new(ModeKind::Clock, false);
    s.handle_key(KeyCode::Left, false, player());
    assert_eq!(s.mode, ModeKind::Music);
    let e = s.handle_key(KeyCode::Left, false, player());
    assert!(matches!(e, KeyEffect::Music(MusicCommand::Seek(-5))));
    assert_eq!(s.mode, ModeKind::Music);
    let e = s.handle_key(KeyCode::Right, true, player());
    assert!(matches!(e, KeyEffect::Music(MusicCommand::Seek(30))));
}

#[test]
fn pomodoro_keys() {
    let mut s = DashboardState::new(ModeKind::Pomodoro, false);
    assert!(matches!(s.handle_key(KeyCode::Char(' '), false, player()), KeyEffect::TogglePomodoro));
    assert!(matches!(s.handle_key(KeyCode::Char('r'), false, player()), KeyEffect::ResetPomodoro));
    s.handle_key(KeyCode::Char('b'), false, player());
    assert!(!s.dark_bg);
}

#[test]
fn music_keys() {
    let mut s = DashboardState::new(ModeKind::Music, false);
    assert!(matches!(s.handle_key(KeyCode::Char('+'), false, player()), KeyEffect::Music(MusicCommand::SetVolume(100))));
    assert!(matches!(s.handle_key(KeyCode::Char('-'), false, player()), KeyEffect::Music(MusicCommand::SetVolume(93))));
    assert!(matches!(
        s.handle_key(KeyCode::Char('r'), false, player()),
        KeyEffect::Music(MusicCommand::SetRepeat(RepeatMode::Off))
    ));
    assert!(matches!(s.handle_key(KeyCode::Up, false, player()), KeyEffect::MoveSelection(-1)));
    assert!(matches!(s.handle_key(KeyCode::Enter, false, player()), KeyEffect::PlaySelected));
    assert!(matches!(s.handle_key(KeyCode::Char('m'), false, player()), KeyEffect::ToggleMute));
    s.handle_key(KeyCode::Char('V'), false, player());
    s.handle_key(KeyCode::Char('Q'), false, player());
    assert!(s.music_full_visualizer && s.music_queue_overlay);
    s.handle_key(KeyCode::Tab, false, player());
    assert_eq!(s.mode, ModeKind::Clock);
    assert!(!s.music_full_visualizer && !s.music_queue_overlay);
}

#[test]
fn switching_to_the_same_mode_does_nothing() {
    let mut s = DashboardState::new(ModeKind::Music, false);
    assert!(matches!(s.switch_mode(ModeKind::Music), KeyEffect::Nothing));
    assert!(matches!(
        s.switch_mode(ModeKind::Clock),
        KeyEffect::Transition { from: ModeKind::Music, to: ModeKind::Clock }
    ));
}
