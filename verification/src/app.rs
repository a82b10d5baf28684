//! The dashboard's modes and the order in which the keyboard cycles through them.

use vstd::prelude::*;

use crate::modes::{clock::ClockMode, pomodoro::{model_update, model_wf, PomodoroState}};
use crate::music::command_line::KeyCode;
use crate::music::{MusicCommand, RepeatMode};

verus! {

#[derive(Debug, Clone, Copy, PartialEq, Eq, Structural)]
pub enum ModeKind {
    Clock,
    Pomodoro,
    Music,
}

/// A mode that advances with the clock (milliseconds on a monotonic clock).
pub trait Mode {
    fn update(&mut self, now: u64) {
    }
}

impl Mode for ClockMode {

}

impl Mode for PomodoroState {
    /// Runs the timer up to `now`, as `PomodoroState::update` does.
    fn update(&mut self, now: u64)
        ensures
            final(self)@ == model_update(old(self)@, now as nat).0,
            model_wf(final(self)@),
    {
        PomodoroState::update(self, now);
    }
}

pub open spec fn spec_next_mode(mode: ModeKind) -> ModeKind {
    match mode {
        ModeKind::Clock => ModeKind::Pomodoro,
        ModeKind::Pomodoro => ModeKind::Music,
        ModeKind::Music => ModeKind::Clock,
    }
}

pub open spec fn spec_prev_mode(mode: ModeKind) -> ModeKind {
    match mode {
        ModeKind::Clock => ModeKind::Music,
        ModeKind::Pomodoro => ModeKind::Clock,
        ModeKind::Music => ModeKind::Pomodoro,
    }
}

pub open spec fn spec_next_repeat_mode(mode: RepeatMode) -> RepeatMode {
    match mode {
        RepeatMode::Off => RepeatMode::All,
        RepeatMode::All => RepeatMode::One,
        RepeatMode::One => RepeatMode::Off,
    }
}

/// Tab and the right arrow: Clock, Pomodoro, Music, and back to Clock.
pub fn next_mode(mode: ModeKind) -> (r: ModeKind)
    ensures
        r == spec_next_mode(mode),
{
    match mode {
        ModeKind::Clock => ModeKind::Pomodoro,
        ModeKind::Pomodoro => ModeKind::Music,
        ModeKind::Music => ModeKind::Clock,
    }
}

/// The left arrow: the reverse order.
pub fn prev_mode(mode: ModeKind) -> (r: ModeKind)
    ensures
        r == spec_prev_mode(mode),
{
    match mode {
        ModeKind::Clock => ModeKind::Music,
        ModeKind::Pomodoro => ModeKind::Clock,
        ModeKind::Music => ModeKind::Pomodoro,
    }
}

/// The `r` key in music mode: Off, All, One, and back to Off.
pub fn next_repeat_mode(mode: RepeatMode) -> (r: RepeatMode)
    ensures
        r == spec_next_repeat_mode(mode),
{
    match mode {
        RepeatMode::Off => RepeatMode::All,
        RepeatMode::All => RepeatMode::One,
        RepeatMode::One => RepeatMode::Off,
    }
}

/// Left undoes right: the previous mode of the next mode is the mode itself, and
/// the other way round.
pub proof fn law_prev_undoes_next(m: ModeKind)
    ensures
        spec_prev_mode(spec_next_mode(m)) == m,
        spec_next_mode(spec_prev_mode(m)) == m,
{
}

/// Three presses of Tab come back to the same mode, and one or two never do.
pub proof fn law_mode_cycle(m: ModeKind)
    ensures
        spec_next_mode(spec_next_mode(spec_next_mode(m))) == m,
        spec_next_mode(m) != m,
        spec_next_mode(spec_next_mode(m)) != m,
{
}

/// Three presses of the repeat key come back to the same repeat mode, visiting all three.
pub proof fn law_repeat_cycle(m: RepeatMode)
    ensures
        spec_next_repeat_mode(spec_next_repeat_mode(spec_next_repeat_mode(m))) == m,
        spec_next_repeat_mode(m) != m,
        spec_next_repeat_mode(spec_next_repeat_mode(m)) != m,
{
}

/// The dashboard's own state: the mode shown, the music view's overlays, the background
/// and whether the user asked to quit.
#[derive(Debug, Clone, Copy, PartialEq, Eq, Structural)]
pub struct DashboardState {
    pub mode: ModeKind,
    pub music_full_visualizer: bool,
    pub music_queue_overlay: bool,
    pub dark_bg: bool,
    pub should_quit: bool,
}

/// What a key press asks of the other parts of the program.
#[derive(Debug, Clone)]
pub enum KeyEffect {
    Nothing,
    /// The mode changed: animate from one to the other.
    Transition { from: ModeKind, to: ModeKind },
    TogglePomodoro,
    ResetPomodoro,
    Music(MusicCommand),
    ToggleMute,
    CycleVisualizer,
    MoveSelection(i64),
    PlaySelected,
}

/// What the player shows, as far as the keys need it.
#[derive(Debug, Clone, Copy)]
pub struct PlayerView {
    pub volume: u8,
    pub repeat_mode: RepeatMode,
}

/// The state after switching to `target`, and the transition to animate; switching to
/// the mode already shown does nothing. Leaving the music mode closes its overlays.
pub open spec fn spec_switch_mode(s: DashboardState, target: ModeKind) -> (DashboardState, KeyEffect) {
    if s.mode == target {
        (s, KeyEffect::Nothing)
    } else if target != ModeKind::Music {
        (
            DashboardState {
                mode: target,
                music_full_visualizer: false,
                music_queue_overlay: false,
                ..s
            },
            KeyEffect::Transition { from: s.mode, to: target },
        )
    } else {
        (DashboardState { mode: target, ..s }, KeyEffect::Transition { from: s.mode, to: target })
    }
}

/// `v + 5`, at most 100.
pub open spec fn volume_up(v: u8) -> u8 {
    if v + 5 > 100 {
        100
    } else {
        (v + 5) as u8
    }
}

/// `v - 5`, at least 0.
pub open spec fn volume_down(v: u8) -> u8 {
    if v >= 5 {
        (v - 5) as u8
    } else {
        0
    }
}

/// The music mode's keys.
pub open spec fn spec_music_key(
    s: DashboardState,
    code: KeyCode,
    shift: bool,
    player: PlayerView,
) -> (DashboardState, KeyEffect) {
    match code {
        KeyCode::Char(' ') => (s, KeyEffect::Music(MusicCommand::Toggle)),
        KeyCode::Char('n') => (s, KeyEffect::Music(MusicCommand::Next)),
        KeyCode::Char('p') => (s, KeyEffect::Music(MusicCommand::Prev)),
        KeyCode::Char('s') => (s, KeyEffect::Music(MusicCommand::ToggleShuffle)),
        KeyCode::Char('m') => (s, KeyEffect::ToggleMute),
        KeyCode::Char('v') => (s, KeyEffect::CycleVisualizer),
        KeyCode::Char('V') => (
            DashboardState { music_full_visualizer: !s.music_full_visualizer, ..s },
            KeyEffect::Nothing,
        ),
        KeyCode::Char('Q') => (
            DashboardState { music_queue_overlay: !s.music_queue_overlay, ..s },
            KeyEffect::Nothing,
        ),
        KeyCode::Char('+') | KeyCode::Char('=') => (
            s,
            KeyEffect::Music(MusicCommand::SetVolume(volume_up(player.volume))),
        ),
        KeyCode::Char('-') => (
            s,
            KeyEffect::Music(MusicCommand::SetVolume(volume_down(player.volume))),
        ),
        KeyCode::Right => (s, KeyEffect::Music(MusicCommand::Seek(if shift { 30i64 } else { 5i64 }))),
        KeyCode::Left => (s, KeyEffect::Music(MusicCommand::Seek(if shift { -30i64 } else { -5i64 }))),
        KeyCode::Up => (s, KeyEffect::MoveSelection(-1i64)),
        KeyCode::Down => (s, KeyEffect::MoveSelection(1i64)),
        KeyCode::Enter => (s, KeyEffect::PlaySelected),
        KeyCode::Char('r') => (
            s,
            KeyEffect::Music(MusicCommand::SetRepeat(spec_next_repeat_mode(player.repeat_mode))),
        ),
        _ => (s, KeyEffect::Nothing),
    }
}

/// A key press: `q` and Esc quit and Tab cycles the modes from anywhere; the arrows
/// switch modes in the clock and pomodoro modes; the other keys belong to the mode shown.
pub open spec fn spec_handle_key(
    s: DashboardState,
    code: KeyCode,
    shift: bool,
    player: PlayerView,
) -> (DashboardState, KeyEffect) {
    match code {
        KeyCode::Char('q') | KeyCode::Esc => (
            DashboardState { should_quit: true, ..s },
            KeyEffect::Nothing,
        ),
        KeyCode::Tab => spec_switch_mode(s, spec_next_mode(s.mode)),
        _ => match s.mode {
            ModeKind::Clock => match code {
                KeyCode::Right => spec_switch_mode(s, spec_next_mode(s.mode)),
                KeyCode::Left => spec_switch_mode(s, spec_prev_mode(s.mode)),
                _ => (s, KeyEffect::Nothing),
            },
            ModeKind::Pomodoro => match code {
                KeyCode::Right => spec_switch_mode(s, spec_next_mode(s.mode)),
                KeyCode::Left => spec_switch_mode(s, spec_prev_mode(s.mode)),
                KeyCode::Char(' ') => (s, KeyEffect::TogglePomodoro),
                KeyCode::Char('r') => (s, KeyEffect::ResetPomodoro),
                KeyCode::Char('b') => (DashboardState { dark_bg: !s.dark_bg, ..s }, KeyEffect::Nothing),
                _ => (s, KeyEffect::Nothing),
            },
            ModeKind::Music => spec_music_key(s, code, shift, player),
        },
    }
}

impl DashboardState {
    /// The dashboard as it opens: in `mode`, overlays closed, on a dark background unless
    /// a light one was asked for.
    pub fn new(mode: ModeKind, light_bg: bool) -> (s: Self)
        ensures
            s == (DashboardState {
                mode,
                music_full_visualizer: false,
                music_queue_overlay: false,
                dark_bg: !light_bg,
                should_quit: false,
            }),
    {
        DashboardState {
            mode,
            music_full_visualizer: false,
            music_queue_overlay: false,
            dark_bg: !light_bg,
            should_quit: false,
        }
    }

    /// Shows `target`; returns the transition to animate, if the mode changed.
    pub fn switch_mode(&mut self, target: ModeKind) -> (e: KeyEffect)
        ensures
            (*final(self), e) == spec_switch_mode(*old(self), target),
    {
        if self.mode == target {
            return KeyEffect::Nothing;
        }
        let from = self.mode;
        self.mode = target;
        if target != ModeKind::Music {
            self.music_full_visualizer = false;
            self.music_queue_overlay = false;
        }
        KeyEffect::Transition { from, to: target }
    }

    fn handle_music_key(&mut self, code: KeyCode, shift: bool, player: PlayerView) -> (e: KeyEffect)
        ensures
            (*final(self), e) == spec_music_key(*old(self), code, shift, player),
    {
        match code {
            KeyCode::Char(' ') => KeyEffect::Music(MusicCommand::Toggle),
            KeyCode::Char('n') => KeyEffect::Music(MusicCommand::Next),
            KeyCode::Char('p') => KeyEffect::Music(MusicCommand::Prev),
            KeyCode::Char('s') => KeyEffect::Music(MusicCommand::ToggleShuffle),
            KeyCode::Char('m') => KeyEffect::ToggleMute,
            KeyCode::Char('v') => KeyEffect::CycleVisualizer,
            KeyCode::Char('V') => {
                self.music_full_visualizer = !self.music_full_visualizer;
                KeyEffect::Nothing
            },
            KeyCode::Char('Q') => {
                self.music_queue_overlay = !self.music_queue_overlay;
                KeyEffect::Nothing
            },
            KeyCode::Char('+') | KeyCode::Char('=') => {
                let volume = if player.volume > 95 {
                    100
                } else {
                    player.volume + 5
                };
                KeyEffect::Music(MusicCommand::SetVolume(volume))
            },
            KeyCode::Char('-') => {
                let volume = if player.volume >= 5 {
                    player.volume - 5
                } else {
                    0
                };
                KeyEffect::Music(MusicCommand::SetVolume(volume))
            },
            KeyCode::Right => KeyEffect::Music(MusicCommand::Seek(if shift { 30 } else { 5 })),
            KeyCode::Left => KeyEffect::Music(MusicCommand::Seek(if shift { -30 } else { -5 })),
            KeyCode::Up => KeyEffect::MoveSelection(-1),
            KeyCode::Down => KeyEffect::MoveSelection(1),
            KeyCode::Enter => KeyEffect::PlaySelected,
            KeyCode::Char('r') => KeyEffect::Music(
                MusicCommand::SetRepeat(next_repeat_mode(player.repeat_mode)),
            ),
            _ => KeyEffect::Nothing,
        }
    }

    /// Handles one key press (`shift` tells whether Shift was held).
    pub fn handle_key(&mut self, code: KeyCode, shift: bool, player: PlayerView) -> (e: KeyEffect)
        ensures
            (*final(self), e) == spec_handle_key(*old(self), code, shift, player),
    {
        match code {
            KeyCode::Char('q') | KeyCode::Esc => {
                self.should_quit = true;
                return KeyEffect::Nothing;
            },
            KeyCode::Tab => {
                return self.switch_mode(next_mode(self.mode));
            },
            _ => {},
        }
        match self.mode {
            ModeKind::Clock => match code {
                KeyCode::Right => self.switch_mode(next_mode(self.mode)),
                KeyCode::Left => self.switch_mode(prev_mode(self.mode)),
                _ => KeyEffect::Nothing,
            },
            ModeKind::Pomodoro => match code {
                KeyCode::Right => self.switch_mode(next_mode(self.mode)),
                KeyCode::Left => self.switch_mode(prev_mode(self.mode)),
                KeyCode::Char(' ') => KeyEffect::TogglePomodoro,
                KeyCode::Char('r') => KeyEffect::ResetPomodoro,
                KeyCode::Char('b') => {
                    self.dark_bg = !self.dark_bg;
                    KeyEffect::Nothing
                },
                _ => KeyEffect::Nothing,
            },
            ModeKind::Music => self.handle_music_key(code, shift, player),
        }
    }
}

/// Quitting is always possible: `q` and Esc set the quit flag from every mode and change
/// nothing else.
pub proof fn law_quit_from_anywhere(s: DashboardState, shift: bool, player: PlayerView)
    ensures
        spec_handle_key(s, KeyCode::Esc, shift, player).0 == (DashboardState {
            should_quit: true,
            ..s
        }),
        spec_handle_key(s, KeyCode::Char('q'), shift, player).0 == (DashboardState {
            should_quit: true,
            ..s
        }),
{
}

/// Tab always moves on to the next mode and asks for the transition to be animated;
/// the music overlays never stay open outside the music mode.
pub proof fn law_tab_cycles_modes(s: DashboardState, shift: bool, player: PlayerView)
    requires
        s.mode != ModeKind::Music ==> !s.music_full_visualizer && !s.music_queue_overlay,
    ensures
        ({
            let (t, e) = spec_handle_key(s, KeyCode::Tab, shift, player);
            &&& t.mode == spec_next_mode(s.mode)
            &&& e == KeyEffect::Transition { from: s.mode, to: spec_next_mode(s.mode) }
            &&& t.mode != ModeKind::Music ==> !t.music_full_visualizer && !t.music_queue_overlay
        }),
{
}

/// Every key keeps the music overlays closed outside the music mode.
pub proof fn law_overlays_only_in_music(
    s: DashboardState,
    code: KeyCode,
    shift: bool,
    player: PlayerView,
)
    requires
        s.mode != ModeKind::Music ==> !s.music_full_visualizer && !s.music_queue_overlay,
    ensures
        ({
            let t = spec_handle_key(s, code, shift, player).0;
            t.mode != ModeKind::Music ==> !t.music_full_visualizer && !t.music_queue_overlay
        }),
{
}

/// The volume keys keep the volume within 0 to 100, and up then down comes back to the
/// same volume below 96.
pub proof fn law_volume_keys(v: u8)
    requires
        v <= 100,
    ensures
        volume_up(v) <= 100,
        volume_down(v) <= 100,
        v <= 95 ==> volume_down(volume_up(v)) == v,
{
}

/// In the music mode the transport keys drive the player and leave the dashboard as it
/// is: `n` skips to the next track, `p` goes back to the previous one, Space plays or
/// pauses, `s` toggles shuffle, and the arrows seek 5 s (30 s with Shift) forward or back.
pub proof fn law_music_transport_keys(s: DashboardState, shift: bool, player: PlayerView)
    requires
        s.mode == ModeKind::Music,
    ensures
        spec_handle_key(s, KeyCode::Char('n'), shift, player) == (s, KeyEffect::Music(MusicCommand::Next)),
        spec_handle_key(s, KeyCode::Char('p'), shift, player) == (s, KeyEffect::Music(MusicCommand::Prev)),
        spec_handle_key(s, KeyCode::Char(' '), shift, player) == (s, KeyEffect::Music(MusicCommand::Toggle)),
        spec_handle_key(s, KeyCode::Char('s'), shift, player) == (
            s,
            KeyEffect::Music(MusicCommand::ToggleShuffle),
        ),
        spec_handle_key(s, KeyCode::Right, shift, player) == (
            s,
            KeyEffect::Music(MusicCommand::Seek(if shift { 30i64 } else { 5i64 })),
        ),
        spec_handle_key(s, KeyCode::Left, shift, player) == (
            s,
            KeyEffect::Music(MusicCommand::Seek(if shift { -30i64 } else { -5i64 })),
        ),
{
}

/// In the music mode the other keys: `m` mutes, `v` cycles the visualizer, `V` and `Q`
/// toggle the full-screen visualizer and the queue overlay (and nothing else), Up and
/// Down move the selection by one, Enter plays the selection, and `r` asks for the next
/// repeat mode.
pub proof fn law_music_view_keys(s: DashboardState, shift: bool, player: PlayerView)
    requires
        s.mode == ModeKind::Music,
    ensures
        spec_handle_key(s, KeyCode::Char('m'), shift, player) == (s, KeyEffect::ToggleMute),
        spec_handle_key(s, KeyCode::Char('v'), shift, player) == (s, KeyEffect::CycleVisualizer),
        spec_handle_key(s, KeyCode::Char('V'), shift, player) == (
            DashboardState { music_full_visualizer: !s.music_full_visualizer, ..s },
            KeyEffect::Nothing,
        ),
        spec_handle_key(s, KeyCode::Char('Q'), shift, player) == (
            DashboardState { music_queue_overlay: !s.music_queue_overlay, ..s },
            KeyEffect::Nothing,
        ),
        spec_handle_key(s, KeyCode::Up, shift, player) == (s, KeyEffect::MoveSelection(-1i64)),
        spec_handle_key(s, KeyCode::Down, shift, player) == (s, KeyEffect::MoveSelection(1i64)),
        spec_handle_key(s, KeyCode::Enter, shift, player) == (s, KeyEffect::PlaySelected),
        spec_handle_key(s, KeyCode::Char('r'), shift, player) == (
            s,
            KeyEffect::Music(MusicCommand::SetRepeat(spec_next_repeat_mode(player.repeat_mode))),
        ),
{
}

} // verus!
