use timer::animation::{Animator, CELEBRATION_MS, TRANSITION_MS};
use timer::app::{next_mode, next_repeat_mode, prev_mode, ModeKind};
use timer::modes::clock::{ClockMode, ClockReading};
use timer::modes::pomodoro::{PhaseKind, PomodoroState};
use timer::music::RepeatMode;

const SEC: u64 = 1_000;

#[test]
fn transition_completes_after_duration() {
    let now = 5_000u64;
    let mut animator = Animator::new();
    animator.set_animation(ModeKind::Clock, ModeKind::Pomodoro, now);
    animator.tick(now + 600);
    assert!(!animator.is_transitioning());
}

#[test]
fn transition_runs_until_its_duration() {
    let mut animator = Animator::new();
    animator.set_animation(ModeKind::Clock, ModeKind::Music, 1_000);
    animator.tick(1_000 + TRANSITION_MS - 1);
    assert!(animator.is_transitioning());
    animator.tick(1_000 + TRANSITION_MS);
    assert!(!animator.is_transitioning());
    assert_eq!(TRANSITION_MS, 520);
}

#[test]
fn celebration_ends_after_its_duration() {
    let mut animator = Animator::new();
    animator.celebrate(0);
    assert!(animator.celebration().is_some());
    animator.tick(CELEBRATION_MS);
    assert!(animator.celebration().is_none());
}

#[test]
fn pause_resume_keeps_remaining_time() {
    let now = 100 * SEC;
    let mut state = PomodoroState::new(now);
    state.toggle(now);
    state.update(now + 10 * SEC);
    let before_pause = state.snapshot().remaining;
    state.toggle(now + 10 * SEC);
    state.toggle(now + 20 * SEC);
    state.update(now + 30 * SEC);
    assert_eq!(state.snapshot().remaining, before_pause.saturating_sub(10 * SEC));
}

#[test]
fn completion_marks_phase_done() {
    let now = 100 * SEC;
    let mut state = PomodoroState::new(now);
    state.toggle(now);
    let completed = state.update(now + 25 * 60 * SEC);
    assert!(completed);
    let snapshot = state.snapshot();
    assert!(snapshot.completed);
    assert!(!snapshot.running);
    assert_eq!(snapshot.remaining, 0);
}

#[test]
fn pomodoro_starts_with_a_focus_sprint() {
    let state = PomodoroState::new(0);
    let s = state.snapshot();
    assert_eq!(s.phase, PhaseKind::Work);
    assert_eq!(s.remaining, 25 * 60 * SEC);
    assert_eq!(s.cycle, 1);
    assert!(!s.running);
    assert_eq!(PhaseKind::Work.label(), "Focus Sprint");
    assert_eq!(PhaseKind::ShortBreak.label(), "Short Break");
    assert_eq!(PhaseKind::LongBreak.label(), "Long Break");
}

#[test]
fn toggle_after_completion_moves_to_the_break() {
    let mut state = PomodoroState::new(0);
    state.toggle(0);
    state.update(25 * 60 * SEC);
    state.toggle(25 * 60 * SEC);
    let s = state.snapshot();
    assert_eq!(s.phase, PhaseKind::ShortBreak);
    assert!(s.running);
    assert_eq!(s.remaining, 5 * 60 * SEC);
}

#[test]
fn fourth_focus_sprint_earns_a_long_break() {
    let mut state = PomodoroState::new(0);
    for _ in 0..3 {
        state.advance_phase(0);
        state.advance_phase(0);
    }
    assert_eq!(state.snapshot().cycle, 4);
    assert_eq!(state.snapshot().phase, PhaseKind::Work);
    state.advance_phase(0);
    assert_eq!(state.snapshot().phase, PhaseKind::LongBreak);
    assert_eq!(state.snapshot().remaining, 15 * 60 * SEC);
}

#[test]
fn reset_restores_the_phase_length() {
    let mut state = PomodoroState::new(0);
    state.toggle(0);
    state.update(90 * SEC);
    state.reset(90 * SEC);
    let s = state.snapshot();
    assert_eq!(s.remaining, 25 * 60 * SEC);
    assert!(!s.running);
    assert!(!s.completed);
}

#[test]
fn final_sprint_is_the_last_ten_seconds() {
    let mut state = PomodoroState::new(0);
    state.toggle(0);
    state.update(25 * 60 * SEC - 11 * SEC);
    assert!(!state.snapshot().is_final_sprint());
    state.update(25 * 60 * SEC - 10 * SEC);
    assert!(state.snapshot().is_final_sprint());
}

#[test]
fn session_status_follows_the_timer() {
    let mut state = PomodoroState::new(0);
    assert_eq!(state.snapshot().status_label(), "Paused");
    state.toggle(0);
    assert_eq!(state.snapshot().status_label(), "Running");
    state.update(25 * 60 * SEC);
    assert_eq!(state.snapshot().status_label(), "Completed");
}

#[test]
fn modes_cycle_in_both_directions() {
    assert_eq!(next_mode(ModeKind::Clock), ModeKind::Pomodoro);
    assert_eq!(next_mode(ModeKind::Music), ModeKind::Clock);
    assert_eq!(prev_mode(ModeKind::Clock), ModeKind::Music);
    assert_eq!(prev_mode(next_mode(ModeKind::Pomodoro)), ModeKind::Pomodoro);
    assert_eq!(next_repeat_mode(RepeatMode::Off), RepeatMode::All);
    assert_eq!(next_repeat_mode(RepeatMode::All), RepeatMode::One);
    assert_eq!(next_repeat_mode(RepeatMode::One), RepeatMode::Off);
}

#[test]
fn clock_face_text() {
    let reading = ClockReading { hour: 12, minute: 34, second: 56, weekday: 6, month: 3, day: 8 };
    assert_eq!(ClockMode.time_text(&reading), "12:34:56");
    assert_eq!(ClockMode.date_text(&reading), "Sun, Mar 08");
    let early = ClockReading { hour: 7, minute: 5, second: 0, weekday: 0, month: 12, day: 25 };
    assert_eq!(ClockMode.time_text(&early), "07:05:00");
    assert_eq!(ClockMode.date_text(&early), "Mon, Dec 25");
}
