//! The pomodoro timer: work sprints and breaks, paused and resumed at will.
//!
//! Instants are milliseconds on a monotonic clock; durations are milliseconds.

use vstd::prelude::*;

verus! {

/// Length of a work sprint: 25 minutes.
pub const WORK_MS: u64 = 1_500_000;

/// Length of a short break: 5 minutes.
pub const SHORT_BREAK_MS: u64 = 300_000;

/// Length of a long break: 15 minutes.
pub const LONG_BREAK_MS: u64 = 900_000;

#[derive(Debug, Clone, Copy, PartialEq, Eq, Structural)]
pub enum PhaseKind {
    Work,
    ShortBreak,
    LongBreak,
}

impl PhaseKind {
    pub open spec fn spec_label(self) -> Seq<char> {
        match self {
            PhaseKind::Work => "Focus Sprint"@,
            PhaseKind::ShortBreak => "Short Break"@,
            PhaseKind::LongBreak => "Long Break"@,
        }
    }

    pub fn label(self) -> (r: &'static str)
        ensures
            r@ == self.spec_label(),
    {
        match self {
            PhaseKind::Work => "Focus Sprint",
            PhaseKind::ShortBreak => "Short Break",
            PhaseKind::LongBreak => "Long Break",
        }
    }
}

/// What the timer shows: the phase, the time left of its full length, and its status.
#[derive(Debug, Clone, Copy)]
pub struct PomodoroSnapshot {
    pub phase: PhaseKind,
    /// Time left in the phase, in milliseconds.
    pub remaining: u64,
    /// Full length of the phase, in milliseconds.
    pub total: u64,
    pub running: bool,
    pub completed: bool,
    pub cycle: u32,
}

impl PomodoroSnapshot {
    /// The last ten seconds of a running phase, when the countdown shakes.
    pub fn is_final_sprint(&self) -> (r: bool)
        ensures
            r == (self.running && self.remaining / 1000 <= 10 && !self.completed),
    {
        self.running && self.remaining / 1000 <= 10 && !self.completed
    }

    /// The session's state as the readout names it.
    pub fn status_label(&self) -> (r: &'static str)
        ensures
            r@ == (if self.completed {
                "Completed"@
            } else if self.running {
                "Running"@
            } else {
                "Paused"@
            }),
    {
        if self.completed {
            "Completed"
        } else if self.running {
            "Running"
        } else {
            "Paused"
        }
    }
}

/// The abstract state of a pomodoro timer.
pub struct PomodoroModel {
    pub phase: PhaseKind,
    pub work: nat,
    pub short_break: nat,
    pub long_break: nat,
    pub remaining: nat,
    /// The instant at which the running phase would have started had it never been paused.
    pub started_at: Option<int>,
    pub last_tick: nat,
    pub running: bool,
    pub completed: bool,
    pub cycle: nat,
}

pub open spec fn duration_of(m: PomodoroModel, phase: PhaseKind) -> nat {
    match phase {
        PhaseKind::Work => m.work,
        PhaseKind::ShortBreak => m.short_break,
        PhaseKind::LongBreak => m.long_break,
    }
}

pub open spec fn phase_duration(m: PomodoroModel) -> nat {
    duration_of(m, m.phase)
}

/// Time elapsed at `now` since `started_at`; zero if `now` lies before it.
pub open spec fn elapsed_since(started_at: int, now: nat) -> nat {
    if now >= started_at {
        (now - started_at) as nat
    } else {
        0
    }
}

/// A freshly created timer: a full work sprint of cycle 1, not running.
pub open spec fn model_new(now: nat) -> PomodoroModel {
    PomodoroModel {
        phase: PhaseKind::Work,
        work: WORK_MS as nat,
        short_break: SHORT_BREAK_MS as nat,
        long_break: LONG_BREAK_MS as nat,
        remaining: WORK_MS as nat,
        started_at: None,
        last_tick: now,
        running: false,
        completed: false,
        cycle: 1,
    }
}

/// `update(now)`: the new state, and whether the phase completed at this update.
pub open spec fn model_update(m: PomodoroModel, now: nat) -> (PomodoroModel, bool) {
    let ticked = PomodoroModel { last_tick: now, ..m };
    if !m.running {
        (ticked, false)
    } else {
        match m.started_at {
            None => (PomodoroModel { started_at: Some(now as int), ..ticked }, false),
            Some(st) => {
                let elapsed = elapsed_since(st, now);
                let total = phase_duration(m);
                if elapsed >= total {
                    (
                        PomodoroModel {
                            remaining: 0,
                            running: false,
                            started_at: None,
                            completed: true,
                            ..ticked
                        },
                        true,
                    )
                } else {
                    (PomodoroModel { remaining: (total - elapsed) as nat, ..ticked }, false)
                }
            },
        }
    }
}

/// Starting (or resuming) keeps the time already spent in the phase.
pub open spec fn model_start(m: PomodoroModel, now: nat) -> PomodoroModel {
    let spent = if phase_duration(m) >= m.remaining {
        phase_duration(m) - m.remaining
    } else {
        0
    };
    PomodoroModel { running: true, started_at: Some(now - spent), last_tick: now, ..m }
}

/// Pausing records the time left at `now`, then stops the clock.
pub open spec fn model_pause(m: PomodoroModel, now: nat) -> PomodoroModel {
    let u = model_update(m, now).0;
    PomodoroModel { running: false, started_at: None, ..u }
}

/// Work is followed by a break, long after every fourth sprint; a break by work.
pub open spec fn model_next_phase(m: PomodoroModel) -> PhaseKind {
    match m.phase {
        PhaseKind::Work => if m.cycle % 4 == 0 {
            PhaseKind::LongBreak
        } else {
            PhaseKind::ShortBreak
        },
        _ => PhaseKind::Work,
    }
}

pub open spec fn model_advance(m: PomodoroModel, now: nat) -> PomodoroModel {
    let p = model_next_phase(m);
    PomodoroModel {
        phase: p,
        cycle: if p == PhaseKind::Work { m.cycle + 1 } else { m.cycle },
        remaining: duration_of(m, p),
        completed: false,
        running: false,
        started_at: None,
        last_tick: now,
        ..m
    }
}

pub open spec fn model_reset(m: PomodoroModel, now: nat) -> PomodoroModel {
    PomodoroModel {
        remaining: phase_duration(m),
        running: false,
        started_at: None,
        completed: false,
        last_tick: now,
        ..m
    }
}

/// Space bar: a completed phase moves on and starts; otherwise pause or resume.
pub open spec fn model_toggle(m: PomodoroModel, now: nat) -> PomodoroModel {
    if m.completed {
        model_start(model_advance(m, now), now)
    } else if m.running {
        model_pause(m, now)
    } else {
        model_start(m, now)
    }
}

/// The states that the timer's operations keep.
pub open spec fn model_wf(m: PomodoroModel) -> bool {
    &&& m.work == WORK_MS
    &&& m.short_break == SHORT_BREAK_MS
    &&& m.long_break == LONG_BREAK_MS
    &&& m.remaining <= phase_duration(m)
    &&& m.completed ==> !m.running && m.remaining == 0
    &&& !m.running ==> m.started_at is None
    &&& m.cycle >= 1
    &&& m.cycle <= u32::MAX
    &&& m.last_tick <= u64::MAX
}

#[derive(Debug)]
pub struct PomodoroState {
    phase: PhaseKind,
    work_duration: u64,
    short_break_duration: u64,
    long_break_duration: u64,
    remaining: u64,
    /// When the running phase was (re)started, and the time already spent in it then.
    running_since: Option<u64>,
    run_offset: u64,
    last_tick: u64,
    running: bool,
    completed: bool,
    cycle: u32,
}

impl View for PomodoroState {
    type V = PomodoroModel;

    closed spec fn view(&self) -> PomodoroModel {
        PomodoroModel {
            phase: self.phase,
            work: self.work_duration as nat,
            short_break: self.short_break_duration as nat,
            long_break: self.long_break_duration as nat,
            remaining: self.remaining as nat,
            started_at: match self.running_since {
                Some(s) => Some(s - self.run_offset),
                None => None,
            },
            last_tick: self.last_tick as nat,
            running: self.running,
            completed: self.completed,
            cycle: self.cycle as nat,
        }
    }
}

impl Clone for PomodoroState {
    fn clone(&self) -> (c: Self)
        ensures
            c@ == self@,
    {
        proof {
            use_type_invariant(self);
        }
        PomodoroState { ..*self }
    }
}

impl PomodoroState {
    #[verifier::type_invariant]
    closed spec fn inv(self) -> bool {
        &&& model_wf(self@)
        &&& self.run_offset <= self.work_duration + self.long_break_duration
    }

    pub fn new(now: u64) -> (s: Self)
        ensures
            s@ == model_new(now as nat),
            model_wf(s@),
    {
        PomodoroState {
            phase: PhaseKind::Work,
            work_duration: WORK_MS,
            short_break_duration: SHORT_BREAK_MS,
            long_break_duration: LONG_BREAK_MS,
            remaining: WORK_MS,
            running_since: None,
            run_offset: 0,
            last_tick: now,
            running: false,
            completed: false,
            cycle: 1,
        }
    }

    /// Advances the clock to `now`; returns whether the phase completed at this update.
    pub fn update(&mut self, now: u64) -> (done: bool)
        ensures
            (final(self)@, done) == model_update(old(self)@, now as nat),
            model_wf(final(self)@),
    {
        proof {
            use_type_invariant(&*self);
        }
        if !self.running {
            *self = PomodoroState { last_tick: now, ..*self };
            return false;
        }
        let since = match self.running_since {
            Some(s) => s,
            None => {
                *self = PomodoroState {
                    last_tick: now,
                    running_since: Some(now),
                    run_offset: 0,
                    ..*self
                };
                return false;
            },
        };
        let elapsed = self.elapsed_at(since, now);
        let total = self.phase_duration();
        if elapsed >= total {
            *self = PomodoroState {
                last_tick: now,
                remaining: 0,
                running: false,
                running_since: None,
                completed: true,
                ..*self
            };
            return true;
        }
        *self = PomodoroState { last_tick: now, remaining: total - elapsed, ..*self };
        false
    }

    /// Time spent in the running phase at `now`, saturated at `u64::MAX`.
    fn elapsed_at(&self, since: u64, now: u64) -> (e: u64)
        ensures
            e == if elapsed_since(since - self.run_offset, now as nat) <= u64::MAX {
                elapsed_since(since - self.run_offset, now as nat)
            } else {
                u64::MAX as nat
            },
    {
        if now >= since {
            (now - since).saturating_add(self.run_offset)
        } else if since - now <= self.run_offset {
            self.run_offset - (since - now)
        } else {
            0
        }
    }

    /// Space bar: starts, pauses, resumes, or moves on from a completed phase.
    pub fn toggle(&mut self, now: u64)
        requires
            old(self)@.completed && old(self)@.phase != PhaseKind::Work ==> old(self)@.cycle < u32::MAX,
        ensures
            final(self)@ == model_toggle(old(self)@, now as nat),
            model_wf(final(self)@),
    {
        proof {
            use_type_invariant(&*self);
        }
        if self.completed {
            self.advance_phase(now);
            self.start(now);
            return;
        }
        if self.running {
            self.pause(now);
        } else {
            self.start(now);
        }
    }

    /// Back to the full length of the current phase, stopped.
    pub fn reset(&mut self, now: u64)
        ensures
            final(self)@ == model_reset(old(self)@, now as nat),
            model_wf(final(self)@),
    {
        proof {
            use_type_invariant(&*self);
        }
        let full = self.phase_duration();
        *self = PomodoroState {
            remaining: full,
            running: false,
            running_since: None,
            completed: false,
            last_tick: now,
            ..*self
        };
    }

    /// Moves on to the next phase, stopped at its full length.
    pub fn advance_phase(&mut self, now: u64)
        requires
            old(self)@.phase != PhaseKind::Work ==> old(self)@.cycle < u32::MAX,
        ensures
            final(self)@ == model_advance(old(self)@, now as nat),
            model_wf(final(self)@),
    {
        proof {
            use_type_invariant(&*self);
        }
        let next = self.next_phase();
        let cycle = if next == PhaseKind::Work {
            self.cycle + 1
        } else {
            self.cycle
        };
        let full = match next {
            PhaseKind::Work => self.work_duration,
            PhaseKind::ShortBreak => self.short_break_duration,
            PhaseKind::LongBreak => self.long_break_duration,
        };
        *self = PomodoroState {
            phase: next,
            cycle,
            remaining: full,
            completed: false,
            running: false,
            running_since: None,
            last_tick: now,
            ..*self
        };
    }

    pub fn snapshot(&self) -> (s: PomodoroSnapshot)
        ensures
            s.phase == self@.phase,
            s.remaining == self@.remaining,
            s.total == phase_duration(self@),
            s.running == self@.running,
            s.completed == self@.completed,
            s.cycle == self@.cycle,
            s.remaining <= s.total,
    {
        proof {
            use_type_invariant(self);
        }
        PomodoroSnapshot {
            phase: self.phase,
            remaining: self.remaining,
            total: self.phase_duration(),
            running: self.running,
            completed: self.completed,
            cycle: self.cycle,
        }
    }

    fn start(&mut self, now: u64)
        requires
            !old(self)@.completed,
        ensures
            final(self)@ == model_start(old(self)@, now as nat),
    {
        proof {
            use_type_invariant(&*self);
        }
        let base = self.phase_duration() - self.remaining;
        *self = PomodoroState {
            running: true,
            running_since: Some(now),
            run_offset: base,
            last_tick: now,
            ..*self
        };
    }

    fn pause(&mut self, now: u64)
        ensures
            final(self)@ == model_pause(old(self)@, now as nat),
    {
        self.update(now);
        proof {
            use_type_invariant(&*self);
        }
        *self = PomodoroState { running: false, running_since: None, ..*self };
    }

    fn next_phase(&self) -> (p: PhaseKind)
        ensures
            p == model_next_phase(self@),
    {
        match self.phase {
            PhaseKind::Work => {
                if self.cycle % 4 == 0 {
                    PhaseKind::LongBreak
                } else {
                    PhaseKind::ShortBreak
                }
            },
            PhaseKind::ShortBreak | PhaseKind::LongBreak => PhaseKind::Work,
        }
    }

    fn phase_duration(&self) -> (d: u64)
        ensures
            d == phase_duration(self@),
    {
        match self.phase {
            PhaseKind::Work => self.work_duration,
            PhaseKind::ShortBreak => self.short_break_duration,
            PhaseKind::LongBreak => self.long_break_duration,
        }
    }
}

// ---------------------------------------------------------------------------
// Laws
// ---------------------------------------------------------------------------

/// Every operation keeps a well-formed timer well-formed: the time left never
/// exceeds the phase's length, a completed phase is stopped at zero, and the
/// phase lengths never change.
pub proof fn law_operations_keep_wf(m: PomodoroModel, now: nat)
    requires
        model_wf(m),
        now <= u64::MAX,
    ensures
        model_wf(model_update(m, now).0),
        model_wf(model_reset(m, now)),
        m.phase == PhaseKind::Work || m.cycle < u32::MAX ==> model_wf(model_advance(m, now)),
        !m.completed || m.phase == PhaseKind::Work || m.cycle < u32::MAX ==> model_wf(
            model_toggle(m, now),
        ),
{
}

/// Pausing and resuming loses no time: after a pause at `t1`, a resume at `t2`
/// and an update at `t3`, the time left is what it was at the pause, less the
/// time run since the resume.
pub proof fn law_pause_resume_keeps_remaining(m: PomodoroModel, t1: nat, t2: nat, t3: nat)
    requires
        model_wf(m),
        m.running,
        t2 <= t3,
        t1 <= t2,
        t2 <= u64::MAX,
        t3 - t2 < model_pause(m, t1).remaining,
    ensures
        ({
            let paused = model_toggle(m, t1);
            let resumed = model_toggle(paused, t2);
            let (after, done) = model_update(resumed, t3);
            &&& paused == model_pause(m, t1)
            &&& !paused.running
            &&& !done
            &&& after.remaining == paused.remaining - (t3 - t2)
            &&& after.running
        }),
{
    let paused = model_pause(m, t1);
    let u = model_update(m, t1).0;
    assert(model_wf(u));
}

/// A running phase left to run its full length completes: the update reports it,
/// and the timer is stopped at zero.
pub proof fn law_full_run_completes(m: PomodoroModel, t0: nat, t: nat)
    requires
        model_wf(m),
        !m.running,
        !m.completed,
        m.remaining == phase_duration(m),
        t >= t0 + phase_duration(m),
    ensures
        ({
            let (after, done) = model_update(model_toggle(m, t0), t);
            &&& done
            &&& after.completed
            &&& !after.running
            &&& after.remaining == 0
        }),
{
}

/// Every fourth work sprint is followed by a long break, the others by a short
/// one, and every break by a new work sprint of the next cycle.
pub proof fn law_phase_rotation(m: PomodoroModel, now: nat)
    requires
        model_wf(m),
        m.phase == PhaseKind::Work || m.cycle < u32::MAX,
    ensures
        m.phase == PhaseKind::Work && m.cycle % 4 == 0 ==> model_advance(m, now).phase
            == PhaseKind::LongBreak && model_advance(m, now).remaining == LONG_BREAK_MS,
        m.phase == PhaseKind::Work && m.cycle % 4 != 0 ==> model_advance(m, now).phase
            == PhaseKind::ShortBreak && model_advance(m, now).remaining == SHORT_BREAK_MS,
        m.phase != PhaseKind::Work ==> model_advance(m, now).phase == PhaseKind::Work
            && model_advance(m, now).cycle == m.cycle + 1 && model_advance(m, now).remaining
            == WORK_MS,
{
}

/// Resetting restores the full length of the current phase, stopped and not completed.
pub proof fn law_reset_restores_phase(m: PomodoroModel, now: nat)
    requires
        model_wf(m),
    ensures
        model_reset(m, now).remaining == phase_duration(m),
        model_reset(m, now).phase == m.phase,
        !model_reset(m, now).running,
        !model_reset(m, now).completed,
{
}

} // verus!
