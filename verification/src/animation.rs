//! Short animations of the clock sprite: the switch between modes and the
//! celebration when a pomodoro phase completes.

use vstd::prelude::*;

use crate::app::ModeKind;

verus! {

/// Length of a mode switch animation, in milliseconds.
pub const TRANSITION_MS: u64 = 520;

/// Length of the celebration, in milliseconds.
pub const CELEBRATION_MS: u64 = 900;

#[derive(Debug, Clone, Copy)]
pub struct Transition {
    pub from: ModeKind,
    pub to: ModeKind,
    /// Milliseconds on the monotonic clock.
    pub started_at: u64,
    /// Milliseconds.
    pub duration: u64,
}

#[derive(Debug, Clone, Copy)]
pub struct Celebration {
    pub started_at: u64,
    pub duration: u64,
}

/// `Instant::duration_since`: zero when `now` lies before `start`.
pub open spec fn spec_elapsed(now: u64, start: u64) -> nat {
    if now >= start {
        (now - start) as nat
    } else {
        0
    }
}

/// An animation is over once its full duration has elapsed.
pub open spec fn spec_finished(now: u64, started_at: u64, duration: u64) -> bool {
    spec_elapsed(now, started_at) >= duration
}

#[derive(Debug)]
pub struct Animator {
    transition: Option<Transition>,
    celebration: Option<Celebration>,
}

impl Animator {
    pub closed spec fn spec_transition(&self) -> Option<Transition> {
        self.transition
    }

    pub closed spec fn spec_celebration(&self) -> Option<Celebration> {
        self.celebration
    }

    pub fn new() -> (a: Self)
        ensures
            a.spec_transition() is None,
            a.spec_celebration() is None,
    {
        Animator { transition: None, celebration: None }
    }

    /// Starts the switch animation from `from` to `to`.
    pub fn set_animation(&mut self, from: ModeKind, to: ModeKind, now: u64)
        ensures
            final(self).spec_transition() == Some(
                Transition { from, to, started_at: now, duration: TRANSITION_MS },
            ),
            final(self).spec_celebration() == old(self).spec_celebration(),
    {
        self.transition = Some(Transition { from, to, started_at: now, duration: TRANSITION_MS });
    }

    /// Starts the celebration.
    pub fn celebrate(&mut self, now: u64)
        ensures
            final(self).spec_celebration() == Some(
                Celebration { started_at: now, duration: CELEBRATION_MS },
            ),
            final(self).spec_transition() == old(self).spec_transition(),
    {
        self.celebration = Some(Celebration { started_at: now, duration: CELEBRATION_MS });
    }

    /// Drops the animations that are over at `now`.
    pub fn tick(&mut self, now: u64)
        ensures
            final(self).spec_transition() == match old(self).spec_transition() {
                Some(t) => if spec_finished(now, t.started_at, t.duration) {
                    None
                } else {
                    Some(t)
                },
                None => None,
            },
            final(self).spec_celebration() == match old(self).spec_celebration() {
                Some(c) => if spec_finished(now, c.started_at, c.duration) {
                    None
                } else {
                    Some(c)
                },
                None => None,
            },
    {
        if let Some(transition) = self.transition {
            if elapsed_ms(now, transition.started_at) >= transition.duration {
                self.transition = None;
            }
        }
        if let Some(celebration) = self.celebration {
            if elapsed_ms(now, celebration.started_at) >= celebration.duration {
                self.celebration = None;
            }
        }
    }

    pub fn is_transitioning(&self) -> (r: bool)
        ensures
            r == self.spec_transition() is Some,
    {
        self.transition.is_some()
    }

    /// The running switch animation, if any.
    pub fn transition(&self) -> (r: Option<Transition>)
        ensures
            r == self.spec_transition(),
    {
        self.transition
    }

    /// The running celebration, if any.
    pub fn celebration(&self) -> (r: Option<Celebration>)
        ensures
            r == self.spec_celebration(),
    {
        self.celebration
    }
}

impl Default for Animator {
    fn default() -> (a: Self)
        ensures
            a.spec_transition() is None,
            a.spec_celebration() is None,
    {
        Self::new()
    }
}

/// Milliseconds from `start` to `now`, zero when `now` lies before `start`.
pub fn elapsed_ms(now: u64, start: u64) -> (r: u64)
    ensures
        r == spec_elapsed(now, start),
{
    if now >= start {
        now - start
    } else {
        0
    }
}

/// A mode switch animation runs for exactly its duration: a tick before then keeps
/// it, a tick at or after the end removes it.
pub proof fn law_transition_lasts_its_duration(t: Transition, now: u64)
    requires
        t.duration == TRANSITION_MS,
        now >= t.started_at,
    ensures
        spec_finished(now, t.started_at, t.duration) <==> now - t.started_at >= TRANSITION_MS,
{
}

} // verus!
