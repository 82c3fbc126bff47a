//! Countdown and interval timers.
//!
//! Every timed behaviour in the game — attack cooldowns, hit immunity,
//! regeneration delays, projectile lifetimes, wander retargeting, NPC spawn
//! waves — runs on one of these timers, advanced once per frame by the frame's
//! delta in milliseconds.

use vstd::prelude::*;

verus! {

/// How a timer behaves when it reaches its duration: a one-shot countdown
/// stops there, an interval timer wraps around and runs again.
#[derive(Clone, Copy, Debug, PartialEq, Eq, Structural)]
pub enum TimerMode {
    Once,
    Repeating,
}

/// Upper bound on timer durations and on a single frame delta, in
/// milliseconds. Generous (about 35 years) while keeping every sum the timer
/// forms far below `u64::MAX`.
pub const MAX_TIMER_MS: u64 = 0x10_0000_0000_0000;

/// A timer counting elapsed milliseconds toward a fixed duration.
///
/// `finished` and `just_finished` cache what the most recent [`tick`] found:
/// for a one-shot timer, `finished` stays set once the duration is reached;
/// for a repeating timer, both flags mean that the latest tick completed a
/// lap.
#[derive(Clone, Copy, Debug, PartialEq, Eq, Structural)]
pub struct GameTimer {
    pub duration_ms: u64,
    pub elapsed_ms: u64,
    pub mode: TimerMode,
    pub paused: bool,
    pub finished: bool,
    pub just_finished: bool,
}

impl GameTimer {
    /// Well-formedness: a positive, bounded duration, elapsed time within it,
    /// flags consistent with each other, and for a one-shot timer the
    /// `finished` flag exactly reflecting the elapsed time.
    pub open spec fn wf(self) -> bool {
        &&& 1 <= self.duration_ms <= MAX_TIMER_MS
        &&& self.elapsed_ms <= self.duration_ms
        &&& (self.just_finished ==> self.finished)
        &&& (self.mode == TimerMode::Once ==> (self.finished <==> self.elapsed_ms
            == self.duration_ms))
    }

    /// The timer after one tick of `delta_ms`: a paused timer does not
    /// advance; a finished one-shot timer stays as it is; otherwise the
    /// elapsed time grows, clamping at the duration for a one-shot timer and
    /// wrapping past it for a repeating one.
    pub open spec fn spec_ticked(self, delta_ms: u64) -> GameTimer {
        if self.paused {
            GameTimer {
                finished: if self.mode == TimerMode::Repeating {
                    false
                } else {
                    self.finished
                },
                just_finished: false,
                ..self
            }
        } else if self.mode == TimerMode::Once {
            if self.finished {
                GameTimer { just_finished: false, ..self }
            } else if self.elapsed_ms + delta_ms >= self.duration_ms {
                GameTimer {
                    elapsed_ms: self.duration_ms,
                    finished: true,
                    just_finished: true,
                    ..self
                }
            } else {
                GameTimer {
                    elapsed_ms: (self.elapsed_ms + delta_ms) as u64,
                    finished: false,
                    just_finished: false,
                    ..self
                }
            }
        } else {
            if self.elapsed_ms + delta_ms >= self.duration_ms {
                GameTimer {
                    elapsed_ms: ((self.elapsed_ms + delta_ms) % (self.duration_ms as int)) as u64,
                    finished: true,
                    just_finished: true,
                    ..self
                }
            } else {
                GameTimer {
                    elapsed_ms: (self.elapsed_ms + delta_ms) as u64,
                    finished: false,
                    just_finished: false,
                    ..self
                }
            }
        }
    }

    /// A fresh, running timer of the given duration and mode.
    pub fn from_millis(duration_ms: u64, mode: TimerMode) -> (r: GameTimer)
        requires
            1 <= duration_ms <= MAX_TIMER_MS,
        ensures
            r == (GameTimer {
                duration_ms,
                elapsed_ms: 0,
                mode,
                paused: false,
                finished: false,
                just_finished: false,
            }),
            r.wf(),
    {
        GameTimer {
            duration_ms,
            elapsed_ms: 0,
            mode,
            paused: false,
            finished: false,
            just_finished: false,
        }
    }

    /// Advance the timer by one frame's delta.
    pub fn tick(&mut self, delta_ms: u64)
        requires
            old(self).wf(),
            delta_ms <= MAX_TIMER_MS,
        ensures
            *final(self) == old(self).spec_ticked(delta_ms),
            final(self).wf(),
    {
        if self.paused {
            if self.mode == TimerMode::Repeating {
                self.finished = false;
            }
            self.just_finished = false;
        } else if self.mode == TimerMode::Once {
            if self.finished {
                self.just_finished = false;
            } else if delta_ms >= self.duration_ms - self.elapsed_ms {
                self.elapsed_ms = self.duration_ms;
                self.finished = true;
                self.just_finished = true;
            } else {
                self.elapsed_ms = self.elapsed_ms + delta_ms;
                self.finished = false;
                self.just_finished = false;
            }
        } else {
            let total = self.elapsed_ms + delta_ms;
            if total >= self.duration_ms {
                self.elapsed_ms = total % self.duration_ms;
                self.finished = true;
                self.just_finished = true;
            } else {
                self.elapsed_ms = total;
                self.finished = false;
                self.just_finished = false;
            }
        }
    }

    /// Whether the timer has reached its duration: permanently for a one-shot
    /// timer, for the latest tick only for a repeating one.
    pub fn finished(&self) -> (r: bool)
        ensures
            r == self.finished,
    {
        self.finished
    }

    /// Whether the latest tick is the one that reached the duration.
    pub fn just_finished(&self) -> (r: bool)
        ensures
            r == self.just_finished,
    {
        self.just_finished
    }

    /// Rewind to zero elapsed time. Leaves the paused state as it is.
    pub fn reset(&mut self)
        ensures
            *final(self) == (GameTimer {
                elapsed_ms: 0,
                finished: false,
                just_finished: false,
                ..*old(self)
            }),
            old(self).wf() ==> final(self).wf(),
    {
        self.elapsed_ms = 0;
        self.finished = false;
        self.just_finished = false;
    }

    /// Let the timer advance again on the next tick.
    pub fn unpause(&mut self)
        ensures
            *final(self) == (GameTimer { paused: false, ..*old(self) }),
            old(self).wf() ==> final(self).wf(),
    {
        self.paused = false;
    }

    /// Hold the timer: ticks no longer advance it.
    pub fn pause(&mut self)
        ensures
            *final(self) == (GameTimer { paused: true, ..*old(self) }),
            old(self).wf() ==> final(self).wf(),
    {
        self.paused = true;
    }
}

/// A finished one-shot timer never becomes unfinished by ticking: only a
/// reset rewinds it.
pub proof fn lemma_once_finished_is_stable(t: GameTimer, delta_ms: u64)
    requires
        t.wf(),
        t.mode == TimerMode::Once,
        t.finished,
    ensures
        t.spec_ticked(delta_ms).finished,
        t.spec_ticked(delta_ms).elapsed_ms == t.elapsed_ms,
{
}

/// A running one-shot timer reports `just_finished` exactly once: on the tick
/// that reaches its duration, and on no tick after it.
pub proof fn lemma_once_just_finished_once(t: GameTimer, d1: u64, d2: u64)
    requires
        t.wf(),
        t.mode == TimerMode::Once,
        !t.paused,
        t.spec_ticked(d1).just_finished,
    ensures
        !t.spec_ticked(d1).spec_ticked(d2).just_finished,
{
}

} // verus!
