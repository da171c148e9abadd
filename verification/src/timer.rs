//! Repeating timers that drive spawning, level-ups and sprite animation.
//!
//! A timer advances by the frame delta each tick.  When the accumulated
//! time reaches the period, the elapsed time resets to zero and the timer
//! reports itself finished until the next tick; one tick finishes a timer
//! at most once, however large the delta.

use vstd::prelude::*;

verus! {

/// Largest frame delta the simulation accepts, in milliseconds.
pub const DT_MAX: u64 = 1_000_000;

/// Largest timer period, in milliseconds.
pub const PERIOD_MAX: u64 = 1_000_000_000;

/// A repeating countdown over milliseconds.
#[derive(Clone, Copy, PartialEq, Eq, Structural, Debug)]
pub struct Timer {
    /// Full period of one repetition, in milliseconds.
    pub period_ms: u64,
    /// Time accumulated since the last repetition, in milliseconds.
    pub elapsed_ms: u64,
    /// Whether the period elapsed during the most recent tick.
    pub finished: bool,
}

impl Timer {
    /// A timer is well formed when its period is positive and bounded and
    /// its elapsed time has not yet reached the period.
    pub open spec fn wf(self) -> bool {
        &&& 1 <= self.period_ms <= PERIOD_MAX
        &&& self.elapsed_ms < self.period_ms
    }

    /// The timer after one tick of `dt` milliseconds.
    pub open spec fn ticked(self, dt: u64) -> Timer {
        if self.elapsed_ms + dt >= self.period_ms {
            Timer { elapsed_ms: 0, finished: true, ..self }
        } else {
            Timer { elapsed_ms: (self.elapsed_ms + dt) as u64, finished: false, ..self }
        }
    }

    /// A fresh timer that has not yet run.
    pub fn new(period_ms: u64) -> (r: Timer)
        requires
            1 <= period_ms <= PERIOD_MAX,
        ensures
            r == (Timer { period_ms, elapsed_ms: 0, finished: false }),
            r.wf(),
    {
        Timer { period_ms, elapsed_ms: 0, finished: false }
    }

    /// Advances the timer by `dt` milliseconds.  On reaching the period the
    /// elapsed time wraps to zero and the timer reports finished.
    pub fn tick(&mut self, dt: u64)
        requires
            old(self).wf(),
            dt <= DT_MAX,
        ensures
            *final(self) == old(self).ticked(dt),
            final(self).wf(),
    {
        let accumulated: u64 = self.elapsed_ms + dt;
        if accumulated >= self.period_ms {
            self.elapsed_ms = 0;
            self.finished = true;
        } else {
            self.elapsed_ms = accumulated;
            self.finished = false;
        }
    }
}

/// Number of frames in every sprite animation strip.
pub const ANIMATION_FRAME_COUNT: u32 = 4;

/// Period of one animation frame, in milliseconds (an eighth of a second).
pub const ANIMATION_PERIOD_MS: u64 = 125;

/// Drives a looping sprite animation: a repeating timer and the index of
/// the frame currently shown.
#[derive(Clone, Copy, PartialEq, Eq, Structural, Debug)]
pub struct AnimationTimer {
    pub timer: Timer,
    pub frame: u32,
}

impl AnimationTimer {
    pub open spec fn wf(self) -> bool {
        &&& self.timer.wf()
        &&& self.frame < ANIMATION_FRAME_COUNT
    }

    /// A fresh animation starting at the first frame.
    pub fn new() -> (r: AnimationTimer)
        ensures
            r == (AnimationTimer {
                timer: Timer { period_ms: ANIMATION_PERIOD_MS, elapsed_ms: 0, finished: false },
                frame: 0,
            }),
            r.wf(),
    {
        AnimationTimer { timer: Timer::new(ANIMATION_PERIOD_MS), frame: 0 }
    }

    /// The animation after one tick: the timer advances, and each time it
    /// finishes the frame index steps forward, wrapping around the strip.
    pub open spec fn ticked(self, dt: u64) -> AnimationTimer {
        let t = self.timer.ticked(dt);
        if t.finished {
            AnimationTimer { timer: t, frame: ((self.frame + 1) % (ANIMATION_FRAME_COUNT as int)) as u32 }
        } else {
            AnimationTimer { timer: t, frame: self.frame }
        }
    }

    /// Advances the animation by `dt` milliseconds.
    pub fn tick(&mut self, dt: u64)
        requires
            old(self).wf(),
            dt <= DT_MAX,
        ensures
            *final(self) == old(self).ticked(dt),
            final(self).wf(),
    {
        self.timer.tick(dt);
        if self.timer.finished {
            self.frame = (self.frame + 1) % ANIMATION_FRAME_COUNT;
        }
    }
}

} // verus!
