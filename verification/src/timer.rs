use vstd::prelude::*;

verus! {

/// A countdown timer over whole milliseconds.
///
/// It mirrors the engine timers the game paces itself with: a one-shot
/// timer stops once its duration has elapsed, a repeating timer starts
/// over and keeps the left-over time. `finished_this_tick` records
/// whether the last call to [`TickTimer::tick`] completed the countdown.
#[derive(Clone, Copy, PartialEq, Eq, Structural, Debug)]
pub struct TickTimer {
    pub duration_ms: u64,
    pub elapsed_ms: u64,
    pub repeating: bool,
    pub finished_this_tick: bool,
}

impl TickTimer {
    /// Elapsed time never runs past the duration; a repeating timer
    /// always keeps it strictly below.
    pub open spec fn wf(self) -> bool {
        &&& self.duration_ms > 0
        &&& (self.repeating ==> self.elapsed_ms < self.duration_ms)
        &&& (!self.repeating ==> self.elapsed_ms <= self.duration_ms)
    }

    /// The state one call to [`TickTimer::tick`] leaves behind: a one-shot
    /// timer that already ran out stays put; otherwise the elapsed time
    /// grows by `delta_ms`, completing the countdown when it reaches the
    /// duration, and a repeating timer then keeps the left-over time.
    pub open spec fn spec_tick(self, delta_ms: u64) -> TickTimer {
        if !self.repeating && self.elapsed_ms >= self.duration_ms {
            TickTimer { finished_this_tick: false, ..self }
        } else {
            let total: int = self.elapsed_ms + delta_ms;
            if total >= self.duration_ms {
                let left: int = if self.repeating {
                    total % (self.duration_ms as int)
                } else {
                    self.duration_ms as int
                };
                TickTimer { elapsed_ms: left as u64, finished_this_tick: true, ..self }
            } else {
                TickTimer { elapsed_ms: total as u64, finished_this_tick: false, ..self }
            }
        }
    }

    /// A one-shot timer is finished once it has run its full duration;
    /// a repeating timer reports only the tick on which it completed.
    pub open spec fn spec_finished(self) -> bool {
        if self.repeating {
            self.finished_this_tick
        } else {
            self.elapsed_ms >= self.duration_ms
        }
    }

    pub fn new(duration_ms: u64, repeating: bool) -> (t: Self)
        requires
            duration_ms > 0,
        ensures
            t == (TickTimer {
                duration_ms,
                elapsed_ms: 0u64,
                repeating,
                finished_this_tick: false,
            }),
            t.wf(),
    {
        TickTimer { duration_ms, elapsed_ms: 0, repeating, finished_this_tick: false }
    }

    /// Advance the timer by `delta_ms`. A one-shot timer that already ran
    /// out stays put; otherwise the elapsed time grows, completing the
    /// countdown when it reaches the duration.
    pub fn tick(&mut self, delta_ms: u64)
        requires
            old(self).wf(),
            old(self).elapsed_ms + delta_ms <= u64::MAX,
        ensures
            *final(self) == old(self).spec_tick(delta_ms),
            final(self).wf(),
    {
        if !self.repeating && self.elapsed_ms >= self.duration_ms {
            self.finished_this_tick = false;
            return ;
        }
        let total: u64 = self.elapsed_ms + delta_ms;
        if total >= self.duration_ms {
            self.finished_this_tick = true;
            if self.repeating {
                self.elapsed_ms = total % self.duration_ms;
            } else {
                self.elapsed_ms = self.duration_ms;
            }
        } else {
            self.elapsed_ms = total;
            self.finished_this_tick = false;
        }
    }

    pub fn finished(&self) -> (r: bool)
        ensures
            r == self.spec_finished(),
    {
        if self.repeating {
            self.finished_this_tick
        } else {
            self.elapsed_ms >= self.duration_ms
        }
    }

    pub fn just_finished(&self) -> (r: bool)
        ensures
            r == self.finished_this_tick,
    {
        self.finished_this_tick
    }

    /// Start the countdown over, as the towers do after every shot.
    pub fn reset(&mut self)
        ensures
            final(self).duration_ms == old(self).duration_ms,
            final(self).repeating == old(self).repeating,
            final(self).elapsed_ms == 0,
            !final(self).finished_this_tick,
            old(self).wf() ==> final(self).wf(),
    {
        self.elapsed_ms = 0;
        self.finished_this_tick = false;
    }
}

} // verus!
