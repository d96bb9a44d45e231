use vstd::prelude::*;

verus! {

/// A countdown timer over whole milliseconds of elapsed wall-clock time.
///
/// Every entity owns one: while the entity is alive the timer paces its
/// characteristic motion, and once the entity explodes the timer is replaced
/// by a short explosion timer whose expiry marks the entity as dead.
#[derive(Clone, Copy, Debug, PartialEq, Eq, Structural)]
pub struct Timer {
    /// The interval, in milliseconds, that `reset` restarts the countdown from.
    pub duration_ms: u64,
    /// Milliseconds left before the timer fires; the timer is finished at zero.
    pub remaining_ms: u64,
}

impl Timer {
    /// The timer after `delta_ms` milliseconds have elapsed: the remaining
    /// time drops by `delta_ms`, saturating at zero.
    pub open spec fn ticked(self, delta_ms: u64) -> Timer {
        Timer { duration_ms: self.duration_ms, remaining_ms: self.remaining_ms.saturating_sub(delta_ms) }
    }

    pub open spec fn spec_finished(&self) -> bool {
        self.remaining_ms == 0
    }

    /// The timer after a `reset`: a full interval ahead again.
    pub open spec fn restarted(self) -> Timer {
        Timer { duration_ms: self.duration_ms, remaining_ms: self.duration_ms }
    }

    pub fn new(duration_ms: u64) -> (t: Timer)
        ensures
            t == (Timer { duration_ms, remaining_ms: duration_ms }),
    {
        Timer { duration_ms, remaining_ms: duration_ms }
    }

    /// Advance the countdown by `delta_ms` milliseconds.
    pub fn tick(&mut self, delta_ms: u64)
        ensures
            *final(self) == old(self).ticked(delta_ms),
    {
        self.remaining_ms = self.remaining_ms.saturating_sub(delta_ms);
    }

    /// Whether the countdown has run out.
    #[verifier::when_used_as_spec(spec_finished)]
    pub fn finished(&self) -> (r: bool)
        ensures
            r == self.spec_finished(),
    {
        self.remaining_ms == 0
    }

    /// Start a full interval over.
    pub fn reset(&mut self)
        ensures
            *final(self) == old(self).restarted(),
    {
        self.remaining_ms = self.duration_ms;
    }
}

} // verus!
