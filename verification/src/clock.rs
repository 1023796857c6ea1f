//! The simulation clock: accumulates elapsed wall time and yields one
//! discrete tick per fixed period, repeating indefinitely.

use vstd::prelude::*;

verus! {

/// A repeating fixed-period timer, polled once per frame. `advance` adds
/// the frame's elapsed milliseconds; each call of `tick_ready` then fires
/// at most once, spending one period of accumulated time, so a long frame
/// spanning several periods yields several consecutive fires.
pub struct TickClock {
    pub accumulated_ms: u64,
    pub period_ms: u64,
}

impl TickClock {
    /// A clock's period is fixed at construction and positive.
    pub open spec fn wf(self) -> bool {
        self.period_ms > 0
    }

    pub fn new(period_ms: u64) -> (c: TickClock)
        requires
            period_ms > 0,
        ensures
            c.period_ms == period_ms,
            c.accumulated_ms == 0,
            c.wf(),
    {
        TickClock { accumulated_ms: 0, period_ms }
    }

    /// Accumulates `elapsed_ms` of wall time toward the next tick.
    pub fn advance(&mut self, elapsed_ms: u64)
        requires
            old(self).accumulated_ms + elapsed_ms <= u64::MAX,
        ensures
            final(self).accumulated_ms == old(self).accumulated_ms + elapsed_ms,
            final(self).period_ms == old(self).period_ms,
    {
        self.accumulated_ms = self.accumulated_ms + elapsed_ms;
    }

    /// Fires exactly when a full period has accumulated, spending that
    /// period; otherwise reports false and leaves the clock unchanged.
    pub fn tick_ready(&mut self) -> (r: bool)
        ensures
            final(self).period_ms == old(self).period_ms,
            r == (old(self).accumulated_ms >= old(self).period_ms),
            r ==> final(self).accumulated_ms == old(self).accumulated_ms - old(self).period_ms,
            !r ==> final(self).accumulated_ms == old(self).accumulated_ms,
    {
        if self.accumulated_ms >= self.period_ms {
            self.accumulated_ms = self.accumulated_ms - self.period_ms;
            true
        } else {
            false
        }
    }
}

} // verus!
