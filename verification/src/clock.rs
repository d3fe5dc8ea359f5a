//! Clock/tick controller: converts wall-clock elapsed time into discrete
//! simulation ticks at a variable rate, and the debounce timer used by the
//! input buffer. All times are in microseconds.

use vstd::prelude::*;
use crate::ACCUM_LIMIT;

verus! {

/// Microseconds in one hundred seconds; the period of a tick rate of
/// `a` hundredths of a tick per second is `PERIOD_NUMERATOR_US / a`.
pub const PERIOD_NUMERATOR_US: u64 = 100_000_000;

/// The tick period, in microseconds, of a tick rate given in hundredths
/// of a tick per second.
pub open spec fn spec_period_us_of(accum: u32) -> int {
    PERIOD_NUMERATOR_US as int / accum as int
}

/// The tick period, in microseconds, of a tick rate given in hundredths
/// of a tick per second.
pub fn period_us_of(accum: u32) -> (r: u64)
    requires
        1 <= accum <= ACCUM_LIMIT,
    ensures
        r == spec_period_us_of(accum),
        1 <= r <= PERIOD_NUMERATOR_US,
{
    proof {
        assert(1 <= PERIOD_NUMERATOR_US as int / accum as int <= PERIOD_NUMERATOR_US)
            by (nonlinear_arith)
            requires 1 <= accum <= ACCUM_LIMIT && ACCUM_LIMIT == 100_000_000
                && PERIOD_NUMERATOR_US == 100_000_000;
    }
    PERIOD_NUMERATOR_US / (accum as u64)
}

/// Accumulating timer that fires one tick whenever the elapsed time
/// crosses its period. Several periods elapsing in one frame still fire
/// only one tick: there are no catch-up bursts.
#[derive(Clone, Copy, PartialEq, Eq, Structural, Debug)]
pub struct TickTimer {
    /// Time accumulated since the last fired tick, in microseconds.
    pub elapsed_us: u64,
    /// Current tick period, in microseconds.
    pub period_us: u64,
}

impl TickTimer {
    /// A timer never holds a full period: crossing it fires and resets.
    pub open spec fn wf(self) -> bool {
        1 <= self.period_us && self.elapsed_us < self.period_us
    }

    /// A fresh timer with the given period and no accumulated time.
    pub fn new(period_us: u64) -> (r: TickTimer)
        requires
            1 <= period_us,
        ensures
            r == (TickTimer { elapsed_us: 0u64, period_us }),
            r.wf(),
    {
        TickTimer { elapsed_us: 0, period_us }
    }

    /// Whether advancing by `dt_us` crosses the period and fires a tick.
    pub open spec fn spec_fires(self, dt_us: u64) -> bool {
        self.elapsed_us + dt_us >= self.period_us
    }

    /// Advance the timer by one frame's elapsed time. Returns true when a
    /// tick fires; the accumulated time then restarts from zero, so the
    /// next tick is measured against the period current at that moment.
    pub fn advance(&mut self, dt_us: u64) -> (fired: bool)
        requires
            old(self).wf(),
        ensures
            fired == old(self).spec_fires(dt_us),
            final(self).period_us == old(self).period_us,
            final(self).elapsed_us
                == if fired { 0int } else { old(self).elapsed_us + dt_us },
            final(self).wf(),
    {
        // elapsed_us < period_us, so the subtraction cannot underflow and
        // the addition in the other branch cannot overflow.
        if dt_us >= self.period_us - self.elapsed_us {
            self.elapsed_us = 0;
            true
        } else {
            self.elapsed_us = self.elapsed_us + dt_us;
            false
        }
    }

    /// Change the period; takes effect for the tick being accumulated now.
    pub fn set_period(&mut self, period_us: u64)
        requires
            1 <= period_us,
        ensures
            final(self).period_us == period_us,
            final(self).elapsed_us
                == if old(self).elapsed_us < period_us {
                    old(self).elapsed_us as int
                } else {
                    0int
                },
            final(self).wf(),
    {
        self.period_us = period_us;
        if self.elapsed_us >= period_us {
            self.elapsed_us = 0;
        }
    }
}

/// Debounce timer for the input buffer: restarted on every new press, and
/// once a full debounce period passes without a press the buffered input
/// is considered stale. Elapsed time is capped at the period.
#[derive(Clone, Copy, PartialEq, Eq, Structural, Debug)]
pub struct DebounceTimer {
    /// Time since the last restart, in microseconds, capped at `period_us`.
    pub elapsed_us: u64,
    /// The debounce period, in microseconds.
    pub period_us: u64,
}

impl DebounceTimer {
    /// The cap keeps later additions free of overflow.
    pub open spec fn wf(self) -> bool {
        1 <= self.period_us && self.elapsed_us <= self.period_us
    }

    /// A fresh timer with the given period and no accumulated time.
    pub fn new(period_us: u64) -> (r: DebounceTimer)
        requires
            1 <= period_us,
        ensures
            r == (DebounceTimer { elapsed_us: 0u64, period_us }),
            r.wf(),
    {
        DebounceTimer { elapsed_us: 0, period_us }
    }

    /// Whether a full debounce period has passed since the last restart.
    pub open spec fn spec_lapsed(self) -> bool {
        self.elapsed_us >= self.period_us
    }

    /// Whether a full debounce period has passed since the last restart.
    pub fn lapsed(&self) -> (r: bool)
        ensures
            r == self.spec_lapsed(),
    {
        self.elapsed_us >= self.period_us
    }

    /// Advance by one frame's elapsed time, capping at the period.
    pub fn advance(&mut self, dt_us: u64)
        requires
            old(self).wf(),
        ensures
            final(self).period_us == old(self).period_us,
            final(self).elapsed_us
                == if old(self).elapsed_us + dt_us >= old(self).period_us {
                    old(self).period_us as int
                } else {
                    old(self).elapsed_us + dt_us
                },
            final(self).wf(),
    {
        if dt_us >= self.period_us - self.elapsed_us {
            self.elapsed_us = self.period_us;
        } else {
            self.elapsed_us = self.elapsed_us + dt_us;
        }
    }

    /// Restart the timer: a new press arrived.
    pub fn restart(&mut self)
        ensures
            final(self).period_us == old(self).period_us,
            final(self).elapsed_us == 0,
            old(self).wf() ==> final(self).wf(),
    {
        self.elapsed_us = 0;
    }
}

} // verus!
