use vstd::prelude::*;

verus! {

/// Whether a gate holding `acc` with threshold `period` fires when advanced by `delta`.
pub open spec fn gate_fires(acc: int, period: int, delta: int) -> bool {
    acc + delta > period
}

/// What a gate holding `acc` holds after being advanced by `delta`: one period is
/// taken off when it fires, and any excess is carried over.
pub open spec fn gate_next(acc: int, period: int, delta: int) -> int {
    if gate_fires(acc, period, delta) {
        acc + delta - period
    } else {
        acc + delta
    }
}

/// A timer that accumulates elapsed time on each tick and fires, at most once per
/// tick, when the total passes the period.
pub struct ThrottleGate {
    accumulated: u64,
    period: u64,
}

impl ThrottleGate {
    pub closed spec fn spec_accumulated(&self) -> u64 {
        self.accumulated
    }

    pub closed spec fn spec_period(&self) -> u64 {
        self.period
    }

    pub fn new(period: u64) -> (r: Self)
        ensures
            r.spec_accumulated() == 0,
            r.spec_period() == period,
    {
        ThrottleGate { accumulated: 0, period }
    }

    pub fn accumulated(&self) -> (r: u64)
        ensures
            r == self.spec_accumulated(),
    {
        self.accumulated
    }

    pub fn period(&self) -> (r: u64)
        ensures
            r == self.spec_period(),
    {
        self.period
    }

    /// Whether `advance(delta)` can add `delta` without leaving the range of `u64`.
    pub fn can_advance(&self, delta: u64) -> (r: bool)
        ensures
            r == (self.spec_accumulated() + delta <= u64::MAX),
    {
        delta <= u64::MAX - self.accumulated
    }

    /// Adds `delta`; if the total passes the period, takes one period off and
    /// returns true.
    pub fn advance(&mut self, delta: u64) -> (fired: bool)
        requires
            old(self).spec_accumulated() + delta <= u64::MAX,
        ensures
            fired == gate_fires(
                old(self).spec_accumulated() as int,
                old(self).spec_period() as int,
                delta as int,
            ),
            final(self).spec_accumulated() == gate_next(
                old(self).spec_accumulated() as int,
                old(self).spec_period() as int,
                delta as int,
            ),
            final(self).spec_period() == old(self).spec_period(),
    {
        self.accumulated = self.accumulated + delta;
        if self.accumulated > self.period {
            self.accumulated = self.accumulated - self.period;
            true
        } else {
            false
        }
    }
}

/// A fresh gate advanced by `period - eps` does not fire. Advanced then by `2 * eps`,
/// which passes the threshold, it fires, and keeps as excess all that was advanced
/// less one period. That excess counts toward the next firing.
pub proof fn lemma_fires_once_keeping_excess(period: int, eps: int, d: int)
    requires
        0 < eps <= period,
        d >= 0,
    ensures
        !gate_fires(0, period, period - eps),
        gate_next(0, period, period - eps) == period - eps,
        gate_fires(period - eps, period, 2 * eps),
        gate_next(period - eps, period, 2 * eps) == (period - eps) + 2 * eps - period,
        gate_next(period - eps, period, 2 * eps) == eps,
        gate_fires(eps, period, d) == (d > period - eps),
{
}

} // verus!
