//! A finite, fire-once countdown timer, counted in milliseconds.

use vstd::prelude::*;

verus! {

use crate::easing::EASE_ONE;
use vstd::arithmetic::div_mod::{lemma_div_is_ordered, lemma_div_multiples_vanish};
use vstd::arithmetic::mul::lemma_mul_inequality;

/// The longest duration a timer may be given, in milliseconds (a little
/// under fifty days). The bound keeps the fixed-point progress product
/// `elapsed * EASE_ONE` inside `u64`.
pub const MAX_DURATION_MS: u64 = 0xFFFF_FFFF;

/// A countdown timer that accumulates elapsed time until it reaches its
/// duration, then stops: advancing a finished timer changes nothing.
#[derive(Clone, Copy, PartialEq, Eq, Structural, Debug)]
pub struct SegmentTimer {
    pub duration_ms: u64,
    pub elapsed_ms: u64,
}

impl SegmentTimer {
    /// Elapsed time never passes the duration, and the duration respects
    /// [`MAX_DURATION_MS`].
    pub open spec fn wf(self) -> bool {
        self.elapsed_ms <= self.duration_ms <= MAX_DURATION_MS
    }

    /// A timer is finished once its elapsed time has reached its duration.
    pub open spec fn is_finished(self) -> bool {
        self.elapsed_ms >= self.duration_ms
    }

    /// The timer after advancing by `delta` milliseconds: elapsed time
    /// accumulates and saturates at the duration.
    pub open spec fn spec_ticked(self, delta: int) -> SegmentTimer {
        SegmentTimer {
            duration_ms: self.duration_ms,
            elapsed_ms: if self.elapsed_ms + delta >= self.duration_ms {
                self.duration_ms
            } else {
                (self.elapsed_ms + delta) as u64
            },
        }
    }

    /// The timer wound back to zero elapsed time.
    pub open spec fn spec_reset(self) -> SegmentTimer {
        SegmentTimer { duration_ms: self.duration_ms, elapsed_ms: 0 }
    }

    /// The fraction of the timer already elapsed, in fixed point: a value
    /// in `[0, EASE_ONE]`. A zero-duration timer counts as fully elapsed.
    pub open spec fn spec_progress(self) -> int {
        if self.duration_ms == 0 {
            EASE_ONE as int
        } else {
            ((self.elapsed_ms * EASE_ONE) as int) / (self.duration_ms as int)
        }
    }

    /// A new timer for `duration_ms` milliseconds, with nothing elapsed.
    pub fn new(duration_ms: u64) -> (t: SegmentTimer)
        requires
            duration_ms <= MAX_DURATION_MS,
        ensures
            t.duration_ms == duration_ms,
            t.elapsed_ms == 0,
            t.wf(),
    {
        SegmentTimer { duration_ms, elapsed_ms: 0 }
    }

    /// Whether the timer has reached its duration.
    pub fn finished(&self) -> (r: bool)
        ensures
            r == self.is_finished(),
    {
        self.elapsed_ms >= self.duration_ms
    }

    /// Advances the timer by `delta_ms`, saturating at the duration. The
    /// timer never rewinds.
    pub fn tick(&mut self, delta_ms: u64)
        requires
            old(self).wf(),
        ensures
            *final(self) == old(self).spec_ticked(delta_ms as int),
            final(self).wf(),
    {
        let remaining: u64 = self.duration_ms - self.elapsed_ms;
        if delta_ms >= remaining {
            self.elapsed_ms = self.duration_ms;
        } else {
            self.elapsed_ms = self.elapsed_ms + delta_ms;
        }
    }

    /// Winds the timer back to zero elapsed time.
    pub fn reset(&mut self)
        ensures
            *final(self) == old(self).spec_reset(),
    {
        self.elapsed_ms = 0;
    }

    /// The fixed-point fraction of the timer already elapsed.
    pub fn progress_scaled(&self) -> (r: u64)
        requires
            self.wf(),
        ensures
            r == self.spec_progress(),
            r <= EASE_ONE,
            self.is_finished() ==> r == EASE_ONE,
    {
        if self.duration_ms == 0 {
            EASE_ONE
        } else {
            assert(self.elapsed_ms * EASE_ONE <= 0xFFFF_FFFFu64 * 1024) by (nonlinear_arith)
                requires
                    self.elapsed_ms <= 0xFFFF_FFFFu64,
            ;
            let r: u64 = self.elapsed_ms * EASE_ONE / self.duration_ms;
            proof {
                lemma_progress_bounds(*self);
            }
            r
        }
    }
}

/// The fixed-point progress of a well-formed timer stays in
/// `[0, EASE_ONE]`, and reaches `EASE_ONE` exactly when the timer is
/// finished.
pub proof fn lemma_progress_bounds(t: SegmentTimer)
    requires
        t.wf(),
    ensures
        0 <= t.spec_progress() <= EASE_ONE,
        t.is_finished() <==> t.spec_progress() == EASE_ONE,
{
    if t.duration_ms == 0 {
    } else {
        let d = t.duration_ms as int;
        let e = t.elapsed_ms as int;
        let one = EASE_ONE as int;
        lemma_mul_inequality(e, d, one);
        assert(e * one == one * e) by (nonlinear_arith);
        assert(d * one == one * d) by (nonlinear_arith);
        lemma_div_is_ordered(e * one, d * one, d);
        lemma_div_multiples_vanish(one, d);
        assert(d * one == one * d ==> (d * one) / d == one);
        assert(0 <= e * one) by (nonlinear_arith)
            requires
                0 <= e,
                0 <= one,
        ;
        lemma_div_is_ordered(0, e * one, d);
        if t.is_finished() {
            assert(e == d);
        } else {
            assert(e <= d - 1);
            assert(e * one <= d * one - one) by {
                lemma_mul_inequality(e, d - 1, one);
                assert((d - 1) * one == d * one - one) by (nonlinear_arith);
            };
            lemma_div_is_ordered(e * one, d * one - 1, d);
            lemma_div_strictly_bounded(d * one - 1, d, one);
        }
    }
}

/// If `x < d * bound` with `d` positive, then `x / d < bound`.
proof fn lemma_div_strictly_bounded(x: int, d: int, bound: int)
    requires
        0 < d,
        x < d * bound,
    ensures
        x / d < bound,
{
    if x / d >= bound {
        lemma_mul_inequality(bound, x / d, d);
        assert(bound * d <= (x / d) * d);
        vstd::arithmetic::div_mod::lemma_fundamental_div_mod(x, d);
        vstd::arithmetic::div_mod::lemma_mod_bound(x, d);
        assert(x == d * (x / d) + x % d);
        assert(d * (x / d) == (x / d) * d) by (nonlinear_arith);
        assert(d * bound == bound * d) by (nonlinear_arith);
        assert(false);
    }
}

} // verus!
