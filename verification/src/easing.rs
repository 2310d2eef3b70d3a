//! Easing curves over a fixed-point progress fraction.

use vstd::prelude::*;

verus! {

use vstd::arithmetic::div_mod::{lemma_div_is_ordered, lemma_div_multiples_vanish};

/// Fixed-point unit: a progress or easing fraction of one whole is
/// `EASE_ONE`; all fractions in this crate live in `[0, EASE_ONE]`.
pub const EASE_ONE: u64 = 1024;

/// Tag selecting an easing curve. Extending the set of curves means adding
/// a variant here together with its arm in [`ease_spec`] and
/// [`apply_easing`]; the timer-advancement logic never changes.
#[derive(Clone, Copy, PartialEq, Eq, Structural, Debug)]
pub enum TransitionEasing {
    /// Progress is passed through unchanged.
    Linear,
    /// The quintic ease-out curve `1 - (1 - x)^5`: fast at first, flat at
    /// the end.
    QuinticOut,
}

/// The quintic ease-out curve on the fixed-point domain: `EASE_ONE` times
/// `1 - (1 - p / EASE_ONE)^5`, with truncating division.
pub open spec fn quintic_out_spec(p: int) -> int {
    EASE_ONE - ((EASE_ONE - p) * (EASE_ONE - p) * (EASE_ONE - p) * (EASE_ONE - p) * (EASE_ONE
        - p)) / (EASE_ONE * EASE_ONE * EASE_ONE * EASE_ONE)
}

/// The curve selected by `e`, as a pure mapping of fixed-point fractions.
pub open spec fn ease_spec(e: TransitionEasing, p: int) -> int {
    match e {
        TransitionEasing::Linear => p,
        TransitionEasing::QuinticOut => quintic_out_spec(p),
    }
}

/// Applies the easing curve selected by `e` to the fixed-point fraction `p`.
pub fn apply_easing(e: TransitionEasing, p: u64) -> (r: u64)
    requires
        p <= EASE_ONE,
    ensures
        r == ease_spec(e, p as int),
        r <= EASE_ONE,
{
    match e {
        TransitionEasing::Linear => p,
        TransitionEasing::QuinticOut => {
            let q: u64 = EASE_ONE - p;
            assert(q * q <= 1024 * 1024) by (nonlinear_arith)
                requires
                    q <= 1024,
            ;
            let q2: u64 = q * q;
            assert(q2 * q <= 1024 * 1024 * 1024) by (nonlinear_arith)
                requires
                    q2 <= 1024 * 1024,
                    q <= 1024,
            ;
            let q3: u64 = q2 * q;
            assert(q3 * q <= 1024 * 1024 * 1024 * 1024) by (nonlinear_arith)
                requires
                    q3 <= 1024 * 1024 * 1024,
                    q <= 1024,
            ;
            let q4: u64 = q3 * q;
            assert(q4 * q <= 1024 * 1024 * 1024 * 1024 * 1024) by (nonlinear_arith)
                requires
                    q4 <= 1024 * 1024 * 1024 * 1024,
                    q <= 1024,
            ;
            let q5: u64 = q4 * q;
            let denom: u64 = EASE_ONE * EASE_ONE * EASE_ONE * EASE_ONE;
            let scaled: u64 = q5 / denom;
            assert(scaled <= EASE_ONE) by {
                lemma_div_is_ordered(q5 as int, (denom as int) * 1024, denom as int);
                lemma_div_multiples_vanish(1024int, denom as int);
            };
            assert(q5 == (EASE_ONE - p) * (EASE_ONE - p) * (EASE_ONE - p) * (EASE_ONE - p) * (
            EASE_ONE - p));
            EASE_ONE - scaled
        },
    }
}

/// Every easing curve fixes the endpoints: zero progress eases to zero and
/// full progress eases to the full fraction.
pub proof fn lemma_ease_endpoints(e: TransitionEasing)
    ensures
        ease_spec(e, 0) == 0,
        ease_spec(e, EASE_ONE as int) == EASE_ONE,
{
    lemma_div_multiples_vanish(1024int, 1024int * 1024 * 1024 * 1024);
}

/// Every easing curve is monotone: more progress never eases to less.
pub proof fn lemma_ease_monotone(e: TransitionEasing, p1: int, p2: int)
    requires
        0 <= p1 <= p2 <= EASE_ONE,
    ensures
        ease_spec(e, p1) <= ease_spec(e, p2),
{
    match e {
        TransitionEasing::Linear => {},
        TransitionEasing::QuinticOut => {
            let q1 = EASE_ONE - p1;
            let q2 = EASE_ONE - p2;
            assert(q2 * q2 * q2 * q2 * q2 <= q1 * q1 * q1 * q1 * q1) by (nonlinear_arith)
                requires
                    0 <= q2 <= q1,
            ;
            lemma_div_is_ordered(
                q2 * q2 * q2 * q2 * q2,
                q1 * q1 * q1 * q1 * q1,
                EASE_ONE * EASE_ONE * EASE_ONE * EASE_ONE,
            );
        },
    }
}

/// Every easing curve maps the fixed-point domain into itself.
pub proof fn lemma_ease_range(e: TransitionEasing, p: int)
    requires
        0 <= p <= EASE_ONE,
    ensures
        0 <= ease_spec(e, p) <= EASE_ONE,
{
    lemma_ease_endpoints(e);
    lemma_ease_monotone(e, 0, p);
    lemma_ease_monotone(e, p, EASE_ONE as int);
}

} // verus!
