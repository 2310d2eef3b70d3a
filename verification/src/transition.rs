//! The transition timer engine.
//!
//! A [`TransitionTimer`] owns a start-delay timer and an ordered list of
//! segment timers, together with one style keyframe more than it has
//! segments. Each call to [`TransitionTimer::advance`] moves exactly one
//! timer — the first unfinished one — by the elapsed wall-clock time, and
//! returns the phase the engine is in together with the style to write
//! onto the owning element. The whole tick is specified by the pure
//! [`TransitionModel::step`] function over the timer's mathematical view.

use vstd::prelude::*;

verus! {

use crate::easing::{EASE_ONE, TransitionEasing, apply_easing, ease_spec};
use crate::style::{Style, lerp_style, lerp_style_spec};
use crate::timer::{MAX_DURATION_MS, SegmentTimer};

/// Where a transition stands after a tick: still waiting out the start
/// delay, interpolating inside segment `k`, or done with every segment.
#[derive(Clone, Copy, PartialEq, Eq, Structural, Debug)]
pub enum Phase {
    PreStart,
    Active(usize),
    Complete,
}

/// Why a configuration was rejected at construction time.
#[derive(Clone, Copy, PartialEq, Eq, Structural, Debug)]
pub enum ConfigError {
    /// The segment list was empty.
    NoSegments,
    /// The keyframe list did not hold exactly one style more than there
    /// are segments.
    KeyframeCountMismatch,
}

/// What one tick computes: the engine's phase, the eased fixed-point
/// fraction of the active segment, and the style to write onto the owning
/// element.
#[derive(Clone, Copy, PartialEq, Eq, Structural, Debug)]
pub struct TickOutput {
    pub phase: Phase,
    pub eased: u64,
    pub style: Style,
}

/// The mathematical view of a [`TransitionTimer`].
#[verifier::ext_equal]
pub struct TransitionModel {
    pub easing: TransitionEasing,
    pub start: SegmentTimer,
    pub timeouts: Seq<SegmentTimer>,
    pub looping: bool,
    pub styles: Seq<Style>,
}

/// What one [`TransitionModel::step`] yields: the model after the tick,
/// and the tick's observable output.
pub struct StepResult {
    pub next: TransitionModel,
    pub phase: Phase,
    pub eased: int,
    pub style: Style,
}

/// The smallest index at or after `i` whose timer is unfinished, or the
/// length of `s` when every timer from `i` on has finished.
pub open spec fn first_unfinished_at(s: Seq<SegmentTimer>, i: int) -> int
    decreases s.len() - i,
{
    if i < 0 || i >= s.len() {
        s.len() as int
    } else if !s[i].is_finished() {
        i
    } else {
        first_unfinished_at(s, i + 1)
    }
}

proof fn lemma_first_unfinished_at_props(s: Seq<SegmentTimer>, i: int)
    requires
        0 <= i <= s.len(),
    ensures
        ({
            let k = first_unfinished_at(s, i);
            &&& i <= k <= s.len()
            &&& forall|j: int| i <= j < k ==> (#[trigger] s[j]).is_finished()
            &&& k < s.len() ==> !s[k].is_finished()
        }),
    decreases s.len() - i,
{
    if i < s.len() && s[i].is_finished() {
        lemma_first_unfinished_at_props(s, i + 1);
    }
}

/// The defining properties of [`first_unfinished_at`] from the front of
/// the list.
pub proof fn lemma_first_unfinished_props(s: Seq<SegmentTimer>)
    ensures
        ({
            let k = first_unfinished_at(s, 0);
            &&& 0 <= k <= s.len()
            &&& forall|j: int| 0 <= j < k ==> (#[trigger] s[j]).is_finished()
            &&& k < s.len() ==> !s[k].is_finished()
        }),
{
    lemma_first_unfinished_at_props(s, 0);
}

proof fn lemma_first_unfinished_at_char(s: Seq<SegmentTimer>, i: int, k: int)
    requires
        0 <= i <= k <= s.len(),
        forall|j: int| i <= j < k ==> (#[trigger] s[j]).is_finished(),
        k < s.len() ==> !s[k].is_finished(),
    ensures
        first_unfinished_at(s, i) == k,
    decreases k - i,
{
    if i < k {
        assert(s[i].is_finished());
        lemma_first_unfinished_at_char(s, i + 1, k);
    }
}

/// An index before which every timer has finished, and which itself is
/// either the length or an unfinished timer, is the first unfinished one.
pub proof fn lemma_first_unfinished_char(s: Seq<SegmentTimer>, k: int)
    requires
        0 <= k <= s.len(),
        forall|j: int| 0 <= j < k ==> (#[trigger] s[j]).is_finished(),
        k < s.len() ==> !s[k].is_finished(),
    ensures
        first_unfinished_at(s, 0) == k,
{
    lemma_first_unfinished_at_char(s, 0, k);
}

impl TransitionModel {
    /// The configuration invariant: at least one segment, one keyframe
    /// more than there are segments, and every timer well formed.
    pub open spec fn wf(self) -> bool {
        &&& self.timeouts.len() >= 1
        &&& self.styles.len() == self.timeouts.len() + 1
        &&& self.start.wf()
        &&& forall|i: int| 0 <= i < self.timeouts.len() ==> (#[trigger] self.timeouts[i]).wf()
    }

    /// No timer has accumulated any elapsed time yet.
    pub open spec fn fresh(self) -> bool {
        &&& self.start.elapsed_ms == 0
        &&& forall|i: int|
            0 <= i < self.timeouts.len() ==> (#[trigger] self.timeouts[i]).elapsed_ms == 0
    }

    /// Every segment timer has finished (the start delay aside).
    pub open spec fn segments_finished(self) -> bool {
        forall|i: int| 0 <= i < self.timeouts.len() ==> (#[trigger] self.timeouts[i]).is_finished()
    }

    /// The start delay and every segment timer have finished.
    pub open spec fn all_finished(self) -> bool {
        self.start.is_finished() && self.segments_finished()
    }

    /// The model with its start timer replaced.
    pub open spec fn with_start(self, t: SegmentTimer) -> TransitionModel {
        TransitionModel {
            easing: self.easing,
            start: t,
            timeouts: self.timeouts,
            looping: self.looping,
            styles: self.styles,
        }
    }

    /// The model with its segment timers replaced.
    pub open spec fn with_timeouts(self, ts: Seq<SegmentTimer>) -> TransitionModel {
        TransitionModel {
            easing: self.easing,
            start: self.start,
            timeouts: ts,
            looping: self.looping,
            styles: self.styles,
        }
    }

    /// Every timer wound back to zero elapsed time.
    pub open spec fn reset(self) -> TransitionModel {
        TransitionModel {
            easing: self.easing,
            start: self.start.spec_reset(),
            timeouts: self.timeouts.map_values(|t: SegmentTimer| t.spec_reset()),
            looping: self.looping,
            styles: self.styles,
        }
    }

    /// One tick of the engine, advanced by `delta` milliseconds:
    ///
    /// 1. While the start delay runs, it alone is advanced and the first
    ///    keyframe is held, uninterpolated.
    /// 2. Otherwise the first unfinished segment timer is advanced; its
    ///    eased progress interpolates between the segment's two keyframes.
    /// 3. Once the last segment finishes, the phase is `Complete` and the
    ///    last keyframe is held; with `looping` set, every timer resets so
    ///    the next tick starts the cycle over.
    pub open spec fn step(self, delta: int) -> StepResult {
        if !self.start.is_finished() {
            StepResult {
                next: self.with_start(self.start.spec_ticked(delta)),
                phase: Phase::PreStart,
                eased: 0,
                style: self.styles[0],
            }
        } else {
            let k = first_unfinished_at(self.timeouts, 0);
            if k == self.timeouts.len() {
                StepResult {
                    next: if self.looping {
                        self.reset()
                    } else {
                        self
                    },
                    phase: Phase::Complete,
                    eased: EASE_ONE as int,
                    style: self.styles.last(),
                }
            } else {
                let t2 = self.timeouts[k].spec_ticked(delta);
                let e = ease_spec(self.easing, t2.spec_progress());
                let out = lerp_style_spec(self.styles[k], self.styles[k + 1], e);
                if k == self.timeouts.len() - 1 && t2.is_finished() {
                    StepResult {
                        next: if self.looping {
                            self.reset()
                        } else {
                            self.with_timeouts(self.timeouts.update(k, t2))
                        },
                        phase: Phase::Complete,
                        eased: e,
                        style: out,
                    }
                } else {
                    StepResult {
                        next: self.with_timeouts(self.timeouts.update(k, t2)),
                        phase: Phase::Active(k as usize),
                        eased: e,
                        style: out,
                    }
                }
            }
        }
    }
}

/// A keyframe transition attached to one visual element: a start delay,
/// the ordered segment timers, and one style keyframe more than there are
/// segments. `advance` drives it; the host writes the returned style onto
/// the element.
#[derive(Clone, Debug)]
pub struct TransitionTimer {
    pub easing: TransitionEasing,
    pub start: SegmentTimer,
    pub timeouts: Vec<SegmentTimer>,
    pub looping: bool,
    pub styles: Vec<Style>,
}

impl View for TransitionTimer {
    type V = TransitionModel;

    open spec fn view(&self) -> TransitionModel {
        TransitionModel {
            easing: self.easing,
            start: self.start,
            timeouts: self.timeouts@,
            looping: self.looping,
            styles: self.styles@,
        }
    }
}

impl TransitionTimer {
    /// Builds a transition from its explicit configuration: an easing tag,
    /// the start delay, the segment durations in order, the looping flag,
    /// and the keyframes in order. The configuration is rejected when the
    /// segment list is empty or the keyframe count is not the segment
    /// count plus one; nothing else is rejected.
    pub fn new(
        easing: TransitionEasing,
        start_ms: u64,
        timeout_durations_ms: Vec<u64>,
        looping: bool,
        styles: Vec<Style>,
    ) -> (r: Result<TransitionTimer, ConfigError>)
        requires
            start_ms <= MAX_DURATION_MS,
            forall|i: int|
                0 <= i < timeout_durations_ms@.len() ==> timeout_durations_ms@[i]
                    <= MAX_DURATION_MS,
        ensures
            r is Ok <==> (timeout_durations_ms@.len() >= 1 && styles@.len()
                == timeout_durations_ms@.len() + 1),
            match r {
                Ok(t) => {
                    &&& t@.wf()
                    &&& t@.fresh()
                    &&& t@.easing == easing
                    &&& t@.looping == looping
                    &&& t@.styles == styles@
                    &&& t@.start.duration_ms == start_ms
                    &&& t@.timeouts.len() == timeout_durations_ms@.len()
                    &&& forall|i: int|
                        0 <= i < t@.timeouts.len() ==> (#[trigger] t@.timeouts[i]).duration_ms
                            == timeout_durations_ms@[i]
                },
                Err(e) => {
                    &&& (e == ConfigError::NoSegments <==> timeout_durations_ms@.len() == 0)
                    &&& (e == ConfigError::KeyframeCountMismatch <==> (timeout_durations_ms@.len()
                        >= 1 && styles@.len() != timeout_durations_ms@.len() + 1))
                },
            },
    {
        let n: usize = timeout_durations_ms.len();
        if n == 0 {
            return Err(ConfigError::NoSegments);
        }
        if styles.len() == 0 || styles.len() - 1 != n {
            return Err(ConfigError::KeyframeCountMismatch);
        }
        let mut timeouts: Vec<SegmentTimer> = Vec::new();
        let mut i: usize = 0;
        while i < n
            invariant
                n == timeout_durations_ms@.len(),
                i <= n,
                timeouts@.len() == i,
                forall|j: int|
                    0 <= j < timeout_durations_ms@.len() ==> timeout_durations_ms@[j]
                        <= MAX_DURATION_MS,
                forall|j: int|
                    0 <= j < i ==> (#[trigger] timeouts@[j]) == (SegmentTimer {
                        duration_ms: timeout_durations_ms@[j],
                        elapsed_ms: 0,
                    }),
            decreases n - i,
        {
            timeouts.push(SegmentTimer::new(timeout_durations_ms[i]));
            i = i + 1;
        }
        Ok(
            TransitionTimer {
                easing,
                start: SegmentTimer::new(start_ms),
                timeouts,
                looping,
                styles,
            },
        )
    }

    /// Winds every timer — the start delay and all segments — back to zero
    /// elapsed time.
    pub fn reset(&mut self)
        ensures
            final(self)@ == old(self)@.reset(),
    {
        self.start.reset();
        let n: usize = self.timeouts.len();
        let mut i: usize = 0;
        while i < n
            invariant
                n == self.timeouts@.len(),
                i <= n,
                self.easing == old(self).easing,
                self.looping == old(self).looping,
                self.styles@ == old(self).styles@,
                self.start == old(self).start.spec_reset(),
                forall|j: int|
                    0 <= j < i ==> (#[trigger] self.timeouts@[j]) == old(
                        self,
                    ).timeouts@[j].spec_reset(),
                forall|j: int| i <= j < n ==> self.timeouts@[j] == old(self).timeouts@[j],
            decreases n - i,
        {
            let mut t: SegmentTimer = self.timeouts[i];
            t.reset();
            self.timeouts[i] = t;
            i = i + 1;
        }
        proof {
            assert(self@ =~= old(self)@.reset());
        }
    }

    /// Whether every segment timer has finished. The start delay is not
    /// consulted: an element whose segments are all spent holds its final
    /// keyframe whatever the delay's state.
    pub fn segments_finished(&self) -> (r: bool)
        ensures
            r == self@.segments_finished(),
    {
        let n: usize = self.timeouts.len();
        let mut i: usize = 0;
        while i < n
            invariant
                n == self.timeouts@.len(),
                i <= n,
                forall|j: int| 0 <= j < i ==> (#[trigger] self.timeouts@[j]).is_finished(),
            decreases n - i,
        {
            if !self.timeouts[i].finished() {
                proof {
                    assert(!self@.segments_finished()) by {
                        assert(!self@.timeouts[i as int].is_finished());
                    };
                }
                return false;
            }
            i = i + 1;
        }
        true
    }

    /// One tick: advances the first unfinished timer by `delta_ms` and
    /// returns the phase, the eased fraction and the style to write onto
    /// the owning element, exactly as [`TransitionModel::step`] states.
    pub fn advance(&mut self, delta_ms: u64) -> (out: TickOutput)
        requires
            old(self)@.wf(),
        ensures
            final(self)@ == old(self)@.step(delta_ms as int).next,
            out.phase == old(self)@.step(delta_ms as int).phase,
            out.eased == old(self)@.step(delta_ms as int).eased,
            out.style == old(self)@.step(delta_ms as int).style,
            final(self)@.wf(),
    {
        if !self.start.finished() {
            self.start.tick(delta_ms);
            let style: Style = self.styles[0];
            proof {
                assert(self@ =~= old(self)@.step(delta_ms as int).next);
            }
            return TickOutput { phase: Phase::PreStart, eased: 0, style };
        }
        let n: usize = self.timeouts.len();
        let mut k: usize = 0;
        while k < n && self.timeouts[k].finished()
            invariant
                n == self.timeouts@.len(),
                k <= n,
                forall|j: int| 0 <= j < k ==> (#[trigger] self.timeouts@[j]).is_finished(),
            decreases n - k,
        {
            k = k + 1;
        }
        proof {
            lemma_first_unfinished_char(self.timeouts@, k as int);
        }
        if k == n {
            if self.looping {
                self.reset();
            }
            let style: Style = self.styles[n];
            proof {
                assert(old(self)@.styles.last() == old(self)@.styles[n as int]);
                assert(self@ =~= old(self)@.step(delta_ms as int).next);
            }
            return TickOutput { phase: Phase::Complete, eased: EASE_ONE, style };
        }
        let mut t: SegmentTimer = self.timeouts[k];
        t.tick(delta_ms);
        self.timeouts[k] = t;
        let p: u64 = t.progress_scaled();
        let e: u64 = apply_easing(self.easing, p);
        let style: Style = lerp_style(&self.styles[k], &self.styles[k + 1], e);
        let last_done: bool = k == n - 1 && t.finished();
        if last_done {
            if self.looping {
                self.reset();
                proof {
                    assert(self@ =~= old(self)@.reset());
                    assert(self@ =~= old(self)@.step(delta_ms as int).next);
                }
            } else {
                proof {
                    assert(self@ =~= old(self)@.step(delta_ms as int).next);
                }
            }
            TickOutput { phase: Phase::Complete, eased: e, style }
        } else {
            proof {
                assert(self@ =~= old(self)@.step(delta_ms as int).next);
            }
            TickOutput { phase: Phase::Active(k), eased: e, style }
        }
    }
}

} // verus!
