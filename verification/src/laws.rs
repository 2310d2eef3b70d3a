//! Global laws of the transition engine, stated over its mathematical
//! model and proved once for every configuration.

use vstd::prelude::*;

verus! {

use crate::easing::{EASE_ONE, ease_spec, lemma_ease_endpoints};
use crate::style::lemma_lerp_style_endpoints;
use crate::timer::lemma_progress_bounds;
use crate::transition::{
    Phase,
    TransitionModel,
    first_unfinished_at,
    lemma_first_unfinished_char,
    lemma_first_unfinished_props,
};

/// The model after advancing by each delta of `deltas` in turn.
pub open spec fn run(m: TransitionModel, deltas: Seq<int>) -> TransitionModel
    decreases deltas.len(),
{
    if deltas.len() == 0 {
        m
    } else {
        run(m.step(deltas[0]).next, deltas.drop_first())
    }
}

/// Appending one more tick to a run is one more step.
pub proof fn lemma_run_push(m: TransitionModel, deltas: Seq<int>, d: int)
    ensures
        run(m, deltas.push(d)) == run(m, deltas).step(d).next,
    decreases deltas.len(),
{
    let s1 = deltas.push(d);
    if deltas.len() == 0 {
        assert(s1[0] == d);
        assert(s1.drop_first() =~= Seq::<int>::empty());
        assert(run(m, s1) == run(m.step(d).next, s1.drop_first()));
        assert(run(m.step(d).next, s1.drop_first()) == m.step(d).next);
        assert(run(m, deltas) == m);
    } else {
        assert(s1[0] == deltas[0]);
        assert(s1.drop_first() =~= deltas.drop_first().push(d));
        assert(run(m, s1) == run(m.step(deltas[0]).next, s1.drop_first()));
        lemma_run_push(m.step(deltas[0]).next, deltas.drop_first(), d);
        assert(run(m, deltas) == run(m.step(deltas[0]).next, deltas.drop_first()));
    }
}

/// Once every timer has finished and looping is off, a further advance of
/// any size changes nothing: the phase stays `Complete` and the output
/// style stays the final keyframe.
pub proof fn lemma_complete_idempotent(m: TransitionModel, delta: int)
    requires
        m.wf(),
        m.all_finished(),
        !m.looping,
        delta >= 0,
    ensures
        m.step(delta).next == m,
        m.step(delta).phase == Phase::Complete,
        m.step(delta).style == m.styles.last(),
{
    lemma_first_unfinished_char(m.timeouts, m.timeouts.len() as int);
}

/// Repeating `lemma_complete_idempotent` over any whole run: a finished,
/// non-looping timer is left unchanged by every sequence of further
/// advances.
pub proof fn lemma_complete_idempotent_run(m: TransitionModel, deltas: Seq<int>)
    requires
        m.wf(),
        m.all_finished(),
        !m.looping,
        forall|i: int| 0 <= i < deltas.len() ==> #[trigger] deltas[i] >= 0,
    ensures
        run(m, deltas) == m,
    decreases deltas.len(),
{
    if deltas.len() > 0 {
        lemma_complete_idempotent(m, deltas[0]);
        assert(forall|i: int|
            0 <= i < deltas.drop_first().len() ==> #[trigger] deltas.drop_first()[i] >= 0);
        lemma_complete_idempotent_run(m, deltas.drop_first());
    }
}

/// A tick that reaches `Complete` without looping leaves every timer
/// finished and already outputs the final keyframe; together with
/// `lemma_complete_idempotent`, the output never changes afterwards.
pub proof fn lemma_complete_reached(m: TransitionModel, delta: int)
    requires
        m.wf(),
        !m.looping,
        delta >= 0,
        m.step(delta).phase == Phase::Complete,
    ensures
        m.step(delta).next.wf(),
        m.step(delta).next.all_finished(),
        m.step(delta).style == m.styles.last(),
{
    lemma_first_unfinished_props(m.timeouts);
    let k = first_unfinished_at(m.timeouts, 0);
    let len = m.timeouts.len() as int;
    if k < len {
        let t2 = m.timeouts[k].spec_ticked(delta);
        assert(t2.wf());
        assert(k == len - 1 && t2.is_finished());
        lemma_progress_bounds(t2);
        lemma_ease_endpoints(m.easing);
        assert(m.step(delta).eased == EASE_ONE);
        lemma_lerp_style_endpoints(m.styles[k], m.styles[k + 1]);
        assert(m.step(delta).style == m.styles[len]);
        assert(m.step(delta).next.timeouts == m.timeouts.update(k, t2));
    }
}

/// The deltas that fill the start delay and then the first `j` segments
/// exactly, one tick each.
pub open spec fn prefix_deltas(m: TransitionModel, j: int) -> Seq<int> {
    seq![m.start.duration_ms as int] + Seq::new(j as nat, |i: int| m.timeouts[i].duration_ms as int)
}

/// One full cycle of ticks: the start delay, then every segment duration.
pub open spec fn cycle_deltas(m: TransitionModel) -> Seq<int> {
    prefix_deltas(m, m.timeouts.len() as int)
}

/// After running the prefix deltas on a fresh timer, the start delay and
/// the first `j` segments have finished, every later segment is untouched,
/// and the configuration is unchanged. `k` bounds the prefix by a segment
/// known to take time, so the run never completes early.
proof fn lemma_run_prefix(m: TransitionModel, k: int, j: int)
    requires
        m.wf(),
        m.fresh(),
        0 <= j <= k < m.timeouts.len(),
        m.timeouts[k].duration_ms >= 1,
    ensures
        ({
            let m2 = run(m, prefix_deltas(m, j));
            &&& m2.easing == m.easing
            &&& m2.looping == m.looping
            &&& m2.styles == m.styles
            &&& m2.start.is_finished()
            &&& m2.start.duration_ms == m.start.duration_ms
            &&& m2.timeouts.len() == m.timeouts.len()
            &&& forall|i: int|
                0 <= i < m.timeouts.len() ==> (#[trigger] m2.timeouts[i]).duration_ms
                    == m.timeouts[i].duration_ms
            &&& forall|i: int| 0 <= i < j ==> (#[trigger] m2.timeouts[i]).is_finished()
            &&& forall|i: int|
                j <= i < m.timeouts.len() ==> (#[trigger] m2.timeouts[i]).elapsed_ms == 0
            &&& m2.wf()
        }),
    decreases j,
{
    let len = m.timeouts.len() as int;
    if j == 0 {
        let s = prefix_deltas(m, 0);
        let sd = m.start.duration_ms as int;
        assert(s =~= seq![sd]);
        assert(s[0] == sd);
        assert(s.drop_first() =~= Seq::<int>::empty());
        let m1 = m.step(sd).next;
        assert(run(m, s) == run(m1, s.drop_first()));
        assert(run(m1, s.drop_first()) == m1);
        if m.start.duration_ms >= 1 {
            assert(!m.start.is_finished());
            assert(m1 == m.with_start(m.start.spec_ticked(sd)));
        } else {
            assert(m.start.is_finished());
            lemma_first_unfinished_props(m.timeouts);
            let k0 = first_unfinished_at(m.timeouts, 0);
            assert(!m.timeouts[k].is_finished());
            assert(k0 <= k);
            let t2 = m.timeouts[k0].spec_ticked(0);
            assert(t2 == m.timeouts[k0]);
            assert(!t2.is_finished());
            assert(m.timeouts.update(k0, t2) =~= m.timeouts);
            assert(m1.timeouts == m.timeouts);
        }
    } else {
        lemma_run_prefix(m, k, j - 1);
        let d = m.timeouts[j - 1].duration_ms as int;
        assert(prefix_deltas(m, j) =~= prefix_deltas(m, j - 1).push(d));
        lemma_run_push(m, prefix_deltas(m, j - 1), d);
        let m2 = run(m, prefix_deltas(m, j - 1));
        let m3 = m2.step(d).next;
        assert(run(m, prefix_deltas(m, j)) == m3);
        lemma_first_unfinished_props(m2.timeouts);
        let k0 = first_unfinished_at(m2.timeouts, 0);
        assert(m2.timeouts[k].duration_ms >= 1 && m2.timeouts[k].elapsed_ms == 0);
        assert(!m2.timeouts[k].is_finished());
        assert(k0 <= k);
        if d == 0 {
            assert(m2.timeouts[j - 1].is_finished());
            let t2 = m2.timeouts[k0].spec_ticked(0);
            assert(t2 == m2.timeouts[k0]);
            assert(!t2.is_finished());
            assert(m2.timeouts.update(k0, t2) =~= m2.timeouts);
            assert(m3.timeouts == m2.timeouts);
        } else {
            assert(!m2.timeouts[j - 1].is_finished());
            lemma_first_unfinished_char(m2.timeouts, j - 1);
            let t2 = m2.timeouts[j - 1].spec_ticked(d);
            assert(t2.is_finished());
            assert(j - 1 < len - 1);
            assert(m3.timeouts == m2.timeouts.update(j - 1, t2));
        }
    }
}

/// Advancing a fresh timer by the start delay and the first `k` segment
/// durations exactly, then by `eps` milliseconds within segment `k`, puts
/// the engine in segment `k` with eased progress
/// `ease_spec(easing, eps * EASE_ONE / duration_k)`.
pub proof fn lemma_segment_reached(m: TransitionModel, k: int, eps: int)
    requires
        m.wf(),
        m.fresh(),
        0 <= k < m.timeouts.len(),
        0 < eps < m.timeouts[k].duration_ms,
    ensures
        ({
            let r = run(m, prefix_deltas(m, k)).step(eps);
            &&& r.phase == Phase::Active(k as usize)
            &&& r.eased == ease_spec(
                m.easing,
                (eps * (EASE_ONE as int)) / (m.timeouts[k].duration_ms as int),
            )
        }),
{
    lemma_run_prefix(m, k, k);
    let m2 = run(m, prefix_deltas(m, k));
    assert(!m2.timeouts[k].is_finished());
    lemma_first_unfinished_char(m2.timeouts, k);
    let t2 = m2.timeouts[k].spec_ticked(eps);
    assert(t2.elapsed_ms == eps);
    assert(!t2.is_finished());
    assert(t2.spec_progress() == (eps * (EASE_ONE as int)) / (m.timeouts[k].duration_ms as int));
}

/// With looping on, a fresh timer advanced through exactly one full cycle
/// is fresh again: a further tick behaves exactly as the first tick of a
/// newly built timer with the same configuration.
pub proof fn lemma_loop_cycle(m: TransitionModel, delta: int)
    requires
        m.wf(),
        m.fresh(),
        m.looping,
        m.timeouts.last().duration_ms >= 1,
    ensures
        run(m, cycle_deltas(m)) == m,
        run(m, cycle_deltas(m)).step(delta) == m.step(delta),
{
    let n = m.timeouts.len() as int;
    lemma_run_prefix(m, n - 1, n - 1);
    let m2 = run(m, prefix_deltas(m, n - 1));
    let d = m.timeouts[n - 1].duration_ms as int;
    assert(cycle_deltas(m) =~= prefix_deltas(m, n - 1).push(d));
    lemma_run_push(m, prefix_deltas(m, n - 1), d);
    assert(!m2.timeouts[n - 1].is_finished());
    lemma_first_unfinished_char(m2.timeouts, n - 1);
    let t2 = m2.timeouts[n - 1].spec_ticked(d);
    assert(t2.is_finished());
    let m3 = m2.step(d).next;
    assert(m3 == m2.reset());
    assert forall|i: int| 0 <= i < n implies m2.reset().timeouts[i] == m.timeouts[i] by {
        assert(m2.timeouts[i].duration_ms == m.timeouts[i].duration_ms);
    }
    assert(m2.reset().timeouts =~= m.timeouts);
    assert(m2.reset() =~= m);
}

} // verus!
