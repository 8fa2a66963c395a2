use vstd::prelude::*;

use crate::outcome::{AcquireOutcome, RebuildOutcome, SubmitOutcome};
use crate::pacer::{no_signals, LoopState, Phase};

verus! {

/// What the outside world reports during one iteration of the render loop.
pub struct Tick<R, S> {
    /// A resize event arrived before the iteration.
    pub resized: bool,
    /// What a rebuild reports, if the iteration makes one.
    pub rebuild: RebuildOutcome<R>,
    pub acquire: AcquireOutcome,
    /// What execution and presentation report, if an image was acquired.
    pub submit: SubmitOutcome<S>,
}

/// Between iterations, with the controller's invariant.
pub open spec fn at_rest<R, S>(s: LoopState<R, S>) -> bool {
    s.wf() && s.phase == Phase::Idle
}

/// The state after the resize event (if any) and the rebuild (if one is due).
pub open spec fn after_top<R, S>(s: LoopState<R, S>, t: Tick<R, S>) -> LoopState<R, S> {
    let s1 = if t.resized { s.resized() } else { s };
    if s1.resize_requested { s1.cleared().rebuilt(t.rebuild) } else { s1 }
}

/// The state once the acquired slot's prior signal has been waited on, just
/// before work is submitted for it.
pub open spec fn before_submit<R, S>(s: LoopState<R, S>, t: Tick<R, S>) -> LoopState<R, S> {
    after_top(s, t).acquired(t.acquire).waited()
}

/// Submissions for slot `i` that may still be in flight: a stored signal
/// counts, unless the iteration has already waited on it.
pub open spec fn in_flight<R, S>(s: LoopState<R, S>, i: int) -> nat {
    if s.signals[i] is Some && !(s.phase is Drained && s.phase.slot() == i) {
        1
    } else {
        0
    }
}

/// One whole iteration, as the controller's methods perform it.
pub open spec fn iterate<R, S>(s: LoopState<R, S>, t: Tick<R, S>) -> LoopState<R, S> {
    let a = after_top(s, t).acquired(t.acquire);
    if a.phase is Acquired { a.waited().finished(t.submit) } else { a }
}

/// The outside world's reports are possible ones: a rebuilt swapchain has
/// images, and an acquired index is one of them.
pub open spec fn admissible<R, S>(s: LoopState<R, S>, t: Tick<R, S>) -> bool {
    &&& t.rebuild.valid()
    &&& t.acquire matches AcquireOutcome::Acquired { image, .. } ==> image < after_top(s, t).slots.len()
}

pub open spec fn run<R, S>(s: LoopState<R, S>, ticks: Seq<Tick<R, S>>) -> LoopState<R, S>
    decreases ticks.len(),
{
    if ticks.len() == 0 {
        s
    } else {
        iterate(run(s, ticks.drop_last()), ticks.last())
    }
}

pub open spec fn admissible_run<R, S>(s: LoopState<R, S>, ticks: Seq<Tick<R, S>>) -> bool
    decreases ticks.len(),
{
    ticks.len() == 0 || (admissible_run(s, ticks.drop_last()) && admissible(
        run(s, ticks.drop_last()),
        ticks.last(),
    ))
}

/// Nothing in the iteration asks for a rebuild: no resize event, a usable
/// image, and no stale presentation.
pub open spec fn calm<R, S>(t: Tick<R, S>) -> bool {
    &&& !t.resized
    &&& t.acquire matches AcquireOutcome::Acquired { suboptimal, .. } && !suboptimal
    &&& (t.submit is Signaled || t.submit is PresentFailed)
}

/// Every iteration leaves the controller between iterations with its invariant.
pub proof fn lemma_iterate_at_rest<R, S>(s: LoopState<R, S>, t: Tick<R, S>)
    requires
        at_rest(s),
        admissible(s, t),
    ensures
        at_rest(iterate(s, t)),
{
}

/// Any admissible run keeps the controller's invariant: one signal entry per
/// slot of the current generation, and a valid previous slot.
pub proof fn lemma_run_at_rest<R, S>(s: LoopState<R, S>, ticks: Seq<Tick<R, S>>)
    requires
        at_rest(s),
        admissible_run(s, ticks),
    ensures
        at_rest(run(s, ticks)),
    decreases ticks.len(),
{
    if ticks.len() > 0 {
        lemma_run_at_rest(s, ticks.drop_last());
        lemma_iterate_at_rest(run(s, ticks.drop_last()), ticks.last());
    }
}

/// At most one submission is in flight per slot: after any run, work for the
/// acquired slot is submitted only once that slot's prior signal has been
/// waited on (it stays stored, so the frame can still be chained after it),
/// and the iteration replaces it only by what the new submission produced.
pub proof fn lemma_back_pressure<R, S>(s: LoopState<R, S>, ticks: Seq<Tick<R, S>>, t: Tick<R, S>)
    requires
        at_rest(s),
        admissible_run(s, ticks),
        admissible(run(s, ticks), t),
        t.acquire is Acquired,
    ensures
        ({
            let slot = t.acquire->image;
            let start = run(s, ticks);
            let mid = before_submit(start, t);
            let next = iterate(start, t);
            &&& mid.wf()
            &&& mid.phase == (Phase::Drained { slot })
            &&& mid.signals == after_top(start, t).signals
            &&& in_flight(mid, slot as int) == 0
            &&& next.signals == match t.submit {
                SubmitOutcome::Signaled(x) => mid.signals.update(slot as int, Some(x)),
                SubmitOutcome::ExecuteFailed => mid.signals,
                _ => mid.signals.update(slot as int, None),
            }
            &&& forall|i: int| 0 <= i < next.signals.len() ==> #[trigger] in_flight(next, i) <= 1
        }),
{
    lemma_run_at_rest(s, ticks);
}

/// A resize converges within one iteration: whatever resize events came
/// before, an iteration in which nothing asks for a rebuild ends with no
/// rebuild pending, and if a rebuild was due it installed the new generation.
pub proof fn lemma_resize_converges<R, S>(s: LoopState<R, S>, ticks: Seq<Tick<R, S>>)
    requires
        at_rest(s),
        admissible_run(s, ticks),
        ticks.len() > 0,
        calm(ticks.last()),
    ensures
        !run(s, ticks).resize_requested,
        run(s, ticks.drop_last()).resize_requested ==> match ticks.last().rebuild {
            RebuildOutcome::Rebuilt(v) => run(s, ticks).slots == v@,
            RebuildOutcome::ExtentUnsupported => run(s, ticks).slots == run(
                s,
                ticks.drop_last(),
            ).slots,
        },
{
    lemma_run_at_rest(s, ticks.drop_last());
}

/// After a rebuild, the generation's per-slot resources (one entry per image)
/// and the signal slots are equal in number, and no signal is live.
pub proof fn lemma_generation_consistent<R, S>(s: LoopState<R, S>, images: Vec<R>)
    requires
        at_rest(s),
        images@.len() > 0,
    ensures
        ({
            let n = s.rebuilt(RebuildOutcome::Rebuilt(images));
            &&& at_rest(n)
            &&& n.slots == images@
            &&& n.signals.len() == images@.len()
            &&& n.signals == no_signals::<S>(images@.len())
            &&& n.previous == 0
        }),
{
}

/// Rebuilding while the surface's extent is unsupported, any number of
/// times, leaves the current generation whole and usable.
pub proof fn lemma_degenerate_rebuild_keeps_generation<R, S>(
    s: LoopState<R, S>,
    ticks: Seq<Tick<R, S>>,
)
    requires
        at_rest(s),
        admissible_run(s, ticks),
        forall|i: int| 0 <= i < ticks.len() ==> (#[trigger] ticks[i]).rebuild is ExtentUnsupported,
    ensures
        at_rest(run(s, ticks)),
        run(s, ticks).slots == s.slots,
        ticks.len() > 0 ==> ({
            let p = run(s, ticks.drop_last());
            let a = after_top(p, ticks.last());
            &&& a.slots == p.slots
            &&& a.signals == p.signals
            &&& a.previous == p.previous
        }),
    decreases ticks.len(),
{
    lemma_run_at_rest(s, ticks);
    if ticks.len() > 0 {
        let prefix = ticks.drop_last();
        assert forall|i: int| 0 <= i < prefix.len() implies (#[trigger] prefix[i]).rebuild is ExtentUnsupported by {
            assert(prefix[i] == ticks[i]);
        }
        lemma_degenerate_rebuild_keeps_generation(s, prefix);
        assert(ticks.last() == ticks[ticks.len() - 1]);
    }
}

} // verus!
