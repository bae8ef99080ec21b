//! Reasoning about whole runs of a state machine. A run is a start state
//! folded through a sequence of events; these lemmas say which states such a
//! run can and cannot pass through, in terms of a rank on states: a run
//! whose rank never falls cannot revisit lower ground, and a run that climbs
//! past a rank must stand on it on the way, unless it fell into an absorbing
//! sink.

use vstd::prelude::*;

verus! {

/// Whether a run from `s` driven by `events` passes through a state
/// satisfying `hit`: either `s` itself does, or stepping through the events
/// eventually does.
pub open spec fn reaches<S, E>(
    step: spec_fn(S, E) -> S,
    s: S,
    events: Seq<E>,
    hit: spec_fn(S) -> bool,
) -> bool
    decreases events.len(),
{
    hit(s) || (events.len() > 0 && reaches(step, step(s, events[0]), events.drop_first(), hit))
}

/// A run whose rank never falls cannot pass through a state ranked strictly
/// below its start.
pub proof fn lemma_monotone_excludes<S, E>(
    step: spec_fn(S, E) -> S,
    rank: spec_fn(S) -> int,
    inv: spec_fn(S) -> bool,
    s: S,
    events: Seq<E>,
    hit: spec_fn(S) -> bool,
)
    requires
        inv(s),
        forall|t: S, e: E| inv(t) ==> inv(#[trigger] step(t, e)),
        forall|t: S, e: E| inv(t) ==> rank(#[trigger] step(t, e)) >= rank(t),
        forall|t: S| inv(t) && #[trigger] hit(t) ==> rank(t) < rank(s),
    ensures
        !reaches(step, s, events, hit),
    decreases events.len(),
{
    if events.len() > 0 {
        let s2 = step(s, events[0]);
        lemma_monotone_excludes(step, rank, inv, s2, events.drop_first(), hit);
    }
}

/// From a state of an absorbing class in which `hit` never holds, no run
/// passes through a `hit` state.
pub proof fn lemma_absorbing_excludes<S, E>(
    step: spec_fn(S, E) -> S,
    sink: spec_fn(S) -> bool,
    s: S,
    events: Seq<E>,
    hit: spec_fn(S) -> bool,
)
    requires
        sink(s),
        forall|t: S, e: E| sink(t) ==> sink(#[trigger] step(t, e)),
        forall|t: S| #[trigger] sink(t) ==> !hit(t),
    ensures
        !reaches(step, s, events, hit),
    decreases events.len(),
{
    if events.len() > 0 {
        lemma_absorbing_excludes(step, sink, step(s, events[0]), events.drop_first(), hit);
    }
}

/// A run that starts at or below rank `m` and passes through a goal ranked
/// above `m` stands on rank `m` on the way — provided no transition jumps
/// from below `m` past `m` except into the absorbing sink, where the goal
/// is never found. Every state of rank `m` counts as the target.
pub proof fn lemma_pass_through<S, E>(
    step: spec_fn(S, E) -> S,
    rank: spec_fn(S) -> int,
    inv: spec_fn(S) -> bool,
    sink: spec_fn(S) -> bool,
    s: S,
    events: Seq<E>,
    target: spec_fn(S) -> bool,
    goal: spec_fn(S) -> bool,
    m: int,
)
    requires
        inv(s),
        rank(s) <= m,
        forall|t: S, e: E| inv(t) ==> inv(#[trigger] step(t, e)),
        forall|t: S, e: E|
            inv(t) && rank(t) < m ==> rank(#[trigger] step(t, e)) <= m || sink(step(t, e)),
        forall|t: S, e: E| sink(t) ==> sink(#[trigger] step(t, e)),
        forall|t: S| #[trigger] sink(t) ==> !goal(t),
        forall|t: S| inv(t) && #[trigger] goal(t) ==> rank(t) > m,
        forall|t: S| inv(t) && rank(t) == m ==> #[trigger] target(t),
        reaches(step, s, events, goal),
    ensures
        reaches(step, s, events, target),
    decreases events.len(),
{
    if rank(s) == m {
        assert(target(s));
    } else {
        assert(!goal(s));
        let s2 = step(s, events[0]);
        if sink(s2) {
            lemma_absorbing_excludes(step, sink, s2, events.drop_first(), goal);
            assert(false);
        } else {
            lemma_pass_through(
                step,
                rank,
                inv,
                sink,
                s2,
                events.drop_first(),
                target,
                goal,
                m,
            );
        }
    }
}

} // verus!
