//! The error of a state-machine transition whose body can refuse with an
//! error of its own.
use vstd::prelude::*;

verus! {

/// Why a transition did not happen: the machine was not in a source state of
/// the transition, or the transition's body refused with a user error.
#[derive(Debug, Clone, Copy, PartialEq, Eq, Structural)]
pub enum TransitionError<E> {
    InvalidState,
    User(E),
}

/// A context counter after one more event; it wraps from `u64::MAX` to 0.
pub open spec fn counted(n: u64) -> u64 {
    if n == u64::MAX {
        0
    } else {
        (n + 1) as u64
    }
}


/// `path` is a run of steps: each state is related by `step` to the next.
pub open spec fn is_run<S>(step: spec_fn(S, S) -> bool, path: Seq<S>) -> bool {
    forall|i: int| 0 <= i < path.len() - 1 ==> #[trigger] step(path[i], path[i + 1])
}

/// `to` is reached from `from` by some run of steps related by `step`: the
/// states a shared machine can hold after it was made with `from`.
pub open spec fn reachable<S>(step: spec_fn(S, S) -> bool, from: S, to: S) -> bool {
    exists|path: Seq<S>| #[trigger] is_run(step, path) && path.len() > 0 && path[0] == from && path.last() == to
}

/// A state is reachable from itself.
pub proof fn lemma_reachable_from_itself<S>(step: spec_fn(S, S) -> bool, s: S)
    ensures
        reachable(step, s, s),
{
    let path = seq![s];
    assert(is_run(step, path));
}

/// One more step from a reachable state reaches a reachable state.
pub proof fn lemma_reachable_step<S>(step: spec_fn(S, S) -> bool, from: S, mid: S, to: S)
    requires
        reachable(step, from, mid),
        step(mid, to),
    ensures
        reachable(step, from, to),
{
    let path = choose|path: Seq<S>| #[trigger] is_run(step, path) && path.len() > 0 && path[0] == from && path.last() == mid;
    let longer = path.push(to);
    assert forall|i: int| 0 <= i < longer.len() - 1 implies #[trigger] step(longer[i], longer[i + 1]) by {
        if i < path.len() - 1 {
            assert(step(path[i], path[i + 1]));
        }
    }
    assert(is_run(step, longer));
}


/// What every step keeps holds all along a run that starts where it holds.
proof fn lemma_run_keeps<S>(step: spec_fn(S, S) -> bool, inv: spec_fn(S) -> bool, path: Seq<S>, i: int)
    requires
        is_run(step, path),
        0 <= i < path.len(),
        inv(path[0]),
        forall|a: S, b: S| inv(a) && #[trigger] step(a, b) ==> inv(b),
    ensures
        inv(path[i]),
    decreases i,
{
    if i > 0 {
        let j = i - 1;
        lemma_run_keeps(step, inv, path, j);
        assert(step(path[j], path[j + 1]));
        assert(j + 1 == i);
    }
}

/// What every step keeps, every reachable state has.
pub proof fn lemma_reachable_keeps<S>(step: spec_fn(S, S) -> bool, inv: spec_fn(S) -> bool, from: S, to: S)
    requires
        reachable(step, from, to),
        inv(from),
        forall|a: S, b: S| inv(a) && #[trigger] step(a, b) ==> inv(b),
    ensures
        inv(to),
{
    let path = choose|path: Seq<S>| #[trigger] is_run(step, path) && path.len() > 0 && path[0] == from && path.last() == to;
    lemma_run_keeps(step, inv, path, path.len() - 1);
}

} // verus!
