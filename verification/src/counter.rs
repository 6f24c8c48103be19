//! A counter state machine: `Idle { count }` until started, then
//! `Running { count, started_at }`, where it counts up until stopped.
use vstd::prelude::*;
use crate::transition::{counted, reachable, lemma_reachable_from_itself, lemma_reachable_step, lemma_reachable_keeps};
use std::sync::Arc;
use vstd::rwlock::RwLock;

verus! {

/// The state of a counter, with that state's data.
#[derive(Debug, Clone, Copy, PartialEq, Eq, Structural)]
pub enum CounterStateData {
    Idle { count: u64 },
    Running { count: u64, started_at: u64 },
}

/// The counter's context: it carries nothing.
#[derive(Debug, Clone, Copy, PartialEq, Eq, Structural)]
pub struct CounterContext;

impl Default for CounterContext {
    fn default() -> (c: Self)
        ensures
            c == CounterContext,
    {
        CounterContext
    }
}

/// The error that `start` reports.
#[derive(Debug, Clone, Copy, PartialEq, Eq, Structural)]
pub enum StartError {
    InvalidState,
}

/// The error that `increment` reports.
#[derive(Debug, Clone, Copy, PartialEq, Eq, Structural)]
pub enum IncrementError {
    InvalidState,
}

/// The error that `stop` reports.
#[derive(Debug, Clone, Copy, PartialEq, Eq, Structural)]
pub enum StopError {
    InvalidState,
}

/// The whole state of a counter: its state data and its context.
#[derive(Debug, Clone, Copy, PartialEq, Eq, Structural)]
pub struct CounterSnapshot {
    pub state: CounterStateData,
    pub context: CounterContext,
}

/// What `start` does: from `before` it leaves `after` and returns `r`.
pub open spec fn start_step(before: CounterSnapshot, after: CounterSnapshot, r: Result<(), StartError>) -> bool {
    match before.state {
        CounterStateData::Idle { count } => {
            &&& r is Ok
            &&& after.state == (CounterStateData::Running { count, started_at: 0 })
            &&& after.context == before.context
        },
        _ => r == Err::<(), StartError>(StartError::InvalidState) && after == before,
    }
}

/// What `increment` does: from `before` it leaves `after` and returns `r`.
pub open spec fn increment_step(before: CounterSnapshot, after: CounterSnapshot, r: Result<(), IncrementError>) -> bool {
    match before.state {
        CounterStateData::Running { count, started_at } => {
            &&& r is Ok
            &&& after.state == (CounterStateData::Running { count: counted(count), started_at })
            &&& after.context == before.context
        },
        _ => r == Err::<(), IncrementError>(IncrementError::InvalidState) && after == before,
    }
}

/// What `stop` does: from `before` it leaves `after` and returns `r`.
pub open spec fn stop_step(before: CounterSnapshot, after: CounterSnapshot, r: Result<(), StopError>) -> bool {
    match before.state {
        CounterStateData::Running { count, .. } => {
            &&& r is Ok
            &&& after.state == (CounterStateData::Idle { count })
            &&& after.context == before.context
        },
        _ => r == Err::<(), StopError>(StopError::InvalidState) && after == before,
    }
}

/// One transition of a counter, whichever it is and whatever it returns.
pub open spec fn counter_step(before: CounterSnapshot, after: CounterSnapshot) -> bool {
    ||| exists|r: Result<(), StartError>| start_step(before, after, r)
    ||| exists|r: Result<(), IncrementError>| increment_step(before, after, r)
    ||| exists|r: Result<(), StopError>| stop_step(before, after, r)
}

/// The transitions of a counter, as a relation.
pub open spec fn counter_steps() -> spec_fn(CounterSnapshot, CounterSnapshot) -> bool {
    |before: CounterSnapshot, after: CounterSnapshot| counter_step(before, after)
}

impl CounterSnapshot {
    /// A fresh counter: `Idle` with count 0.
    pub fn initial(context: CounterContext) -> (m: Self)
        ensures
            m.state == (CounterStateData::Idle { count: 0 }),
            m.context == context,
    {
        CounterSnapshot { state: CounterStateData::Idle { count: 0 }, context }
    }

    /// Idle -> Running: the count is kept and the start time is 0.
    pub fn start(&mut self) -> (r: Result<(), StartError>)
        ensures
            start_step(*old(self), *final(self), r),
    {
        match self.state {
            CounterStateData::Idle { count } => {
                self.state = CounterStateData::Running { count, started_at: 0 };
                Ok(())
            },
            _ => Err(StartError::InvalidState),
        }
    }

    /// Running -> Running with the count one higher (wrapping at `u64::MAX`).
    pub fn increment(&mut self) -> (r: Result<(), IncrementError>)
        ensures
            increment_step(*old(self), *final(self), r),
    {
        match self.state {
            CounterStateData::Running { count, started_at } => {
                self.state = CounterStateData::Running { count: count.wrapping_add(1), started_at };
                Ok(())
            },
            _ => Err(IncrementError::InvalidState),
        }
    }

    /// Running -> Idle, keeping the count.
    pub fn stop(&mut self) -> (r: Result<(), StopError>)
        ensures
            stop_step(*old(self), *final(self), r),
    {
        match self.state {
            CounterStateData::Running { count, .. } => {
                self.state = CounterStateData::Idle { count };
                Ok(())
            },
            _ => Err(StopError::InvalidState),
        }
    }
}

/// A counter that was made fresh is only ever `Running` with start time 0:
/// every state reachable from `Idle` with count 0 has that property.
pub proof fn law_fresh_counter_starts_at_zero(ctx: CounterContext, s: CounterSnapshot)
    requires
        reachable(counter_steps(), CounterSnapshot { state: CounterStateData::Idle { count: 0 }, context: ctx }, s),
    ensures
        s.state matches CounterStateData::Running { started_at, .. } ==> started_at == 0,
{
    let inv = |x: CounterSnapshot| x.state matches CounterStateData::Running { started_at, .. } ==> started_at == 0;
    assert forall|a: CounterSnapshot, b: CounterSnapshot| inv(a) && #[trigger] counter_steps()(a, b) implies inv(b) by {
        assert(counter_step(a, b));
    }
    lemma_reachable_keeps(
        counter_steps(),
        inv,
        CounterSnapshot { state: CounterStateData::Idle { count: 0 }, context: ctx },
        s,
    );
}

/// A counter shared by all its clones: every clone reads and moves the same
/// state. Each call takes the lock, applies the transition of
/// [`CounterSnapshot`] to the current state and releases the lock. Which
/// state it finds depends on what other clones did, but every state the
/// counter holds is reachable by transitions from the state it was made
/// with, its [`origin`](Counter::origin).
pub struct Counter {
    inner: Arc<RwLock<CounterSnapshot, spec_fn(CounterSnapshot) -> bool>>,
    origin: Ghost<CounterSnapshot>,
}

impl Counter {
    /// The state the counter was made with.
    pub closed spec fn origin(&self) -> CounterSnapshot {
        self.origin@
    }

    /// The lock holds exactly the states reachable from the origin.
    #[verifier::type_invariant]
    spec fn holds_reachable_states(&self) -> bool {
        forall|v: CounterSnapshot| #[trigger] self.inner.inv(v) == reachable(counter_steps(), self.origin@, v)
    }

    /// A new counter, `Idle` with count 0.
    pub fn new() -> (c: Self)
        ensures
            c.origin() == (CounterSnapshot { state: CounterStateData::Idle { count: 0 }, context: CounterContext }),
    {
        Self::with_context(CounterContext)
    }

    /// A new counter, `Idle` with count 0, with the given context.
    pub fn with_context(ctx: CounterContext) -> (c: Self)
        ensures
            c.origin() == (CounterSnapshot { state: CounterStateData::Idle { count: 0 }, context: ctx }),
    {
        Self::from_snapshot(CounterSnapshot::initial(ctx))
    }

    /// A counter restored from a snapshot.
    pub fn from_snapshot(snapshot: CounterSnapshot) -> (c: Self)
        ensures
            c.origin() == snapshot,
    {
        let ghost reach = |s: CounterSnapshot| reachable(counter_steps(), snapshot, s);
        proof { lemma_reachable_from_itself(counter_steps(), snapshot); }
        Counter { inner: Arc::new(RwLock::new(snapshot, Ghost(reach))), origin: Ghost(snapshot) }
    }

    /// The current state data: that of a snapshot reachable from the origin.
    pub fn get_state(&self) -> (s: CounterStateData)
        ensures
            exists|v: CounterSnapshot| #[trigger] reachable(counter_steps(), self.origin(), v) && v.state == s,
    {
        proof { use_type_invariant(self); }
        let h = self.inner.acquire_read();
        let ghost v = h.view();
        let s = h.borrow().state;
        h.release_read();
        assert(reachable(counter_steps(), self.origin(), v));
        s
    }

    /// The current state and context: a snapshot reachable from the origin.
    pub fn snapshot(&self) -> (s: CounterSnapshot)
        ensures
            reachable(counter_steps(), self.origin(), s),
    {
        proof { use_type_invariant(self); }
        let h = self.inner.acquire_read();
        let s = *h.borrow();
        h.release_read();
        s
    }

    /// Applies [`CounterSnapshot::start`] to the current state: what it
    /// returns is what `start` returns from some state reachable from the origin.
    pub fn start(&self) -> (r: Result<(), StartError>)
        ensures
            exists|before: CounterSnapshot, after: CounterSnapshot|
                #[trigger] reachable(counter_steps(), self.origin(), before) && #[trigger] start_step(before, after, r),
    {
        proof { use_type_invariant(self); }
        let (mut cur, h) = self.inner.acquire_write();
        let ghost before = cur;
        let r = cur.start();
        proof {
            assert(counter_step(before, cur));
            lemma_reachable_step(counter_steps(), self.origin@, before, cur);
        }
        h.release_write(cur);
        r
    }

    /// Applies [`CounterSnapshot::increment`] to the current state: what it
    /// returns is what `increment` returns from some state reachable from the origin.
    pub fn increment(&self) -> (r: Result<(), IncrementError>)
        ensures
            exists|before: CounterSnapshot, after: CounterSnapshot|
                #[trigger] reachable(counter_steps(), self.origin(), before) && #[trigger] increment_step(before, after, r),
    {
        proof { use_type_invariant(self); }
        let (mut cur, h) = self.inner.acquire_write();
        let ghost before = cur;
        let r = cur.increment();
        proof {
            assert(counter_step(before, cur));
            lemma_reachable_step(counter_steps(), self.origin@, before, cur);
        }
        h.release_write(cur);
        r
    }

    /// Applies [`CounterSnapshot::stop`] to the current state: what it
    /// returns is what `stop` returns from some state reachable from the origin.
    pub fn stop(&self) -> (r: Result<(), StopError>)
        ensures
            exists|before: CounterSnapshot, after: CounterSnapshot|
                #[trigger] reachable(counter_steps(), self.origin(), before) && #[trigger] stop_step(before, after, r),
    {
        proof { use_type_invariant(self); }
        let (mut cur, h) = self.inner.acquire_write();
        let ghost before = cur;
        let r = cur.stop();
        proof {
            assert(counter_step(before, cur));
            lemma_reachable_step(counter_steps(), self.origin@, before, cur);
        }
        h.release_write(cur);
        r
    }
}

impl Clone for Counter {
    /// Another handle to the same shared counter.
    fn clone(&self) -> (c: Self)
        ensures
            c == *self,
    {
        proof { use_type_invariant(self); }
        Counter { inner: self.inner.clone(), origin: self.origin }
    }
}

} // verus!
