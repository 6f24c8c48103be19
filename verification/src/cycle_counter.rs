//! A two-state work cycle: `Ready` until started, `Working` until done.
use vstd::prelude::*;
use crate::transition::{reachable, lemma_reachable_from_itself, lemma_reachable_step};
use std::sync::Arc;
use vstd::rwlock::RwLock;

verus! {

/// The state of a work cycle.
#[derive(Debug, Clone, Copy, PartialEq, Eq, Structural)]
pub enum CounterStateData {
    Ready,
    Working,
}

/// The cycle's context: it carries nothing.
#[derive(Debug, Clone, Copy, PartialEq, Eq, Structural)]
pub struct CounterContext;

impl Default for CounterContext {
    fn default() -> (c: Self)
        ensures
            c == CounterContext,
    {
        CounterContext
    }
}

/// The error that `start` reports.
#[derive(Debug, Clone, Copy, PartialEq, Eq, Structural)]
pub enum StartError {
    InvalidState,
}

/// The error that `done` reports.
#[derive(Debug, Clone, Copy, PartialEq, Eq, Structural)]
pub enum DoneError {
    InvalidState,
}

/// The whole state of a work cycle: its state and its context.
#[derive(Debug, Clone, Copy, PartialEq, Eq, Structural)]
pub struct CounterSnapshot {
    pub state: CounterStateData,
    pub context: CounterContext,
}

/// What `start` does: from `before` it leaves `after` and returns `r`.
pub open spec fn start_step(before: CounterSnapshot, after: CounterSnapshot, r: Result<(), StartError>) -> bool {
    if before.state == CounterStateData::Ready {
        r is Ok && after.state == CounterStateData::Working && after.context == before.context
    } else {
        r == Err::<(), StartError>(StartError::InvalidState) && after == before
    }
}

/// What `done` does: from `before` it leaves `after` and returns `r`.
pub open spec fn done_step(before: CounterSnapshot, after: CounterSnapshot, r: Result<(), DoneError>) -> bool {
    if before.state == CounterStateData::Working {
        r is Ok && after.state == CounterStateData::Ready && after.context == before.context
    } else {
        r == Err::<(), DoneError>(DoneError::InvalidState) && after == before
    }
}

/// One transition of a cycle, whichever it is and whatever it returns.
pub open spec fn counter_step(before: CounterSnapshot, after: CounterSnapshot) -> bool {
    (exists|r: Result<(), StartError>| start_step(before, after, r))
        || (exists|r: Result<(), DoneError>| done_step(before, after, r))
}

/// The transitions of a cycle, as a relation.
pub open spec fn counter_steps() -> spec_fn(CounterSnapshot, CounterSnapshot) -> bool {
    |before: CounterSnapshot, after: CounterSnapshot| counter_step(before, after)
}

impl CounterSnapshot {
    /// A fresh cycle: `Ready`.
    pub fn initial(context: CounterContext) -> (m: Self)
        ensures
            m.state == CounterStateData::Ready,
            m.context == context,
    {
        CounterSnapshot { state: CounterStateData::Ready, context }
    }

    /// Ready -> Working.
    pub fn start(&mut self) -> (r: Result<(), StartError>)
        ensures
            start_step(*old(self), *final(self), r),
    {
        match self.state {
            CounterStateData::Ready => {
                self.state = CounterStateData::Working;
                Ok(())
            },
            _ => Err(StartError::InvalidState),
        }
    }

    /// Working -> Ready.
    pub fn done(&mut self) -> (r: Result<(), DoneError>)
        ensures
            done_step(*old(self), *final(self), r),
    {
        match self.state {
            CounterStateData::Working => {
                self.state = CounterStateData::Ready;
                Ok(())
            },
            _ => Err(DoneError::InvalidState),
        }
    }
}

/// A work cycle shared by all its clones: every clone reads and moves the
/// same state. Each call takes the lock, applies the transition of
/// [`CounterSnapshot`] to the current state and releases the lock. Which
/// state it finds depends on what other clones did, but every state the
/// cycle holds is reachable by transitions from the state it was made with,
/// its [`origin`](Counter::origin).
pub struct Counter {
    inner: Arc<RwLock<CounterSnapshot, spec_fn(CounterSnapshot) -> bool>>,
    origin: Ghost<CounterSnapshot>,
}

impl Counter {
    /// The state the cycle was made with.
    pub closed spec fn origin(&self) -> CounterSnapshot {
        self.origin@
    }

    /// The lock holds exactly the states reachable from the origin.
    #[verifier::type_invariant]
    spec fn holds_reachable_states(&self) -> bool {
        forall|v: CounterSnapshot| #[trigger] self.inner.inv(v) == reachable(counter_steps(), self.origin@, v)
    }

    /// A new cycle, `Ready`.
    pub fn new() -> (c: Self)
        ensures
            c.origin() == (CounterSnapshot { state: CounterStateData::Ready, context: CounterContext }),
    {
        Self::with_context(CounterContext)
    }

    /// A new cycle, `Ready`, with the given context.
    pub fn with_context(ctx: CounterContext) -> (c: Self)
        ensures
            c.origin() == (CounterSnapshot { state: CounterStateData::Ready, context: ctx }),
    {
        Self::from_snapshot(CounterSnapshot::initial(ctx))
    }

    /// A cycle restored from a snapshot.
    pub fn from_snapshot(snapshot: CounterSnapshot) -> (c: Self)
        ensures
            c.origin() == snapshot,
    {
        let ghost reach = |s: CounterSnapshot| reachable(counter_steps(), snapshot, s);
        proof { lemma_reachable_from_itself(counter_steps(), snapshot); }
        Counter { inner: Arc::new(RwLock::new(snapshot, Ghost(reach))), origin: Ghost(snapshot) }
    }

    /// The current state: the state of a snapshot reachable from the origin.
    pub fn get_state(&self) -> (s: CounterStateData)
        ensures
            exists|v: CounterSnapshot| #[trigger] reachable(counter_steps(), self.origin(), v) && v.state == s,
    {
        proof { use_type_invariant(self); }
        let h = self.inner.acquire_read();
        let ghost v = h.view();
        let s = h.borrow().state;
        h.release_read();
        assert(reachable(counter_steps(), self.origin(), v));
        s
    }

    /// The current state and context: a snapshot reachable from the origin.
    pub fn snapshot(&self) -> (s: CounterSnapshot)
        ensures
            reachable(counter_steps(), self.origin(), s),
    {
        proof { use_type_invariant(self); }
        let h = self.inner.acquire_read();
        let s = *h.borrow();
        h.release_read();
        s
    }

    /// Applies [`CounterSnapshot::start`] to the current state: what it
    /// returns is what `start` returns from some state reachable from the origin.
    pub fn start(&self) -> (r: Result<(), StartError>)
        ensures
            exists|before: CounterSnapshot, after: CounterSnapshot|
                #[trigger] reachable(counter_steps(), self.origin(), before) && #[trigger] start_step(before, after, r),
    {
        proof { use_type_invariant(self); }
        let (mut cur, h) = self.inner.acquire_write();
        let ghost before = cur;
        let r = cur.start();
        proof {
            assert(counter_step(before, cur));
            lemma_reachable_step(counter_steps(), self.origin@, before, cur);
        }
        h.release_write(cur);
        r
    }

    /// Applies [`CounterSnapshot::done`] to the current state: what it
    /// returns is what `done` returns from some state reachable from the origin.
    pub fn done(&self) -> (r: Result<(), DoneError>)
        ensures
            exists|before: CounterSnapshot, after: CounterSnapshot|
                #[trigger] reachable(counter_steps(), self.origin(), before) && #[trigger] done_step(before, after, r),
    {
        proof { use_type_invariant(self); }
        let (mut cur, h) = self.inner.acquire_write();
        let ghost before = cur;
        let r = cur.done();
        proof {
            assert(counter_step(before, cur));
            lemma_reachable_step(counter_steps(), self.origin@, before, cur);
        }
        h.release_write(cur);
        r
    }
}

impl Clone for Counter {
    /// Another handle to the same shared cycle.
    fn clone(&self) -> (c: Self)
        ensures
            c == *self,
    {
        proof { use_type_invariant(self); }
        Counter { inner: self.inner.clone(), origin: self.origin }
    }
}

} // verus!
