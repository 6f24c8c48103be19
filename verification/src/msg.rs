//! A message claimed under a leadership: `Pending` until a leader claims it
//! (`Claimed { leader, term }`), then `Done` once that same leadership
//! finishes it, or `Pending` again if released.
use vstd::prelude::*;
use crate::transition::{reachable, lemma_reachable_from_itself, lemma_reachable_step};
use std::sync::Arc;
use vstd::rwlock::RwLock;

verus! {

/// The state of a message, with that state's data.
#[derive(Debug, Clone, Copy, PartialEq, Eq, Structural)]
pub enum MsgStateData {
    Pending,
    Claimed { leader: u64, term: u64 },
    Done,
}

/// The message's context: it carries nothing.
#[derive(Debug, Clone, Copy, PartialEq, Eq, Structural)]
pub struct MsgContext;

impl Default for MsgContext {
    fn default() -> (c: Self)
        ensures
            c == MsgContext,
    {
        MsgContext
    }
}

/// The error that `claim` reports.
#[derive(Debug, Clone, Copy, PartialEq, Eq, Structural)]
pub enum ClaimError {
    InvalidState,
}

/// The error that `finish` reports: not claimed, or claimed under another
/// leadership.
#[derive(Debug, Clone, Copy, PartialEq, Eq, Structural)]
pub enum FinishError {
    InvalidState,
    GuardFailed,
}

/// The error that `release` reports.
#[derive(Debug, Clone, Copy, PartialEq, Eq, Structural)]
pub enum ReleaseError {
    InvalidState,
}

/// The whole state of a message: its state data and its context.
#[derive(Debug, Clone, Copy, PartialEq, Eq, Structural)]
pub struct MsgSnapshot {
    pub state: MsgStateData,
    pub context: MsgContext,
}

/// The state after `claim(leader, term)` from `s`: claimed under that
/// leadership if it was pending, else unchanged.
pub open spec fn after_claim(s: MsgStateData, leader: u64, term: u64) -> MsgStateData {
    if s == MsgStateData::Pending { MsgStateData::Claimed { leader, term } } else { s }
}

/// What `finish(check_leader, check_term)` returns from `s`.
pub open spec fn finish_result(s: MsgStateData, check_leader: u64, check_term: u64) -> Result<(), FinishError> {
    match s {
        MsgStateData::Claimed { leader, term } => if leader == check_leader && term == check_term {
            Ok(())
        } else {
            Err(FinishError::GuardFailed)
        },
        _ => Err(FinishError::InvalidState),
    }
}

/// The state after `finish(check_leader, check_term)` from `s`: done if it
/// succeeds, else unchanged.
pub open spec fn after_finish(s: MsgStateData, check_leader: u64, check_term: u64) -> MsgStateData {
    if finish_result(s, check_leader, check_term) is Ok { MsgStateData::Done } else { s }
}

/// The state after `release()` from `s`: pending if it was claimed, else unchanged.
pub open spec fn after_release(s: MsgStateData) -> MsgStateData {
    if s is Claimed { MsgStateData::Pending } else { s }
}

impl MsgSnapshot {
    /// A fresh message: `Pending`.
    pub fn initial(context: MsgContext) -> (m: Self)
        ensures
            m.state == MsgStateData::Pending,
            m.context == context,
    {
        MsgSnapshot { state: MsgStateData::Pending, context }
    }

    /// Pending -> Claimed under the given leadership.
    pub fn claim(&mut self, leader: u64, term: u64) -> (r: Result<(), ClaimError>)
        ensures
            r == (if old(self).state == MsgStateData::Pending { Ok(()) } else { Err(ClaimError::InvalidState) }),
            final(self).state == after_claim(old(self).state, leader, term),
            final(self).context == old(self).context,
    {
        match self.state {
            MsgStateData::Pending => {
                self.state = MsgStateData::Claimed { leader, term };
                Ok(())
            },
            _ => Err(ClaimError::InvalidState),
        }
    }

    /// Claimed -> Done, guarded: the given leadership must be the one the
    /// message was claimed under, else `GuardFailed` and nothing changes.
    pub fn finish(&mut self, check_leader: u64, check_term: u64) -> (r: Result<(), FinishError>)
        ensures
            r == finish_result(old(self).state, check_leader, check_term),
            final(self).state == after_finish(old(self).state, check_leader, check_term),
            final(self).context == old(self).context,
    {
        let (leader, term) = match self.state {
            MsgStateData::Claimed { leader, term } => (leader, term),
            _ => return Err(FinishError::InvalidState),
        };
        if !(leader == check_leader && term == check_term) {
            return Err(FinishError::GuardFailed);
        }
        self.state = MsgStateData::Done;
        Ok(())
    }

    /// Claimed -> Pending.
    pub fn release(&mut self) -> (r: Result<(), ReleaseError>)
        ensures
            r == (if old(self).state is Claimed { Ok(()) } else { Err(ReleaseError::InvalidState) }),
            final(self).state == after_release(old(self).state),
            final(self).context == old(self).context,
    {
        match self.state {
            MsgStateData::Claimed { .. } => {
                self.state = MsgStateData::Pending;
                Ok(())
            },
            _ => Err(ReleaseError::InvalidState),
        }
    }
}

/// After a claim from `Pending`, finishing succeeds exactly when it carries
/// the leadership of the claim.
pub proof fn law_finish_needs_the_claiming_leadership(claim_leader: u64, claim_term: u64, finish_leader: u64, finish_term: u64)
    ensures
        finish_result(after_claim(MsgStateData::Pending, claim_leader, claim_term), finish_leader, finish_term) is Ok
            <==> (claim_leader == finish_leader && claim_term == finish_term),
{
}

/// A claimed message that is released can be claimed again by any
/// leadership, which can then finish it.
pub proof fn law_release_allows_reclaim(l1: u64, t1: u64, l2: u64, t2: u64)
    ensures
        finish_result(after_claim(after_release(after_claim(MsgStateData::Pending, l1, t1)), l2, t2), l2, t2) is Ok,
{
}

/// What `claim(leader, term)` does: from `before` it leaves `after` and returns `r`.
pub open spec fn claim_step(before: MsgSnapshot, after: MsgSnapshot, leader: u64, term: u64, r: Result<(), ClaimError>) -> bool {
    &&& r == (if before.state == MsgStateData::Pending { Ok(()) } else { Err(ClaimError::InvalidState) })
    &&& after.state == after_claim(before.state, leader, term)
    &&& after.context == before.context
}

/// What `finish(check_leader, check_term)` does: from `before` it leaves
/// `after` and returns `r`.
pub open spec fn finish_step(before: MsgSnapshot, after: MsgSnapshot, check_leader: u64, check_term: u64, r: Result<(), FinishError>) -> bool {
    &&& r == finish_result(before.state, check_leader, check_term)
    &&& after.state == after_finish(before.state, check_leader, check_term)
    &&& after.context == before.context
}

/// What `release()` does: from `before` it leaves `after` and returns `r`.
pub open spec fn release_step(before: MsgSnapshot, after: MsgSnapshot, r: Result<(), ReleaseError>) -> bool {
    &&& r == (if before.state is Claimed { Ok(()) } else { Err(ReleaseError::InvalidState) })
    &&& after.state == after_release(before.state)
    &&& after.context == before.context
}

/// One transition of a message, whichever it is, with whatever arguments
/// and whatever it returns.
pub open spec fn msg_step(before: MsgSnapshot, after: MsgSnapshot) -> bool {
    ||| exists|l: u64, t: u64, r: Result<(), ClaimError>| claim_step(before, after, l, t, r)
    ||| exists|l: u64, t: u64, r: Result<(), FinishError>| finish_step(before, after, l, t, r)
    ||| exists|r: Result<(), ReleaseError>| release_step(before, after, r)
}

/// The transitions of a message, as a relation.
pub open spec fn msg_steps() -> spec_fn(MsgSnapshot, MsgSnapshot) -> bool {
    |before: MsgSnapshot, after: MsgSnapshot| msg_step(before, after)
}

/// A message shared by all its clones: every clone reads and moves the same
/// state. Each call takes the lock, applies the transition of
/// [`MsgSnapshot`] to the current state and releases the lock. Which state
/// it finds depends on what other clones did, but every state the message
/// holds is reachable by transitions from the state it was made with, its
/// [`origin`](Msg::origin).
pub struct Msg {
    inner: Arc<RwLock<MsgSnapshot, spec_fn(MsgSnapshot) -> bool>>,
    origin: Ghost<MsgSnapshot>,
}

impl Msg {
    /// The state the message was made with.
    pub closed spec fn origin(&self) -> MsgSnapshot {
        self.origin@
    }

    /// The lock holds exactly the states reachable from the origin.
    #[verifier::type_invariant]
    spec fn holds_reachable_states(&self) -> bool {
        forall|v: MsgSnapshot| #[trigger] self.inner.inv(v) == reachable(msg_steps(), self.origin@, v)
    }

    /// A new message, `Pending`.
    pub fn new() -> (m: Self)
        ensures
            m.origin() == (MsgSnapshot { state: MsgStateData::Pending, context: MsgContext }),
    {
        Self::with_context(MsgContext)
    }

    /// A new message, `Pending`, with the given context.
    pub fn with_context(ctx: MsgContext) -> (m: Self)
        ensures
            m.origin() == (MsgSnapshot { state: MsgStateData::Pending, context: ctx }),
    {
        Self::from_snapshot(MsgSnapshot::initial(ctx))
    }

    /// A message restored from a snapshot.
    pub fn from_snapshot(snapshot: MsgSnapshot) -> (m: Self)
        ensures
            m.origin() == snapshot,
    {
        let ghost reach = |s: MsgSnapshot| reachable(msg_steps(), snapshot, s);
        proof { lemma_reachable_from_itself(msg_steps(), snapshot); }
        Msg { inner: Arc::new(RwLock::new(snapshot, Ghost(reach))), origin: Ghost(snapshot) }
    }

    /// The current state data: that of a snapshot reachable from the origin.
    pub fn get_state(&self) -> (s: MsgStateData)
        ensures
            exists|v: MsgSnapshot| #[trigger] reachable(msg_steps(), self.origin(), v) && v.state == s,
    {
        proof { use_type_invariant(self); }
        let h = self.inner.acquire_read();
        let ghost v = h.view();
        let s = h.borrow().state;
        h.release_read();
        assert(reachable(msg_steps(), self.origin(), v));
        s
    }

    /// The current state and context: a snapshot reachable from the origin.
    pub fn snapshot(&self) -> (s: MsgSnapshot)
        ensures
            reachable(msg_steps(), self.origin(), s),
    {
        proof { use_type_invariant(self); }
        let h = self.inner.acquire_read();
        let s = *h.borrow();
        h.release_read();
        s
    }

    /// Applies [`MsgSnapshot::claim`] to the current state: what it returns
    /// is what `claim` returns from some state reachable from the origin.
    pub fn claim(&self, leader: u64, term: u64) -> (r: Result<(), ClaimError>)
        ensures
            exists|before: MsgSnapshot, after: MsgSnapshot|
                #[trigger] reachable(msg_steps(), self.origin(), before) && #[trigger] claim_step(before, after, leader, term, r),
    {
        proof { use_type_invariant(self); }
        let (mut cur, h) = self.inner.acquire_write();
        let ghost before = cur;
        let r = cur.claim(leader, term);
        proof {
            assert(claim_step(before, cur, leader, term, r));
            assert(msg_step(before, cur));
            lemma_reachable_step(msg_steps(), self.origin@, before, cur);
        }
        h.release_write(cur);
        r
    }

    /// Applies [`MsgSnapshot::finish`] to the current state: what it returns
    /// is what `finish` returns from some state reachable from the origin.
    pub fn finish(&self, check_leader: u64, check_term: u64) -> (r: Result<(), FinishError>)
        ensures
            exists|before: MsgSnapshot, after: MsgSnapshot|
                #[trigger] reachable(msg_steps(), self.origin(), before)
                    && #[trigger] finish_step(before, after, check_leader, check_term, r),
    {
        proof { use_type_invariant(self); }
        let (mut cur, h) = self.inner.acquire_write();
        let ghost before = cur;
        let r = cur.finish(check_leader, check_term);
        proof {
            assert(finish_step(before, cur, check_leader, check_term, r));
            assert(msg_step(before, cur));
            lemma_reachable_step(msg_steps(), self.origin@, before, cur);
        }
        h.release_write(cur);
        r
    }

    /// Applies [`MsgSnapshot::release`] to the current state: what it returns
    /// is what `release` returns from some state reachable from the origin.
    pub fn release(&self) -> (r: Result<(), ReleaseError>)
        ensures
            exists|before: MsgSnapshot, after: MsgSnapshot|
                #[trigger] reachable(msg_steps(), self.origin(), before) && #[trigger] release_step(before, after, r),
    {
        proof { use_type_invariant(self); }
        let (mut cur, h) = self.inner.acquire_write();
        let ghost before = cur;
        let r = cur.release();
        proof {
            assert(release_step(before, cur, r));
            assert(msg_step(before, cur));
            lemma_reachable_step(msg_steps(), self.origin@, before, cur);
        }
        h.release_write(cur);
        r
    }
}

impl Clone for Msg {
    /// Another handle to the same shared message.
    fn clone(&self) -> (c: Self)
        ensures
            c == *self,
    {
        proof { use_type_invariant(self); }
        Msg { inner: self.inner.clone(), origin: self.origin }
    }
}

} // verus!
