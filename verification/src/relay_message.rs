//! The message delivery state machine of a Raft-based relay with
//! exactly-once semantics.
//!
//! A message is `Pending` until a leader claims it (`InFlight`). When a new
//! leader sees it in flight under an old leadership it becomes `InDoubt`. The
//! original leader's forwarded ack (`Acked`) or nack (back to `Pending`) must
//! carry the leadership the message was claimed under. An in-doubt message
//! that times out is dead-lettered.
use vstd::prelude::*;
use crate::transition::{TransitionError, counted, reachable, lemma_reachable_from_itself, lemma_reachable_step, lemma_reachable_keeps};
use std::sync::Arc;
use vstd::rwlock::RwLock;

verus! {

pub type NodeId = u64;

/// Reason for dead-lettering a message.
#[derive(Debug, Clone, PartialEq)]
pub enum DeadLetterReason {
    AmbiguousFailure { reason: String },
    MaxRetriesExceeded,
}

impl DeadLetterReason {
    /// A copy equal to `self`.
    pub fn duplicate(&self) -> (r: Self)
        ensures
            r == *self,
    {
        match self {
            DeadLetterReason::AmbiguousFailure { reason } => DeadLetterReason::AmbiguousFailure {
                reason: reason.clone(),
            },
            DeadLetterReason::MaxRetriesExceeded => DeadLetterReason::MaxRetriesExceeded,
        }
    }
}

/// Errors that can occur during message state transitions.
#[derive(Debug, Clone, Copy, PartialEq, Eq, Structural)]
pub enum MessageError {
    /// Tried to mark in-doubt but leader/term hasn't changed
    SameLeader,
    /// Tried to ack/nack with wrong leader/term credentials
    LeaderMismatch { expected_leader: NodeId, expected_term: u64, got_leader: NodeId, got_term: u64 },
}

/// Context for the message state machine.
#[derive(Debug, Clone, Copy, PartialEq, Eq)]
pub struct MessageContext {
    pub current_time_secs: u64,
    pub total_acked: u64,
    pub total_nacked: u64,
    pub total_dead_lettered: u64,
}

impl Default for MessageContext {
    /// The context at time 0 with all counters at 0.
    fn default() -> (c: Self)
        ensures
            c == (MessageContext {
                current_time_secs: 0,
                total_acked: 0,
                total_nacked: 0,
                total_dead_lettered: 0,
            }),
    {
        MessageContext { current_time_secs: 0, total_acked: 0, total_nacked: 0, total_dead_lettered: 0 }
    }
}

/// The state of a message, with that state's data.
#[derive(Debug, Clone, PartialEq)]
pub enum RelayMessageStateData {
    Pending,
    InFlight { leader_id: NodeId, leader_term: u64, started_at_secs: u64 },
    InDoubt { previous_leader: NodeId, previous_term: u64, doubt_started_at_secs: u64 },
    Acked,
    DeadLettered { reason: DeadLetterReason },
}

impl RelayMessageStateData {
    /// A copy equal to `self`.
    pub fn duplicate(&self) -> (r: Self)
        ensures
            r == *self,
    {
        match self {
            RelayMessageStateData::Pending => RelayMessageStateData::Pending,
            RelayMessageStateData::InFlight { leader_id, leader_term, started_at_secs } =>
                RelayMessageStateData::InFlight {
                    leader_id: *leader_id,
                    leader_term: *leader_term,
                    started_at_secs: *started_at_secs,
                },
            RelayMessageStateData::InDoubt { previous_leader, previous_term, doubt_started_at_secs } =>
                RelayMessageStateData::InDoubt {
                    previous_leader: *previous_leader,
                    previous_term: *previous_term,
                    doubt_started_at_secs: *doubt_started_at_secs,
                },
            RelayMessageStateData::Acked => RelayMessageStateData::Acked,
            RelayMessageStateData::DeadLettered { reason } => RelayMessageStateData::DeadLettered {
                reason: reason.duplicate(),
            },
        }
    }
}

/// The leadership an ack or nack must carry: the one the message is in
/// flight with, or the one it was in flight with before it fell in doubt.
pub open spec fn expected_credentials(s: RelayMessageStateData) -> Option<(NodeId, u64)> {
    match s {
        RelayMessageStateData::InFlight { leader_id, leader_term, .. } => Some((leader_id, leader_term)),
        RelayMessageStateData::InDoubt { previous_leader, previous_term, .. } => Some(
            (previous_leader, previous_term),
        ),
        _ => None,
    }
}

/// The error that `mark_in_flight` reports.
#[derive(Debug, Clone, Copy, PartialEq, Eq, Structural)]
pub enum MarkInFlightError {
    InvalidState,
}

/// The error that `timeout_in_doubt` reports.
#[derive(Debug, Clone, Copy, PartialEq, Eq, Structural)]
pub enum TimeoutInDoubtError {
    InvalidState,
}

/// The whole state of a relay message: its state data and the context.
#[derive(Debug, Clone)]
pub struct RelayMessageSnapshot {
    pub state: RelayMessageStateData,
    pub context: MessageContext,
}

/// What `mark_in_flight` does: from `before` it leaves `after` and returns `r`.
pub open spec fn mark_in_flight_step(before: RelayMessageSnapshot, after: RelayMessageSnapshot, leader_id: NodeId, leader_term: u64, r: Result<(), MarkInFlightError>) -> bool {
    &&& (before.state is Pending ==> {
        &&& r is Ok
        &&& after.state == (RelayMessageStateData::InFlight {
            leader_id,
            leader_term,
            started_at_secs: before.context.current_time_secs,
        })
        &&& after.context == before.context
    })
    &&& (!(before.state is Pending) ==> {
        &&& r == Err::<(), MarkInFlightError>(MarkInFlightError::InvalidState)
        &&& after == before
    })
}

/// What `mark_in_doubt` does: from `before` it leaves `after` and returns `r`.
pub open spec fn mark_in_doubt_step(before: RelayMessageSnapshot, after: RelayMessageSnapshot, new_leader: NodeId, new_term: u64, r: Result<(), TransitionError<MessageError>>) -> bool {
    match before.state {
        RelayMessageStateData::InFlight { leader_id, leader_term, .. } =>
            if leader_id == new_leader && leader_term == new_term {
                &&& r == Err::<(), TransitionError<MessageError>>(TransitionError::User(MessageError::SameLeader))
                &&& after == before
            } else {
                &&& r is Ok
                &&& after.state == (RelayMessageStateData::InDoubt {
                    previous_leader: leader_id,
                    previous_term: leader_term,
                    doubt_started_at_secs: before.context.current_time_secs,
                })
                &&& after.context == before.context
            },
        _ => {
            &&& r == Err::<(), TransitionError<MessageError>>(TransitionError::InvalidState)
            &&& after == before
        },
    }
}

/// What `forwarded_ack` does: from `before` it leaves `after` and returns `r`.
pub open spec fn forwarded_ack_step(before: RelayMessageSnapshot, after: RelayMessageSnapshot, original_leader: NodeId, original_term: u64, r: Result<(), TransitionError<MessageError>>) -> bool {
    match expected_credentials(before.state) {
        None => {
            &&& r == Err::<(), TransitionError<MessageError>>(TransitionError::InvalidState)
            &&& after == before
        },
        Some((expected_leader, expected_term)) =>
            if original_leader != expected_leader || original_term != expected_term {
                &&& r == Err::<(), TransitionError<MessageError>>(TransitionError::User(
                    MessageError::LeaderMismatch {
                        expected_leader,
                        expected_term,
                        got_leader: original_leader,
                        got_term: original_term,
                    },
                ))
                &&& after == before
            } else {
                &&& r is Ok
                &&& after.state == RelayMessageStateData::Acked
                &&& after.context == (MessageContext {
                    total_acked: counted(before.context.total_acked),
                    ..before.context
                })
            },
    }
}

/// What `forwarded_nack` does: from `before` it leaves `after` and returns `r`.
pub open spec fn forwarded_nack_step(before: RelayMessageSnapshot, after: RelayMessageSnapshot, original_leader: NodeId, original_term: u64, r: Result<(), TransitionError<MessageError>>) -> bool {
    match expected_credentials(before.state) {
        None => {
            &&& r == Err::<(), TransitionError<MessageError>>(TransitionError::InvalidState)
            &&& after == before
        },
        Some((expected_leader, expected_term)) =>
            if original_leader != expected_leader || original_term != expected_term {
                &&& r == Err::<(), TransitionError<MessageError>>(TransitionError::User(
                    MessageError::LeaderMismatch {
                        expected_leader,
                        expected_term,
                        got_leader: original_leader,
                        got_term: original_term,
                    },
                ))
                &&& after == before
            } else {
                &&& r is Ok
                &&& after.state == RelayMessageStateData::Pending
                &&& after.context == (MessageContext {
                    total_nacked: counted(before.context.total_nacked),
                    ..before.context
                })
            },
    }
}

/// What `timeout_in_doubt` does: from `before` it leaves `after` and returns `r`.
pub open spec fn timeout_in_doubt_step(before: RelayMessageSnapshot, after: RelayMessageSnapshot, r: Result<(), TimeoutInDoubtError>) -> bool {
    &&& (before.state is InDoubt ==> {
        &&& r is Ok
        &&& after.state matches RelayMessageStateData::DeadLettered {
            reason: DeadLetterReason::AmbiguousFailure { reason },
        } && reason@ == "leader_partition_timeout"@
        &&& after.context == (MessageContext {
            total_dead_lettered: counted(before.context.total_dead_lettered),
            ..before.context
        })
    })
    &&& (!(before.state is InDoubt) ==> {
        &&& r == Err::<(), TimeoutInDoubtError>(TimeoutInDoubtError::InvalidState)
        &&& after == before
    })
}

/// One transition of a message, whichever it is, with whatever arguments
/// and whatever it returns.
pub open spec fn relay_step(before: RelayMessageSnapshot, after: RelayMessageSnapshot) -> bool {
    ||| exists|l: NodeId, t: u64, r: Result<(), MarkInFlightError>| mark_in_flight_step(before, after, l, t, r)
    ||| exists|l: NodeId, t: u64, r: Result<(), TransitionError<MessageError>>| mark_in_doubt_step(before, after, l, t, r)
    ||| exists|l: NodeId, t: u64, r: Result<(), TransitionError<MessageError>>| forwarded_ack_step(before, after, l, t, r)
    ||| exists|l: NodeId, t: u64, r: Result<(), TransitionError<MessageError>>| forwarded_nack_step(before, after, l, t, r)
    ||| exists|r: Result<(), TimeoutInDoubtError>| timeout_in_doubt_step(before, after, r)
}

/// The transitions of a message, as a relation.
pub open spec fn relay_steps() -> spec_fn(RelayMessageSnapshot, RelayMessageSnapshot) -> bool {
    |before: RelayMessageSnapshot, after: RelayMessageSnapshot| relay_step(before, after)
}

/// No transition moves the clock: every state reachable from `from` has the
/// current time of `from`.
pub proof fn law_transitions_keep_the_time(from: RelayMessageSnapshot, s: RelayMessageSnapshot)
    requires
        reachable(relay_steps(), from, s),
    ensures
        s.context.current_time_secs == from.context.current_time_secs,
{
    let t = from.context.current_time_secs;
    let inv = |x: RelayMessageSnapshot| x.context.current_time_secs == t;
    assert forall|a: RelayMessageSnapshot, b: RelayMessageSnapshot| inv(a) && #[trigger] relay_steps()(a, b) implies inv(b) by {
        assert(relay_step(a, b));
    }
    lemma_reachable_keeps(relay_steps(), inv, from, s);
}

impl RelayMessageSnapshot {
    /// A fresh message: `Pending`, with the given context.
    pub fn initial(context: MessageContext) -> (m: Self)
        ensures
            m.state == RelayMessageStateData::Pending,
            m.context == context,
    {
        RelayMessageSnapshot { state: RelayMessageStateData::Pending, context }
    }

    /// A copy equal to `self`.
    pub fn duplicate(&self) -> (r: Self)
        ensures
            r == *self,
    {
        RelayMessageSnapshot { state: self.state.duplicate(), context: self.context }
    }

    /// Pending -> InFlight: a leader claims this message for delivery at the
    /// context's current time.
    pub fn mark_in_flight(&mut self, leader_id: NodeId, leader_term: u64) -> (r: Result<(), MarkInFlightError>)
        ensures
            mark_in_flight_step(*old(self), *final(self), leader_id, leader_term, r),
    {
        match self.state {
            RelayMessageStateData::Pending => {},
            _ => return Err(MarkInFlightError::InvalidState),
        }
        self.state = RelayMessageStateData::InFlight {
            leader_id,
            leader_term,
            started_at_secs: self.context.current_time_secs,
        };
        Ok(())
    }

    /// InFlight -> InDoubt: a new leader sees an in-flight message from an old
    /// leader. Refused with `SameLeader` if neither leader nor term changed.
    pub fn mark_in_doubt(&mut self, new_leader: NodeId, new_term: u64) -> (r: Result<(), TransitionError<MessageError>>)
        ensures
            mark_in_doubt_step(*old(self), *final(self), new_leader, new_term, r),
    {
        let (leader_id, leader_term) = match self.state {
            RelayMessageStateData::InFlight { leader_id, leader_term, .. } => (leader_id, leader_term),
            _ => return Err(TransitionError::InvalidState),
        };
        if leader_id == new_leader && leader_term == new_term {
            return Err(TransitionError::User(MessageError::SameLeader));
        }
        self.state = RelayMessageStateData::InDoubt {
            previous_leader: leader_id,
            previous_term: leader_term,
            doubt_started_at_secs: self.context.current_time_secs,
        };
        Ok(())
    }

    /// InFlight | InDoubt -> Acked: the original leader confirms delivery.
    /// Refused with `LeaderMismatch` unless the ack carries the expected
    /// leadership; counts the ack in the context.
    pub fn forwarded_ack(&mut self, original_leader: NodeId, original_term: u64) -> (r: Result<(), TransitionError<MessageError>>)
        ensures
            forwarded_ack_step(*old(self), *final(self), original_leader, original_term, r),
    {
        let (expected_leader, expected_term) = match self.state {
            RelayMessageStateData::InFlight { leader_id, leader_term, .. } => (leader_id, leader_term),
            RelayMessageStateData::InDoubt { previous_leader, previous_term, .. } => (previous_leader, previous_term),
            _ => return Err(TransitionError::InvalidState),
        };
        if original_leader != expected_leader || original_term != expected_term {
            return Err(TransitionError::User(MessageError::LeaderMismatch {
                expected_leader,
                expected_term,
                got_leader: original_leader,
                got_term: original_term,
            }));
        }
        self.context.total_acked = self.context.total_acked.wrapping_add(1);
        self.state = RelayMessageStateData::Acked;
        Ok(())
    }

    /// InFlight | InDoubt -> Pending: the original leader reports failure and
    /// the message is retried. Refused with `LeaderMismatch` unless the nack
    /// carries the expected leadership; counts the nack in the context.
    pub fn forwarded_nack(&mut self, original_leader: NodeId, original_term: u64) -> (r: Result<(), TransitionError<MessageError>>)
        ensures
            forwarded_nack_step(*old(self), *final(self), original_leader, original_term, r),
    {
        let (expected_leader, expected_term) = match self.state {
            RelayMessageStateData::InFlight { leader_id, leader_term, .. } => (leader_id, leader_term),
            RelayMessageStateData::InDoubt { previous_leader, previous_term, .. } => (previous_leader, previous_term),
            _ => return Err(TransitionError::InvalidState),
        };
        if original_leader != expected_leader || original_term != expected_term {
            return Err(TransitionError::User(MessageError::LeaderMismatch {
                expected_leader,
                expected_term,
                got_leader: original_leader,
                got_term: original_term,
            }));
        }
        self.context.total_nacked = self.context.total_nacked.wrapping_add(1);
        self.state = RelayMessageStateData::Pending;
        Ok(())
    }

    /// InDoubt -> DeadLettered: no resolution came in time; the message is
    /// dead-lettered as an ambiguous failure and counted in the context.
    pub fn timeout_in_doubt(&mut self) -> (r: Result<(), TimeoutInDoubtError>)
        ensures
            timeout_in_doubt_step(*old(self), *final(self), r),
    {
        match self.state {
            RelayMessageStateData::InDoubt { .. } => {},
            _ => return Err(TimeoutInDoubtError::InvalidState),
        }
        self.context.total_dead_lettered = self.context.total_dead_lettered.wrapping_add(1);
        self.state = RelayMessageStateData::DeadLettered {
            reason: DeadLetterReason::AmbiguousFailure { reason: "leader_partition_timeout".to_owned() },
        };
        Ok(())
    }
}

/// A relay message shared by all its clones: every clone reads and moves the
/// same state. Each call takes the lock, applies the transition of
/// [`RelayMessageSnapshot`] to the current state and releases the lock. Which
/// state it finds depends on what other clones did, but every state the
/// message holds is reachable by transitions from the state it was made
/// with, its [`origin`](RelayMessage::origin).
pub struct RelayMessage {
    inner: Arc<RwLock<RelayMessageSnapshot, spec_fn(RelayMessageSnapshot) -> bool>>,
    origin: Ghost<RelayMessageSnapshot>,
}

impl RelayMessage {
    /// The state the message was made with.
    pub closed spec fn origin(&self) -> RelayMessageSnapshot {
        self.origin@
    }

    /// The lock holds exactly the states reachable from the origin.
    #[verifier::type_invariant]
    spec fn holds_reachable_states(&self) -> bool {
        forall|v: RelayMessageSnapshot| #[trigger] self.inner.inv(v) == reachable(relay_steps(), self.origin@, v)
    }

    /// A new message in state `Pending` with the default context.
    pub fn new() -> (m: Self)
        ensures
            m.origin() == (RelayMessageSnapshot {
                state: RelayMessageStateData::Pending,
                context: MessageContext { current_time_secs: 0, total_acked: 0, total_nacked: 0, total_dead_lettered: 0 },
            }),
    {
        Self::with_context(MessageContext::default())
    }

    /// A new message in state `Pending` with the given context.
    pub fn with_context(ctx: MessageContext) -> (m: Self)
        ensures
            m.origin() == (RelayMessageSnapshot { state: RelayMessageStateData::Pending, context: ctx }),
    {
        Self::from_snapshot(RelayMessageSnapshot::initial(ctx))
    }

    /// A message restored from a snapshot.
    pub fn from_snapshot(snapshot: RelayMessageSnapshot) -> (m: Self)
        ensures
            m.origin() == snapshot,
    {
        let ghost start = snapshot;
        let ghost reach = |s: RelayMessageSnapshot| reachable(relay_steps(), start, s);
        proof { lemma_reachable_from_itself(relay_steps(), start); }
        RelayMessage { inner: Arc::new(RwLock::new(snapshot, Ghost(reach))), origin: Ghost(start) }
    }

    /// A copy of the current state data: that of a snapshot reachable from the origin.
    pub fn get_state(&self) -> (s: RelayMessageStateData)
        ensures
            exists|v: RelayMessageSnapshot| #[trigger] reachable(relay_steps(), self.origin(), v) && v.state == s,
    {
        proof { use_type_invariant(self); }
        let h = self.inner.acquire_read();
        let ghost v = h.view();
        let s = h.borrow().state.duplicate();
        h.release_read();
        assert(reachable(relay_steps(), self.origin(), v));
        s
    }

    /// A copy of the current state and context: a snapshot reachable from the origin.
    pub fn snapshot(&self) -> (s: RelayMessageSnapshot)
        ensures
            reachable(relay_steps(), self.origin(), s),
    {
        proof { use_type_invariant(self); }
        let h = self.inner.acquire_read();
        let s = h.borrow().duplicate();
        h.release_read();
        s
    }

    /// Applies [`RelayMessageSnapshot::mark_in_flight`] to the current state: what it
    /// returns is what `mark_in_flight` returns from some state reachable from the origin.
    pub fn mark_in_flight(&self, leader_id: NodeId, leader_term: u64) -> (r: Result<(), MarkInFlightError>)
        ensures
            exists|before: RelayMessageSnapshot, after: RelayMessageSnapshot|
                #[trigger] reachable(relay_steps(), self.origin(), before)
                    && #[trigger] mark_in_flight_step(before, after, leader_id, leader_term, r),
    {
        proof { use_type_invariant(self); }
        let (mut cur, h) = self.inner.acquire_write();
        let ghost before = cur;
        let r = cur.mark_in_flight(leader_id, leader_term);
        proof {
            assert(mark_in_flight_step(before, cur, leader_id, leader_term, r));
            assert(relay_step(before, cur));
            lemma_reachable_step(relay_steps(), self.origin@, before, cur);
        }
        h.release_write(cur);
        r
    }

    /// Applies [`RelayMessageSnapshot::mark_in_doubt`] to the current state: what it
    /// returns is what `mark_in_doubt` returns from some state reachable from the origin;
    /// in particular the only refusal of its own is `SameLeader`.
    pub fn mark_in_doubt(&self, new_leader: NodeId, new_term: u64) -> (r: Result<(), TransitionError<MessageError>>)
        ensures
            exists|before: RelayMessageSnapshot, after: RelayMessageSnapshot|
                #[trigger] reachable(relay_steps(), self.origin(), before)
                    && #[trigger] mark_in_doubt_step(before, after, new_leader, new_term, r),
            r matches Err(TransitionError::User(e)) ==> e == MessageError::SameLeader,
    {
        proof { use_type_invariant(self); }
        let (mut cur, h) = self.inner.acquire_write();
        let ghost before = cur;
        let r = cur.mark_in_doubt(new_leader, new_term);
        proof {
            assert(mark_in_doubt_step(before, cur, new_leader, new_term, r));
            assert(relay_step(before, cur));
            lemma_reachable_step(relay_steps(), self.origin@, before, cur);
        }
        h.release_write(cur);
        r
    }

    /// Applies [`RelayMessageSnapshot::forwarded_ack`] to the current state: what it
    /// returns is what `forwarded_ack` returns from some state reachable from the origin;
    /// in particular a refusal of its own is a `LeaderMismatch` that reports
    /// the leadership given.
    pub fn forwarded_ack(&self, original_leader: NodeId, original_term: u64) -> (r: Result<(), TransitionError<MessageError>>)
        ensures
            exists|before: RelayMessageSnapshot, after: RelayMessageSnapshot|
                #[trigger] reachable(relay_steps(), self.origin(), before)
                    && #[trigger] forwarded_ack_step(before, after, original_leader, original_term, r),
            r matches Err(TransitionError::User(e)) ==> e matches MessageError::LeaderMismatch { got_leader, got_term, .. }
                && got_leader == original_leader && got_term == original_term,
    {
        proof { use_type_invariant(self); }
        let (mut cur, h) = self.inner.acquire_write();
        let ghost before = cur;
        let r = cur.forwarded_ack(original_leader, original_term);
        proof {
            assert(forwarded_ack_step(before, cur, original_leader, original_term, r));
            assert(relay_step(before, cur));
            lemma_reachable_step(relay_steps(), self.origin@, before, cur);
        }
        h.release_write(cur);
        r
    }

    /// Applies [`RelayMessageSnapshot::forwarded_nack`] to the current state: what it
    /// returns is what `forwarded_nack` returns from some state reachable from the origin;
    /// in particular a refusal of its own is a `LeaderMismatch` that reports
    /// the leadership given.
    pub fn forwarded_nack(&self, original_leader: NodeId, original_term: u64) -> (r: Result<(), TransitionError<MessageError>>)
        ensures
            exists|before: RelayMessageSnapshot, after: RelayMessageSnapshot|
                #[trigger] reachable(relay_steps(), self.origin(), before)
                    && #[trigger] forwarded_nack_step(before, after, original_leader, original_term, r),
            r matches Err(TransitionError::User(e)) ==> e matches MessageError::LeaderMismatch { got_leader, got_term, .. }
                && got_leader == original_leader && got_term == original_term,
    {
        proof { use_type_invariant(self); }
        let (mut cur, h) = self.inner.acquire_write();
        let ghost before = cur;
        let r = cur.forwarded_nack(original_leader, original_term);
        proof {
            assert(forwarded_nack_step(before, cur, original_leader, original_term, r));
            assert(relay_step(before, cur));
            lemma_reachable_step(relay_steps(), self.origin@, before, cur);
        }
        h.release_write(cur);
        r
    }

    /// Applies [`RelayMessageSnapshot::timeout_in_doubt`] to the current state: what it
    /// returns is what `timeout_in_doubt` returns from some state reachable from the origin.
    pub fn timeout_in_doubt(&self) -> (r: Result<(), TimeoutInDoubtError>)
        ensures
            exists|before: RelayMessageSnapshot, after: RelayMessageSnapshot|
                #[trigger] reachable(relay_steps(), self.origin(), before)
                    && #[trigger] timeout_in_doubt_step(before, after, r),
    {
        proof { use_type_invariant(self); }
        let (mut cur, h) = self.inner.acquire_write();
        let ghost before = cur;
        let r = cur.timeout_in_doubt();
        proof {
            assert(timeout_in_doubt_step(before, cur, r));
            assert(relay_step(before, cur));
            lemma_reachable_step(relay_steps(), self.origin@, before, cur);
        }
        h.release_write(cur);
        r
    }
}

impl Clone for RelayMessage {
    /// Another handle to the same shared message.
    fn clone(&self) -> (c: Self)
        ensures
            c == *self,
    {
        proof { use_type_invariant(self); }
        RelayMessage { inner: self.inner.clone(), origin: self.origin }
    }
}

} // verus!
