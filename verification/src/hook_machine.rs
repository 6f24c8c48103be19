//! A machine with lifecycle hooks: entering `Active` and leaving it are
//! counted and logged, with the value `Active` holds at that moment.
//!
//! A transition runs the exit hook of the state it leaves before it moves,
//! and the entry hook of the state it reaches after it moves; a transition
//! from `Active` to `Active` runs both.
use vstd::prelude::*;
use crate::text::{concat_text, decimal, decimal_text};
use crate::transition::{reachable, lemma_reachable_from_itself, lemma_reachable_step};
use std::sync::Arc;
use vstd::rwlock::RwLock;

verus! {

/// The state of the machine, with that state's data.
#[derive(Debug, Clone, Copy, PartialEq, Eq, Structural)]
pub enum HookMachineStateData {
    Idle,
    Active { value: u32 },
    Done,
}

/// What the hooks record: how often `Active` was entered and left, and a log
/// line for each time.
#[derive(Debug)]
pub struct HookContext {
    pub enter_count: u32,
    pub exit_count: u32,
    pub log: Vec<String>,
}

impl Default for HookContext {
    /// Nothing recorded yet.
    fn default() -> (c: Self)
        ensures
            c.enter_count == 0,
            c.exit_count == 0,
            c.log@.len() == 0,
    {
        HookContext { enter_count: 0, exit_count: 0, log: Vec::new() }
    }
}

/// The texts of a log.
pub open spec fn log_texts(log: Seq<String>) -> Seq<Seq<char>> {
    log.map_values(|s: String| s@)
}

/// A recorded count after one more event; it wraps from `u32::MAX` to 0.
pub open spec fn counted32(n: u32) -> u32 {
    if n == u32::MAX { 0 } else { (n + 1) as u32 }
}

/// The log line for entering `Active` with `value`.
pub open spec fn entered_line(value: u32) -> Seq<char> {
    "entered Active with value="@ + decimal(value as nat)
}

/// The log line for leaving `Active` with `value`.
pub open spec fn exited_line(value: u32) -> Seq<char> {
    "exited Active with value="@ + decimal(value as nat)
}

impl HookContext {
    /// A copy equal to `self`.
    pub fn duplicate(&self) -> (c: Self)
        ensures
            c.enter_count == self.enter_count,
            c.exit_count == self.exit_count,
            c.log@ == self.log@,
    {
        let mut log: Vec<String> = Vec::new();
        let mut i: usize = 0;
        while i < self.log.len()
            invariant
                i <= self.log@.len(),
                log@ == self.log@.take(i as int),
            decreases self.log.len() - i,
        {
            log.push(self.log[i].clone());
            assert(log@ =~= self.log@.take(i + 1));
            i += 1;
        }
        assert(self.log@.take(i as int) =~= self.log@);
        HookContext { enter_count: self.enter_count, exit_count: self.exit_count, log }
    }
}

/// The error that `activate` reports.
#[derive(Debug, Clone, Copy, PartialEq, Eq, Structural)]
pub enum ActivateError {
    InvalidState,
}

/// The error that `update` reports.
#[derive(Debug, Clone, Copy, PartialEq, Eq, Structural)]
pub enum UpdateError {
    InvalidState,
}

/// The error that `complete` reports.
#[derive(Debug, Clone, Copy, PartialEq, Eq, Structural)]
pub enum CompleteError {
    InvalidState,
}

/// The error that `reset` reports.
#[derive(Debug, Clone, Copy, PartialEq, Eq, Structural)]
pub enum ResetError {
    InvalidState,
}

/// The whole state of the machine: its state data and its context.
#[derive(Debug)]
pub struct HookMachineSnapshot {
    pub state: HookMachineStateData,
    pub context: HookContext,
}

/// What `activate(value)` does: from `before` it leaves `after` and returns `r`.
pub open spec fn activate_step(before: HookMachineSnapshot, after: HookMachineSnapshot, value: u32, r: Result<(), ActivateError>) -> bool {
    if before.state == HookMachineStateData::Idle {
        &&& r is Ok
        &&& after.state == (HookMachineStateData::Active { value })
        &&& after.context.enter_count == counted32(before.context.enter_count)
        &&& after.context.exit_count == before.context.exit_count
        &&& log_texts(after.context.log@) == log_texts(before.context.log@).push(entered_line(value))
    } else {
        r == Err::<(), ActivateError>(ActivateError::InvalidState) && after == before
    }
}

/// What `update(new_value)` does: from `before` it leaves `after` and returns `r`.
pub open spec fn update_step(before: HookMachineSnapshot, after: HookMachineSnapshot, new_value: u32, r: Result<(), UpdateError>) -> bool {
    match before.state {
        HookMachineStateData::Active { value } => {
            &&& r is Ok
            &&& after.state == (HookMachineStateData::Active { value: new_value })
            &&& after.context.enter_count == counted32(before.context.enter_count)
            &&& after.context.exit_count == counted32(before.context.exit_count)
            &&& log_texts(after.context.log@) == log_texts(before.context.log@).push(exited_line(value)).push(
                entered_line(new_value),
            )
        },
        _ => r == Err::<(), UpdateError>(UpdateError::InvalidState) && after == before,
    }
}

/// What `complete()` does: from `before` it leaves `after` and returns `r`.
pub open spec fn complete_step(before: HookMachineSnapshot, after: HookMachineSnapshot, r: Result<(), CompleteError>) -> bool {
    match before.state {
        HookMachineStateData::Active { value } => {
            &&& r is Ok
            &&& after.state == HookMachineStateData::Done
            &&& after.context.enter_count == before.context.enter_count
            &&& after.context.exit_count == counted32(before.context.exit_count)
            &&& log_texts(after.context.log@) == log_texts(before.context.log@).push(exited_line(value))
        },
        _ => r == Err::<(), CompleteError>(CompleteError::InvalidState) && after == before,
    }
}

/// What `reset()` does: from `before` it leaves `after` and returns `r`.
pub open spec fn reset_step(before: HookMachineSnapshot, after: HookMachineSnapshot, r: Result<(), ResetError>) -> bool {
    if before.state == HookMachineStateData::Done {
        r is Ok && after.state == HookMachineStateData::Idle && after.context == before.context
    } else {
        r == Err::<(), ResetError>(ResetError::InvalidState) && after == before
    }
}

/// One transition of the machine, whichever it is, with whatever argument
/// and whatever it returns.
pub open spec fn hook_step(before: HookMachineSnapshot, after: HookMachineSnapshot) -> bool {
    ||| exists|v: u32, r: Result<(), ActivateError>| activate_step(before, after, v, r)
    ||| exists|v: u32, r: Result<(), UpdateError>| update_step(before, after, v, r)
    ||| exists|r: Result<(), CompleteError>| complete_step(before, after, r)
    ||| exists|r: Result<(), ResetError>| reset_step(before, after, r)
}

/// The transitions of the machine, as a relation.
pub open spec fn hook_steps() -> spec_fn(HookMachineSnapshot, HookMachineSnapshot) -> bool {
    |before: HookMachineSnapshot, after: HookMachineSnapshot| hook_step(before, after)
}

impl HookMachineSnapshot {
    /// A fresh machine: `Idle`, with the given context.
    pub fn initial(context: HookContext) -> (m: Self)
        ensures
            m.state == HookMachineStateData::Idle,
            m.context == context,
    {
        HookMachineSnapshot { state: HookMachineStateData::Idle, context }
    }

    /// A copy equal to `self`.
    pub fn duplicate(&self) -> (c: Self)
        ensures
            c.state == self.state,
            c.context.enter_count == self.context.enter_count,
            c.context.exit_count == self.context.exit_count,
            c.context.log@ == self.context.log@,
    {
        HookMachineSnapshot { state: self.state, context: self.context.duplicate() }
    }

    /// The entry hook of `Active`: counts the entry and logs the value held.
    fn entering_active(&mut self)
        requires
            old(self).state is Active,
        ensures
            final(self).state == old(self).state,
            final(self).context.enter_count == counted32(old(self).context.enter_count),
            final(self).context.exit_count == old(self).context.exit_count,
            log_texts(final(self).context.log@) == log_texts(old(self).context.log@).push(
                entered_line(old(self).state->value),
            ),
    {
        let value = match self.state {
            HookMachineStateData::Active { value } => value,
            _ => return,
        };
        let ghost before = self.context.log@;
        self.context.enter_count = self.context.enter_count.wrapping_add(1);
        let digits = decimal_text(value);
        let line = concat_text("entered Active with value=", digits.as_str());
        self.context.log.push(line);
        assert(log_texts(self.context.log@) =~= log_texts(before).push(entered_line(value)));
    }

    /// The exit hook of `Active`: counts the exit and logs the value held.
    fn exiting_active(&mut self)
        requires
            old(self).state is Active,
        ensures
            final(self).state == old(self).state,
            final(self).context.exit_count == counted32(old(self).context.exit_count),
            final(self).context.enter_count == old(self).context.enter_count,
            log_texts(final(self).context.log@) == log_texts(old(self).context.log@).push(
                exited_line(old(self).state->value),
            ),
    {
        let value = match self.state {
            HookMachineStateData::Active { value } => value,
            _ => return,
        };
        let ghost before = self.context.log@;
        self.context.exit_count = self.context.exit_count.wrapping_add(1);
        let digits = decimal_text(value);
        let line = concat_text("exited Active with value=", digits.as_str());
        self.context.log.push(line);
        assert(log_texts(self.context.log@) =~= log_texts(before).push(exited_line(value)));
    }

    /// Idle -> Active: then the entry hook of `Active` runs.
    pub fn activate(&mut self, value: u32) -> (r: Result<(), ActivateError>)
        ensures
            activate_step(*old(self), *final(self), value, r),
    {
        match self.state {
            HookMachineStateData::Idle => {},
            _ => return Err(ActivateError::InvalidState),
        }
        self.state = HookMachineStateData::Active { value };
        self.entering_active();
        Ok(())
    }

    /// Active -> Active with a new value: the exit hook runs on the old
    /// value, then the entry hook on the new one.
    pub fn update(&mut self, new_value: u32) -> (r: Result<(), UpdateError>)
        ensures
            update_step(*old(self), *final(self), new_value, r),
    {
        match self.state {
            HookMachineStateData::Active { .. } => {},
            _ => return Err(UpdateError::InvalidState),
        }
        self.exiting_active();
        self.state = HookMachineStateData::Active { value: new_value };
        self.entering_active();
        Ok(())
    }

    /// Active -> Done: the exit hook of `Active` runs first.
    pub fn complete(&mut self) -> (r: Result<(), CompleteError>)
        ensures
            complete_step(*old(self), *final(self), r),
    {
        match self.state {
            HookMachineStateData::Active { .. } => {},
            _ => return Err(CompleteError::InvalidState),
        }
        self.exiting_active();
        self.state = HookMachineStateData::Done;
        Ok(())
    }

    /// Done -> Idle; no hook runs.
    pub fn reset(&mut self) -> (r: Result<(), ResetError>)
        ensures
            reset_step(*old(self), *final(self), r),
    {
        match self.state {
            HookMachineStateData::Done => {
                self.state = HookMachineStateData::Idle;
                Ok(())
            },
            _ => Err(ResetError::InvalidState),
        }
    }
}

/// A machine shared by all its clones: every clone reads and moves the same
/// state. Each call takes the lock, applies the transition of
/// [`HookMachineSnapshot`] to the current state and releases the lock. Which
/// state it finds depends on what other clones did, but every state the
/// machine holds is reachable by transitions from the state it was made
/// with, its [`origin`](HookMachine::origin).
pub struct HookMachine {
    inner: Arc<RwLock<HookMachineSnapshot, spec_fn(HookMachineSnapshot) -> bool>>,
    origin: Ghost<HookMachineSnapshot>,
}

impl HookMachine {
    /// The state the machine was made with.
    pub closed spec fn origin(&self) -> HookMachineSnapshot {
        self.origin@
    }

    /// The lock holds exactly the states reachable from the origin.
    #[verifier::type_invariant]
    spec fn holds_reachable_states(&self) -> bool {
        forall|v: HookMachineSnapshot| #[trigger] self.inner.inv(v) == reachable(hook_steps(), self.origin@, v)
    }

    /// A new machine, `Idle`, with nothing recorded.
    pub fn new() -> (m: Self)
        ensures
            m.origin().state == HookMachineStateData::Idle,
            m.origin().context.enter_count == 0,
            m.origin().context.exit_count == 0,
            m.origin().context.log@.len() == 0,
    {
        Self::with_context(HookContext { enter_count: 0, exit_count: 0, log: Vec::new() })
    }

    /// A new machine, `Idle`, with the given context.
    pub fn with_context(ctx: HookContext) -> (m: Self)
        ensures
            m.origin() == (HookMachineSnapshot { state: HookMachineStateData::Idle, context: ctx }),
    {
        Self::from_snapshot(HookMachineSnapshot::initial(ctx))
    }

    /// A machine restored from a snapshot.
    pub fn from_snapshot(snapshot: HookMachineSnapshot) -> (m: Self)
        ensures
            m.origin() == snapshot,
    {
        let ghost start = snapshot;
        let ghost reach = |s: HookMachineSnapshot| reachable(hook_steps(), start, s);
        proof { lemma_reachable_from_itself(hook_steps(), start); }
        HookMachine { inner: Arc::new(RwLock::new(snapshot, Ghost(reach))), origin: Ghost(start) }
    }

    /// The current state data: that of a snapshot reachable from the origin.
    pub fn get_state(&self) -> (s: HookMachineStateData)
        ensures
            exists|v: HookMachineSnapshot| #[trigger] reachable(hook_steps(), self.origin(), v) && v.state == s,
    {
        proof { use_type_invariant(self); }
        let h = self.inner.acquire_read();
        let ghost v = h.view();
        let s = h.borrow().state;
        h.release_read();
        assert(reachable(hook_steps(), self.origin(), v));
        s
    }

    /// A copy of the current state and context: equal, log included, to a
    /// snapshot reachable from the origin.
    pub fn snapshot(&self) -> (s: HookMachineSnapshot)
        ensures
            exists|v: HookMachineSnapshot| #[trigger] reachable(hook_steps(), self.origin(), v) && {
                &&& v.state == s.state
                &&& v.context.enter_count == s.context.enter_count
                &&& v.context.exit_count == s.context.exit_count
                &&& v.context.log@ == s.context.log@
            },
    {
        proof { use_type_invariant(self); }
        let h = self.inner.acquire_read();
        let ghost v = h.view();
        let s = h.borrow().duplicate();
        h.release_read();
        assert(reachable(hook_steps(), self.origin(), v));
        s
    }

    /// Applies [`HookMachineSnapshot::activate`] to the current state: what it
    /// returns is what `activate` returns from some state reachable from the origin.
    pub fn activate(&self, value: u32) -> (r: Result<(), ActivateError>)
        ensures
            exists|before: HookMachineSnapshot, after: HookMachineSnapshot|
                #[trigger] reachable(hook_steps(), self.origin(), before) && #[trigger] activate_step(before, after, value, r),
    {
        proof { use_type_invariant(self); }
        let (mut cur, h) = self.inner.acquire_write();
        let ghost before = cur;
        let r = cur.activate(value);
        proof {
            assert(activate_step(before, cur, value, r));
            assert(hook_step(before, cur));
            lemma_reachable_step(hook_steps(), self.origin@, before, cur);
        }
        h.release_write(cur);
        r
    }

    /// Applies [`HookMachineSnapshot::update`] to the current state: what it
    /// returns is what `update` returns from some state reachable from the origin.
    pub fn update(&self, new_value: u32) -> (r: Result<(), UpdateError>)
        ensures
            exists|before: HookMachineSnapshot, after: HookMachineSnapshot|
                #[trigger] reachable(hook_steps(), self.origin(), before) && #[trigger] update_step(before, after, new_value, r),
    {
        proof { use_type_invariant(self); }
        let (mut cur, h) = self.inner.acquire_write();
        let ghost before = cur;
        let r = cur.update(new_value);
        proof {
            assert(update_step(before, cur, new_value, r));
            assert(hook_step(before, cur));
            lemma_reachable_step(hook_steps(), self.origin@, before, cur);
        }
        h.release_write(cur);
        r
    }

    /// Applies [`HookMachineSnapshot::complete`] to the current state: what it
    /// returns is what `complete` returns from some state reachable from the origin.
    pub fn complete(&self) -> (r: Result<(), CompleteError>)
        ensures
            exists|before: HookMachineSnapshot, after: HookMachineSnapshot|
                #[trigger] reachable(hook_steps(), self.origin(), before) && #[trigger] complete_step(before, after, r),
    {
        proof { use_type_invariant(self); }
        let (mut cur, h) = self.inner.acquire_write();
        let ghost before = cur;
        let r = cur.complete();
        proof {
            assert(complete_step(before, cur, r));
            assert(hook_step(before, cur));
            lemma_reachable_step(hook_steps(), self.origin@, before, cur);
        }
        h.release_write(cur);
        r
    }

    /// Applies [`HookMachineSnapshot::reset`] to the current state: what it
    /// returns is what `reset` returns from some state reachable from the origin.
    pub fn reset(&self) -> (r: Result<(), ResetError>)
        ensures
            exists|before: HookMachineSnapshot, after: HookMachineSnapshot|
                #[trigger] reachable(hook_steps(), self.origin(), before) && #[trigger] reset_step(before, after, r),
    {
        proof { use_type_invariant(self); }
        let (mut cur, h) = self.inner.acquire_write();
        let ghost before = cur;
        let r = cur.reset();
        proof {
            assert(reset_step(before, cur, r));
            assert(hook_step(before, cur));
            lemma_reachable_step(hook_steps(), self.origin@, before, cur);
        }
        h.release_write(cur);
        r
    }
}

impl Clone for HookMachine {
    /// Another handle to the same shared machine.
    fn clone(&self) -> (c: Self)
        ensures
            c == *self,
    {
        proof { use_type_invariant(self); }
        HookMachine { inner: self.inner.clone(), origin: self.origin }
    }
}

} // verus!
