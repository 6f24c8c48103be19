//! A bank account whose operations run as transactions: `Idle` until a
//! transaction begins, `Processing` until it deposits, withdraws or cancels.
//! Deposits and withdrawals can refuse with an error of their own.
use vstd::prelude::*;
use crate::transition::{TransitionError, reachable, lemma_reachable_from_itself, lemma_reachable_step};
use std::sync::Arc;
use vstd::rwlock::RwLock;

verus! {

/// The context of an account: its balance.
#[derive(Debug, Clone, Copy, PartialEq, Eq, Structural)]
pub struct BankContext {
    pub balance: i64,
}

impl Default for BankContext {
    /// An empty account.
    fn default() -> (c: Self)
        ensures
            c.balance == 0,
    {
        BankContext { balance: 0 }
    }
}

/// Why a deposit or a withdrawal was refused.
#[derive(Debug, Clone, Copy, PartialEq, Eq, Structural)]
pub enum BankError {
    InsufficientFunds { available: i64, requested: i64 },
    InvalidAmount,
}

/// The state of an account.
#[derive(Debug, Clone, Copy, PartialEq, Eq, Structural)]
pub enum BankAccountStateData {
    Idle,
    Processing,
}

/// The error that `begin_transaction` reports.
#[derive(Debug, Clone, Copy, PartialEq, Eq, Structural)]
pub enum BeginTransactionError {
    InvalidState,
}

/// The error that `cancel` reports.
#[derive(Debug, Clone, Copy, PartialEq, Eq, Structural)]
pub enum CancelError {
    InvalidState,
}

/// The whole state of an account: its state and its context.
#[derive(Debug, Clone, Copy, PartialEq, Eq, Structural)]
pub struct BankAccountSnapshot {
    pub state: BankAccountStateData,
    pub context: BankContext,
}

/// What `deposit(amount)` returns from `s`: refused unless processing, and
/// refused with `InvalidAmount` unless the amount is positive.
pub open spec fn deposit_result(s: BankAccountSnapshot, amount: i64) -> Result<(), TransitionError<BankError>> {
    if s.state != BankAccountStateData::Processing {
        Err(TransitionError::InvalidState)
    } else if amount <= 0 {
        Err(TransitionError::User(BankError::InvalidAmount))
    } else {
        Ok(())
    }
}

/// What `withdraw(amount)` returns from `s`: refused unless processing,
/// refused with `InvalidAmount` unless the amount is positive, and with
/// `InsufficientFunds` when the balance is below it.
pub open spec fn withdraw_result(s: BankAccountSnapshot, amount: i64) -> Result<(), TransitionError<BankError>> {
    if s.state != BankAccountStateData::Processing {
        Err(TransitionError::InvalidState)
    } else if amount <= 0 {
        Err(TransitionError::User(BankError::InvalidAmount))
    } else if s.context.balance < amount {
        Err(TransitionError::User(BankError::InsufficientFunds { available: s.context.balance, requested: amount }))
    } else {
        Ok(())
    }
}

/// What `begin_transaction` does: from `before` it leaves `after` and returns `r`.
pub open spec fn begin_step(before: BankAccountSnapshot, after: BankAccountSnapshot, r: Result<(), BeginTransactionError>) -> bool {
    if before.state == BankAccountStateData::Idle {
        r is Ok && after.state == BankAccountStateData::Processing && after.context == before.context
    } else {
        r == Err::<(), BeginTransactionError>(BeginTransactionError::InvalidState) && after == before
    }
}

/// What `deposit(amount)` does: from `before` it leaves `after` and returns `r`.
pub open spec fn deposit_step(before: BankAccountSnapshot, after: BankAccountSnapshot, amount: i64, r: Result<(), TransitionError<BankError>>) -> bool {
    &&& r == deposit_result(before, amount)
    &&& r is Ok ==> after.state == BankAccountStateData::Idle
        && after.context.balance == before.context.balance.wrapping_add(amount)
    &&& r is Err ==> after == before
}

/// What `withdraw(amount)` does: from `before` it leaves `after` and returns `r`.
pub open spec fn withdraw_step(before: BankAccountSnapshot, after: BankAccountSnapshot, amount: i64, r: Result<(), TransitionError<BankError>>) -> bool {
    &&& r == withdraw_result(before, amount)
    &&& r is Ok ==> after.state == BankAccountStateData::Idle && after.context.balance == before.context.balance - amount
    &&& r is Err ==> after == before
}

/// What `cancel` does: from `before` it leaves `after` and returns `r`.
pub open spec fn cancel_step(before: BankAccountSnapshot, after: BankAccountSnapshot, r: Result<(), CancelError>) -> bool {
    if before.state == BankAccountStateData::Processing {
        r is Ok && after.state == BankAccountStateData::Idle && after.context == before.context
    } else {
        r == Err::<(), CancelError>(CancelError::InvalidState) && after == before
    }
}

/// One transition of an account, whichever it is, with whatever amount and
/// whatever it returns.
pub open spec fn bank_step(before: BankAccountSnapshot, after: BankAccountSnapshot) -> bool {
    ||| exists|r: Result<(), BeginTransactionError>| begin_step(before, after, r)
    ||| exists|a: i64, r: Result<(), TransitionError<BankError>>| deposit_step(before, after, a, r)
    ||| exists|a: i64, r: Result<(), TransitionError<BankError>>| withdraw_step(before, after, a, r)
    ||| exists|r: Result<(), CancelError>| cancel_step(before, after, r)
}

/// The transitions of an account, as a relation.
pub open spec fn bank_steps() -> spec_fn(BankAccountSnapshot, BankAccountSnapshot) -> bool {
    |before: BankAccountSnapshot, after: BankAccountSnapshot| bank_step(before, after)
}

impl BankAccountSnapshot {
    /// A fresh account: `Idle`, with the given context.
    pub fn initial(context: BankContext) -> (m: Self)
        ensures
            m.state == BankAccountStateData::Idle,
            m.context == context,
    {
        BankAccountSnapshot { state: BankAccountStateData::Idle, context }
    }

    /// Idle -> Processing.
    pub fn begin_transaction(&mut self) -> (r: Result<(), BeginTransactionError>)
        ensures
            begin_step(*old(self), *final(self), r),
    {
        match self.state {
            BankAccountStateData::Idle => {
                self.state = BankAccountStateData::Processing;
                Ok(())
            },
            _ => Err(BeginTransactionError::InvalidState),
        }
    }

    /// Processing -> Idle, adding a positive amount to the balance (wrapping
    /// at the bounds of `i64`).
    pub fn deposit(&mut self, amount: i64) -> (r: Result<(), TransitionError<BankError>>)
        ensures
            deposit_step(*old(self), *final(self), amount, r),
    {
        match self.state {
            BankAccountStateData::Processing => {},
            _ => return Err(TransitionError::InvalidState),
        }
        if amount <= 0 {
            return Err(TransitionError::User(BankError::InvalidAmount));
        }
        self.context.balance = self.context.balance.wrapping_add(amount);
        self.state = BankAccountStateData::Idle;
        Ok(())
    }

    /// Processing -> Idle, taking a positive amount out of the balance when
    /// the balance covers it.
    pub fn withdraw(&mut self, amount: i64) -> (r: Result<(), TransitionError<BankError>>)
        ensures
            withdraw_step(*old(self), *final(self), amount, r),
    {
        match self.state {
            BankAccountStateData::Processing => {},
            _ => return Err(TransitionError::InvalidState),
        }
        if amount <= 0 {
            return Err(TransitionError::User(BankError::InvalidAmount));
        }
        if self.context.balance < amount {
            return Err(TransitionError::User(BankError::InsufficientFunds {
                available: self.context.balance,
                requested: amount,
            }));
        }
        self.context.balance = self.context.balance - amount;
        self.state = BankAccountStateData::Idle;
        Ok(())
    }

    /// Processing -> Idle, leaving the balance as it is.
    pub fn cancel(&mut self) -> (r: Result<(), CancelError>)
        ensures
            cancel_step(*old(self), *final(self), r),
    {
        match self.state {
            BankAccountStateData::Processing => {
                self.state = BankAccountStateData::Idle;
                Ok(())
            },
            _ => Err(CancelError::InvalidState),
        }
    }
}

/// A withdrawal never leaves a negative balance behind it: from a
/// non-negative balance, every outcome keeps the balance non-negative.
pub proof fn law_withdraw_keeps_balance_non_negative(s: BankAccountSnapshot, amount: i64)
    requires
        s.context.balance >= 0,
    ensures
        withdraw_result(s, amount) is Ok ==> s.context.balance - amount >= 0,
{
}

/// An account shared by all its clones: every clone reads and moves the same
/// state. Each call takes the lock, applies the transition of
/// [`BankAccountSnapshot`] to the current state and releases the lock. Which
/// state it finds depends on what other clones did, but every state the
/// account holds is reachable by transitions from the state it was made
/// with, its [`origin`](BankAccount::origin).
pub struct BankAccount {
    inner: Arc<RwLock<BankAccountSnapshot, spec_fn(BankAccountSnapshot) -> bool>>,
    origin: Ghost<BankAccountSnapshot>,
}

impl BankAccount {
    /// The state the account was made with.
    pub closed spec fn origin(&self) -> BankAccountSnapshot {
        self.origin@
    }

    /// The lock holds exactly the states reachable from the origin.
    #[verifier::type_invariant]
    spec fn holds_reachable_states(&self) -> bool {
        forall|v: BankAccountSnapshot| #[trigger] self.inner.inv(v) == reachable(bank_steps(), self.origin@, v)
    }

    /// A new account, `Idle`, with balance 0.
    pub fn new() -> (b: Self)
        ensures
            b.origin() == (BankAccountSnapshot { state: BankAccountStateData::Idle, context: BankContext { balance: 0 } }),
    {
        Self::with_context(BankContext { balance: 0 })
    }

    /// A new account, `Idle`, with the given context.
    pub fn with_context(ctx: BankContext) -> (b: Self)
        ensures
            b.origin() == (BankAccountSnapshot { state: BankAccountStateData::Idle, context: ctx }),
    {
        Self::from_snapshot(BankAccountSnapshot::initial(ctx))
    }

    /// An account restored from a snapshot.
    pub fn from_snapshot(snapshot: BankAccountSnapshot) -> (b: Self)
        ensures
            b.origin() == snapshot,
    {
        let ghost reach = |s: BankAccountSnapshot| reachable(bank_steps(), snapshot, s);
        proof { lemma_reachable_from_itself(bank_steps(), snapshot); }
        BankAccount { inner: Arc::new(RwLock::new(snapshot, Ghost(reach))), origin: Ghost(snapshot) }
    }

    /// The current state: that of a snapshot reachable from the origin.
    pub fn get_state(&self) -> (s: BankAccountStateData)
        ensures
            exists|v: BankAccountSnapshot| #[trigger] reachable(bank_steps(), self.origin(), v) && v.state == s,
    {
        proof { use_type_invariant(self); }
        let h = self.inner.acquire_read();
        let ghost v = h.view();
        let s = h.borrow().state;
        h.release_read();
        assert(reachable(bank_steps(), self.origin(), v));
        s
    }

    /// The current state and context: a snapshot reachable from the origin.
    pub fn snapshot(&self) -> (s: BankAccountSnapshot)
        ensures
            reachable(bank_steps(), self.origin(), s),
    {
        proof { use_type_invariant(self); }
        let h = self.inner.acquire_read();
        let s = *h.borrow();
        h.release_read();
        s
    }

    /// Applies [`BankAccountSnapshot::begin_transaction`] to the current
    /// state: what it returns is what `begin_transaction` returns from some
    /// state reachable from the origin.
    pub fn begin_transaction(&self) -> (r: Result<(), BeginTransactionError>)
        ensures
            exists|before: BankAccountSnapshot, after: BankAccountSnapshot|
                #[trigger] reachable(bank_steps(), self.origin(), before) && #[trigger] begin_step(before, after, r),
    {
        proof { use_type_invariant(self); }
        let (mut cur, h) = self.inner.acquire_write();
        let ghost before = cur;
        let r = cur.begin_transaction();
        proof {
            assert(bank_step(before, cur));
            lemma_reachable_step(bank_steps(), self.origin@, before, cur);
        }
        h.release_write(cur);
        r
    }

    /// Applies [`BankAccountSnapshot::deposit`] to the current state: what it
    /// returns is what `deposit` returns from some state reachable from the
    /// origin; in particular the only refusal of its own is `InvalidAmount`,
    /// and that exactly when the amount is not positive.
    pub fn deposit(&self, amount: i64) -> (r: Result<(), TransitionError<BankError>>)
        ensures
            exists|before: BankAccountSnapshot, after: BankAccountSnapshot|
                #[trigger] reachable(bank_steps(), self.origin(), before) && #[trigger] deposit_step(before, after, amount, r),
            r matches Err(TransitionError::User(e)) ==> e == BankError::InvalidAmount && amount <= 0,
    {
        proof { use_type_invariant(self); }
        let (mut cur, h) = self.inner.acquire_write();
        let ghost before = cur;
        let r = cur.deposit(amount);
        proof {
            assert(deposit_step(before, cur, amount, r));
            assert(bank_step(before, cur));
            lemma_reachable_step(bank_steps(), self.origin@, before, cur);
        }
        h.release_write(cur);
        r
    }

    /// Applies [`BankAccountSnapshot::withdraw`] to the current state: what it
    /// returns is what `withdraw` returns from some state reachable from the
    /// origin; in particular a refusal of its own is `InvalidAmount` for an
    /// amount that is not positive, or `InsufficientFunds` that reports the
    /// amount requested and a balance below it.
    pub fn withdraw(&self, amount: i64) -> (r: Result<(), TransitionError<BankError>>)
        ensures
            exists|before: BankAccountSnapshot, after: BankAccountSnapshot|
                #[trigger] reachable(bank_steps(), self.origin(), before) && #[trigger] withdraw_step(before, after, amount, r),
            r matches Err(TransitionError::User(e)) ==> match e {
                BankError::InvalidAmount => amount <= 0,
                BankError::InsufficientFunds { available, requested } => requested == amount && amount > 0
                    && available < amount,
            },
    {
        proof { use_type_invariant(self); }
        let (mut cur, h) = self.inner.acquire_write();
        let ghost before = cur;
        let r = cur.withdraw(amount);
        proof {
            assert(withdraw_step(before, cur, amount, r));
            assert(bank_step(before, cur));
            lemma_reachable_step(bank_steps(), self.origin@, before, cur);
        }
        h.release_write(cur);
        r
    }

    /// Applies [`BankAccountSnapshot::cancel`] to the current state: what it
    /// returns is what `cancel` returns from some state reachable from the origin.
    pub fn cancel(&self) -> (r: Result<(), CancelError>)
        ensures
            exists|before: BankAccountSnapshot, after: BankAccountSnapshot|
                #[trigger] reachable(bank_steps(), self.origin(), before) && #[trigger] cancel_step(before, after, r),
    {
        proof { use_type_invariant(self); }
        let (mut cur, h) = self.inner.acquire_write();
        let ghost before = cur;
        let r = cur.cancel();
        proof {
            assert(bank_step(before, cur));
            lemma_reachable_step(bank_steps(), self.origin@, before, cur);
        }
        h.release_write(cur);
        r
    }
}

impl Clone for BankAccount {
    /// Another handle to the same shared account.
    fn clone(&self) -> (c: Self)
        ensures
            c == *self,
    {
        proof { use_type_invariant(self); }
        BankAccount { inner: self.inner.clone(), origin: self.origin }
    }
}

} // verus!
