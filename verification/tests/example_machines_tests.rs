//! The example machines with guards, errors of their own and lifecycle hooks.

use ssm::bank_account::{BankAccount, BankError};
use ssm::cycle_counter::{Counter, CounterStateData, DoneError};
use ssm::hook_machine::HookMachine;
use ssm::msg::{FinishError, Msg, MsgStateData};

#[test]
fn test_counter_determinism() {
    for _ in 0..5 {
        let c = Counter::new();
        c.start().unwrap();
        c.done().unwrap();
        c.start().unwrap();
        c.done().unwrap();
    }
}

#[test]
fn test_guard_determinism() {
    for _ in 0..5 {
        let m = Msg::new();
        m.claim(1, 100).unwrap();

        // Wrong - should fail
        assert!(m.finish(2, 100).is_err());

        // Correct - should succeed
        m.finish(1, 100).unwrap();
    }
}

#[test]
fn test_sequential_ops() {
    for _ in 0..5 {
        let m = Msg::new();
        m.claim(1, 100).unwrap();
        m.release().unwrap();
        m.claim(2, 200).unwrap();
        m.finish(2, 200).unwrap();
    }
}

#[test]
fn test_guard_failure() {
    let m = Msg::new();
    m.claim(1, 100).unwrap();

    let err = m.finish(999, 999).unwrap_err();
    assert!(matches!(err, FinishError::GuardFailed));

    // Can still use handle - retry with correct values
    m.finish(1, 100).unwrap();
}

#[test]
fn test_basic_flow() {
    let c = Counter::new();
    c.start().unwrap();
    c.done().unwrap();
    c.start().unwrap();
    c.done().unwrap();
}

#[test]
fn test_bank_deposit_success() {
    let bank = BankAccount::new();
    bank.begin_transaction().unwrap();
    bank.deposit(100).unwrap();
    bank.begin_transaction().unwrap();
    bank.deposit(50).unwrap();
    // Balance should be 150
    assert_eq!(bank.snapshot().context.balance, 150);
}

#[test]
fn test_bank_withdraw_success() {
    let bank = BankAccount::new();

    // Deposit first
    bank.begin_transaction().unwrap();
    bank.deposit(100).unwrap();

    // Then withdraw
    bank.begin_transaction().unwrap();
    bank.withdraw(50).unwrap();
    // Balance should be 50
    assert_eq!(bank.snapshot().context.balance, 50);
}

#[test]
fn test_bank_withdraw_insufficient_funds() {
    let bank = BankAccount::new();

    // Try to withdraw without depositing
    bank.begin_transaction().unwrap();
    let err = bank.withdraw(100).unwrap_err();
    assert_eq!(
        err,
        ssm::TransitionError::User(BankError::InsufficientFunds { available: 0, requested: 100 })
    );

    // Can cancel and recover
    bank.cancel().unwrap();
}

#[test]
fn test_bank_invalid_amount() {
    let bank = BankAccount::new();
    bank.begin_transaction().unwrap();

    // Try negative deposit
    let err = bank.deposit(-50).unwrap_err();
    assert_eq!(err, ssm::TransitionError::User(BankError::InvalidAmount));

    // Can still cancel
    bank.cancel().unwrap();
}

#[test]
fn bank_refuses_without_a_transaction() {
    let bank = BankAccount::new();
    assert_eq!(bank.deposit(10).unwrap_err(), ssm::TransitionError::InvalidState);
    assert_eq!(bank.withdraw(10).unwrap_err(), ssm::TransitionError::InvalidState);
    bank.begin_transaction().unwrap();
    assert_eq!(bank.withdraw(0).unwrap_err(), ssm::TransitionError::User(BankError::InvalidAmount));
    assert!(bank.begin_transaction().is_err());
}

#[test]
fn test_get_state() {
    let m = Msg::new();

    // Initial state
    let state = m.get_state();
    assert!(matches!(state, MsgStateData::Pending));

    // After claim
    m.claim(42, 100).unwrap();
    let state = m.get_state();
    assert!(matches!(state, MsgStateData::Claimed { leader: 42, term: 100 }));

    // After finish
    m.finish(42, 100).unwrap();
    let state = m.get_state();
    assert!(matches!(state, MsgStateData::Done));
}

#[test]
fn guard_passes_only_with_the_claiming_leadership() {
    for (cl, ct, fl, ft) in [(1u64, 1u64, 1u64, 1u64), (1, 2, 1, 3), (2, 5, 3, 5), (5, 10, 5, 10)] {
        let m = Msg::new();
        m.claim(cl, ct).unwrap();
        assert_eq!(m.finish(fl, ft).is_ok(), cl == fl && ct == ft);
    }
}

#[test]
fn release_allows_reclaim_by_another_leadership() {
    let m = Msg::new();
    m.claim(3, 30).unwrap();
    m.release().unwrap();
    m.claim(7, 70).unwrap();
    assert_eq!(m.finish(3, 30).unwrap_err(), FinishError::GuardFailed);
    m.finish(7, 70).unwrap();
    assert_eq!(m.finish(7, 70).unwrap_err(), FinishError::InvalidState);
}

#[test]
fn test_clone_concurrent_access() {
    let c1 = Counter::new();
    let c2 = c1.clone();

    // Both can interact with the same state
    c1.start().unwrap();

    // c2 sees the state change
    let state = c2.get_state();
    assert!(matches!(state, CounterStateData::Working));

    // c2 can continue
    c2.done().unwrap();

    // c1 sees final state
    let state = c1.get_state();
    assert!(matches!(state, CounterStateData::Ready));
}

#[test]
fn test_invalid_state_error() {
    let c = Counter::new();

    // Can't call done() when in Ready state
    let err = c.done().unwrap_err();
    assert_eq!(err, DoneError::InvalidState);

    // Start works
    c.start().unwrap();

    // Now done() works
    c.done().unwrap();

    // Can call start() again because we're back in Ready
    c.start().unwrap();
}

#[test]
fn test_lifecycle_hooks_basic() {
    let m = HookMachine::new();

    // Activate: should trigger on_enter(Active)
    m.activate(42).unwrap();

    let snapshot = m.snapshot();
    assert_eq!(snapshot.context.enter_count, 1);
    assert_eq!(snapshot.context.exit_count, 0);
    assert_eq!(snapshot.context.log, vec!["entered Active with value=42"]);
}

#[test]
fn test_lifecycle_hooks_exit_and_enter() {
    let m = HookMachine::new();

    // Activate: on_enter
    m.activate(10).unwrap();

    // Update: on_exit(Active), then on_enter(Active)
    m.update(20).unwrap();

    let snapshot = m.snapshot();
    assert_eq!(snapshot.context.enter_count, 2);
    assert_eq!(snapshot.context.exit_count, 1);
    assert_eq!(
        snapshot.context.log,
        vec![
            "entered Active with value=10",
            "exited Active with value=10",
            "entered Active with value=20",
        ]
    );
}

#[test]
fn test_lifecycle_hooks_complete_flow() {
    let m = HookMachine::new();

    // Idle -> Active (enter)
    m.activate(5).unwrap();

    // Active -> Done (exit Active, no hooks on Done)
    m.complete().unwrap();

    let snapshot = m.snapshot();
    assert_eq!(snapshot.context.enter_count, 1);
    assert_eq!(snapshot.context.exit_count, 1);
    assert_eq!(
        snapshot.context.log,
        vec!["entered Active with value=5", "exited Active with value=5"]
    );
}

#[test]
fn hooks_do_not_run_for_refused_or_hookless_transitions() {
    let m = HookMachine::new();
    assert!(m.update(1).is_err());
    assert!(m.complete().is_err());
    m.activate(0).unwrap();
    m.complete().unwrap();
    m.reset().unwrap();
    let snapshot = m.snapshot();
    assert_eq!(snapshot.context.enter_count, 1);
    assert_eq!(snapshot.context.exit_count, 1);
    assert_eq!(
        snapshot.context.log,
        vec!["entered Active with value=0", "exited Active with value=0"]
    );
}
