//! The counter state machine: Idle { count } <-> Running { count, started_at }.

use ssm::counter::{
    Counter, CounterSnapshot, CounterStateData, IncrementError, StartError, StopError,
};

#[test]
fn test_counter() {
    let counter = Counter::new();

    // Check initial state
    let state = counter.get_state();
    assert!(matches!(state, CounterStateData::Idle { count: 0 }));

    // Start and increment
    counter.start().unwrap();
    counter.increment().unwrap();
    counter.increment().unwrap();

    // Check running state
    let state = counter.get_state();
    assert!(matches!(state, CounterStateData::Running { count: 2, .. }));

    // Stop
    counter.stop().unwrap();
    let state = counter.get_state();
    assert!(matches!(state, CounterStateData::Idle { count: 2 }));
}

#[test]
fn test_clone_and_concurrent() {
    let counter = Counter::new();
    let counter2 = counter.clone();

    // Both can mutate
    counter.start().unwrap();
    counter2.increment().unwrap();

    // Both see the same state
    let state1 = counter.get_state();
    let state2 = counter2.get_state();
    assert_eq!(state1, state2);
}

#[test]
fn test_invalid_transition() {
    let counter = Counter::new();

    // Can't increment while Idle
    let err = counter.increment().unwrap_err();
    assert_eq!(err, IncrementError::InvalidState);

    // Can't stop while Idle
    let err = counter.stop().unwrap_err();
    assert_eq!(err, StopError::InvalidState);

    // Start works
    counter.start().unwrap();

    // Now increment works
    counter.increment().unwrap();

    // Can't start while Running
    let err = counter.start().unwrap_err();
    assert_eq!(err, StartError::InvalidState);
}

#[test]
fn test_from_snapshot() {
    let counter = Counter::new();
    counter.start().unwrap();
    counter.increment().unwrap();
    counter.increment().unwrap();

    // Take snapshot
    let snapshot = counter.snapshot();

    // Restore from snapshot
    let restored = Counter::from_snapshot(snapshot);

    // Should be in same state
    let state = restored.get_state();
    assert!(matches!(state, CounterStateData::Running { count: 2, .. }));

    // Can continue from where we left off
    restored.increment().unwrap();
    let state = restored.get_state();
    assert!(matches!(state, CounterStateData::Running { count: 3, .. }));
}

#[test]
fn test_snapshot_value_transitions() {
    let mut m = CounterSnapshot::initial(ssm::counter::CounterContext);
    assert_eq!(m.stop(), Err(StopError::InvalidState));
    m.start().unwrap();
    m.increment().unwrap();
    assert_eq!(m.state, CounterStateData::Running { count: 1, started_at: 0 });
    m.stop().unwrap();
    assert_eq!(m.state, CounterStateData::Idle { count: 1 });
}

#[test]
fn test_increment_wraps_at_max() {
    let mut m = CounterSnapshot {
        state: CounterStateData::Running { count: u64::MAX, started_at: 7 },
        context: ssm::counter::CounterContext,
    };
    m.increment().unwrap();
    assert_eq!(m.state, CounterStateData::Running { count: 0, started_at: 7 });
}
