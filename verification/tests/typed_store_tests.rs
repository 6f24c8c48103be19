//! Typed stores with per-state collections and handle-based transitions.

use ssm::message_store::{MessageStore, MessageStoreError};
use ssm::task_store::TaskStore;

// ============================================================================
// Map-based store
// ============================================================================

#[test]
fn test_map_insert_and_contains() {
    let mut store = MessageStore::new();

    assert!(!store.messages_contains(&1));
    assert!(store.messages_insert(1));
    assert!(store.messages_contains(&1));

    // Duplicate insert fails
    assert!(!store.messages_insert(1));
}

#[test]
fn test_map_handle_access() {
    let mut store = MessageStore::new();
    store.messages_insert(1);

    // Get handle to pending item
    {
        let handle = store.messages_pending(&1).unwrap();
        assert_eq!(*handle.key(), 1);
        // Handle dropped without transition - item stays
    }

    // Item should still be there
    assert!(store.messages_pending(&1).is_some());
}

#[test]
fn test_map_handle_transition() {
    let mut store = MessageStore::new();
    store.messages_insert(1);

    // Get handle and transition
    {
        let handle = store.messages_pending(&1).unwrap();
        handle.mark_in_flight(42, 100).unwrap();
    }

    // Now in in_flight, not pending
    assert!(store.messages_pending(&1).is_none());
    assert!(store.messages_in_flight(&1).is_some());

    // Check the data
    {
        let handle = store.messages_in_flight(&1).unwrap();
        assert_eq!(*handle.leader(), 42);
        assert_eq!(*handle.term(), 100);
    }
}

#[test]
fn test_map_guard_prevents_transition() {
    let mut store = MessageStore::new();
    store.messages_insert(1);

    // Transition to in_flight
    store.messages_pending(&1).unwrap().mark_in_flight(42, 100).unwrap();

    // Same leader/term should fail guard
    {
        let handle = store.messages_in_flight(&1).unwrap();
        let result = handle.mark_in_doubt(42, 100);
        assert!(matches!(result, Err(MessageStoreError::GuardFailed)));
    }

    // Item should still be in InFlight
    assert_eq!(store.messages_in_flight_len(), 1);

    // Different leader should pass
    {
        let handle = store.messages_in_flight(&1).unwrap();
        handle.mark_in_doubt(99, 200).unwrap();
    }

    // Now in InDoubt
    assert_eq!(store.messages_in_flight_len(), 0);
    assert_eq!(store.messages_in_doubt_len(), 1);

    {
        let handle = store.messages_in_doubt(&1).unwrap();
        assert_eq!(*handle.prev_leader(), 42);
        assert_eq!(*handle.prev_term(), 100);
    }
}

#[test]
fn test_map_chained_transitions() {
    let mut store = MessageStore::new();
    store.messages_insert(1);

    // Pending -> InFlight -> Acked
    store.messages_pending(&1).unwrap().mark_in_flight(1, 100).unwrap();
    store.messages_in_flight(&1).unwrap().ack().unwrap();

    assert_eq!(store.messages_acked_len(), 1);
}

#[test]
fn test_map_nack_returns_to_pending() {
    let mut store = MessageStore::new();
    store.messages_insert(1);

    store.messages_pending(&1).unwrap().mark_in_flight(1, 10).unwrap();
    store.messages_in_flight(&1).unwrap().nack().unwrap();

    assert_eq!(store.messages_pending_len(), 1);
    assert_eq!(store.messages_in_flight_len(), 0);
}

#[test]
fn test_map_remove() {
    let mut store = MessageStore::new();
    store.messages_insert(1);
    store.messages_pending(&1).unwrap().mark_in_flight(1, 10).unwrap();

    assert!(store.messages_remove(&1));
    assert!(!store.messages_contains(&1));
    assert_eq!(store.messages_len(), 0);
}

#[test]
fn test_map_keys_iteration() {
    let mut store = MessageStore::new();

    for i in 0..5 {
        store.messages_insert(i);
    }

    // Move some to in_flight
    store.messages_pending(&1).unwrap().mark_in_flight(1, 10).unwrap();
    store.messages_pending(&3).unwrap().mark_in_flight(1, 30).unwrap();

    let pending_keys = store.messages_pending_keys();
    assert_eq!(pending_keys.len(), 3);

    let in_flight_keys = store.messages_in_flight_keys();
    assert_eq!(in_flight_keys.len(), 2);
}

// ============================================================================
// Queue-based store
// ============================================================================

#[test]
fn test_queue_push() {
    let mut store = TaskStore::new();

    let id1 = store.tasks_push();
    let id2 = store.tasks_push();
    let id3 = store.tasks_push();

    assert_eq!(id1, 0);
    assert_eq!(id2, 1);
    assert_eq!(id3, 2);
    assert_eq!(store.tasks_len(), 3);
    assert_eq!(store.tasks_pending_len(), 3);
}

#[test]
fn test_queue_fifo_order() {
    let mut store = TaskStore::new();

    store.tasks_push();
    store.tasks_push();
    store.tasks_push();

    // Pop in FIFO order
    {
        let handle = store.tasks_next_pending().unwrap();
        assert_eq!(*handle.id(), 0);
        handle.start(100).unwrap();
    }

    {
        let handle = store.tasks_next_pending().unwrap();
        assert_eq!(*handle.id(), 1);
        handle.start(101).unwrap();
    }

    {
        let handle = store.tasks_next_pending().unwrap();
        assert_eq!(*handle.id(), 2);
        // Drop without transition - stays at front
    }

    // Item 2 should be back at front
    {
        let handle = store.tasks_next_pending().unwrap();
        assert_eq!(*handle.id(), 2);
    }
}

#[test]
fn test_queue_handle_carries_id() {
    let mut store = TaskStore::new();

    let original_id = store.tasks_push();

    // Transition through states - id is preserved
    store.tasks_next_pending().unwrap().start(42).unwrap();

    {
        let handle = store.tasks_next_running().unwrap();
        assert_eq!(*handle.id(), original_id);
        assert_eq!(*handle.worker(), 42);
        handle.complete(0).unwrap();
    }

    let peeked = store.tasks_peek_complete().unwrap();
    assert_eq!(peeked.id, original_id);
    assert_eq!(peeked.result, 0);
}

#[test]
fn test_queue_fail_returns_to_pending() {
    let mut store = TaskStore::new();

    store.tasks_push();
    store.tasks_next_pending().unwrap().start(1).unwrap();

    assert_eq!(store.tasks_pending_len(), 0);
    assert_eq!(store.tasks_running_len(), 1);

    store.tasks_next_running().unwrap().fail().unwrap();

    assert_eq!(store.tasks_pending_len(), 1);
    assert_eq!(store.tasks_running_len(), 0);
}

#[test]
fn test_queue_peek() {
    let mut store = TaskStore::new();

    store.tasks_push();
    store.tasks_push();

    // Peek doesn't remove (returns a copy)
    let peeked = store.tasks_peek_pending().unwrap();
    assert_eq!(peeked.id, 0);
    assert_eq!(store.tasks_pending_len(), 2);

    // Can peek again
    let peeked = store.tasks_peek_pending().unwrap();
    assert_eq!(peeked.id, 0);
}

#[test]
fn test_queue_multiple_in_running() {
    let mut store = TaskStore::new();

    for _ in 0..5 {
        store.tasks_push();
    }

    // Start first 3
    for i in 0..3 {
        store.tasks_next_pending().unwrap().start(i).unwrap();
    }

    assert_eq!(store.tasks_pending_len(), 2);
    assert_eq!(store.tasks_running_len(), 3);

    // Complete first running (FIFO)
    {
        let handle = store.tasks_next_running().unwrap();
        assert_eq!(*handle.id(), 0);
        handle.complete(42).unwrap();
    }

    assert_eq!(store.tasks_running_len(), 2);
    assert_eq!(store.tasks_complete_len(), 1);
}

#[test]
fn test_queue_drain_complete() {
    let mut store = TaskStore::new();

    for _ in 0..3 {
        store.tasks_push();
    }

    // Run all to completion
    for i in 0..3 {
        store.tasks_next_pending().unwrap().start(i).unwrap();
    }
    for i in 0..3 {
        store.tasks_next_running().unwrap().complete(i as i32).unwrap();
    }

    assert_eq!(store.tasks_complete_len(), 3);

    // Peek and verify
    let first = store.tasks_peek_complete().unwrap();
    assert_eq!(first.id, 0);
    assert_eq!(first.result, 0);
}

#[test]
fn ids_held_are_those_pushed() {
    let mut store = TaskStore::new();
    assert_eq!(store.tasks_push(), 0);
    assert_eq!(store.tasks_push(), 1);
    assert_eq!(store.tasks_push(), 2);
    store.tasks_next_pending().unwrap().start(7).unwrap();
    store.tasks_next_running().unwrap().fail().unwrap();
    store.tasks_next_pending().unwrap().start(8).unwrap();
    store.tasks_next_running().unwrap().complete(5).unwrap();
    assert_eq!(store.tasks_pending_len(), 2);
    assert_eq!(store.tasks_running_len(), 0);
    assert_eq!(store.tasks_complete_len(), 1);
    assert_eq!(store.tasks_len(), 3);
    assert_eq!(store.tasks_peek_complete().unwrap().id, 1);
    assert_eq!(store.tasks_peek_pending().unwrap().id, 2);
    store.tasks_next_pending().unwrap().start(9).unwrap();
    assert_eq!(store.tasks_peek_pending().unwrap().id, 0);
    assert_eq!(store.tasks_peek_running().unwrap().id, 2);
}
