//! The relay message delivery state machine.

use ssm::relay_message::{MessageError, RelayMessage, RelayMessageStateData};

#[test]
fn test_happy_path_ack() {
    let msg = RelayMessage::new();

    // Pending -> InFlight
    msg.mark_in_flight(1, 100).unwrap();

    // InFlight -> Acked
    msg.forwarded_ack(1, 100).unwrap();
}

#[test]
fn test_in_doubt_then_ack() {
    let msg = RelayMessage::new();

    // Pending -> InFlight (leader 1, term 100)
    msg.mark_in_flight(1, 100).unwrap();

    // InFlight -> InDoubt (new leader 2, term 101 takes over)
    msg.mark_in_doubt(2, 101).unwrap();

    // InDoubt -> Acked (original leader 1 confirms)
    msg.forwarded_ack(1, 100).unwrap();
}

#[test]
fn test_nack_and_retry() {
    let msg = RelayMessage::new();

    // Pending -> InFlight
    msg.mark_in_flight(1, 100).unwrap();

    // InFlight -> Pending (nack, will retry)
    msg.forwarded_nack(1, 100).unwrap();

    // Pending -> InFlight (retry with new leader)
    msg.mark_in_flight(2, 101).unwrap();

    // InFlight -> Acked
    msg.forwarded_ack(2, 101).unwrap();
}

#[test]
fn test_in_doubt_timeout() {
    let msg = RelayMessage::new();

    // Pending -> InFlight
    msg.mark_in_flight(1, 100).unwrap();

    // InFlight -> InDoubt
    msg.mark_in_doubt(2, 101).unwrap();

    // InDoubt -> DeadLettered (timeout)
    msg.timeout_in_doubt().unwrap();
}

#[test]
fn test_wrong_leader_ack_rejected() {
    let msg = RelayMessage::new();

    // Pending -> InFlight (leader 1, term 100)
    msg.mark_in_flight(1, 100).unwrap();

    // Try to ack with wrong leader
    let err = msg.forwarded_ack(2, 100).unwrap_err();
    assert_eq!(err, ssm::TransitionError::User(MessageError::LeaderMismatch {
        expected_leader: 1,
        expected_term: 100,
        got_leader: 2,
        got_term: 100,
    }));

    // Can still ack with correct credentials
    msg.forwarded_ack(1, 100).unwrap();
}

#[test]
fn test_same_leader_cannot_mark_in_doubt() {
    let msg = RelayMessage::new();

    // Pending -> InFlight
    msg.mark_in_flight(1, 100).unwrap();

    // Try to mark in-doubt with same leader - should fail
    let err = msg.mark_in_doubt(1, 100).unwrap_err();
    assert_eq!(err, ssm::TransitionError::User(MessageError::SameLeader));

    // Can still ack normally
    msg.forwarded_ack(1, 100).unwrap();
}

#[test]
fn test_concurrent_access() {
    let msg1 = RelayMessage::new();
    let msg2 = msg1.clone();

    // Both handles can be used
    msg1.mark_in_flight(1, 100).unwrap();

    // msg2 sees the same state
    let state = msg2.get_state();
    assert!(matches!(state, RelayMessageStateData::InFlight { leader_id: 1, leader_term: 100, .. }));

    // msg2 can continue the flow
    msg2.forwarded_ack(1, 100).unwrap();

    // Both see final state
    let state = msg1.get_state();
    assert!(matches!(state, RelayMessageStateData::Acked));
}
