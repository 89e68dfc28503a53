use tdlib_client::correlator::{Correlator, SlotPoll};
use tdlib_client::dispatch::{route, Routed};
use tdlib_client::errors::RTDError;
use tdlib_client::frame::Frame;

fn frame(raw: &str) -> Frame {
    Frame::decode(raw).unwrap()
}

#[test]
fn subscribe_registers_a_token_once() {
    let mut correlator = Correlator::new();
    assert!(!correlator.is_subscribed("X"));
    assert_eq!(correlator.subscribe("X"), Ok(()));
    assert!(correlator.is_subscribed("X"));
    assert_eq!(correlator.subscribe("X"), Err(RTDError::AlreadySubscribed));
    assert_eq!(correlator.subscribe("Y"), Ok(()));
    assert_eq!(correlator.poll("X"), SlotPoll::Pending);
    assert_eq!(correlator.poll("Y"), SlotPoll::Pending);
}

#[test]
fn notify_fulfills_the_slot_under_the_token() {
    let mut correlator = Correlator::new();
    correlator.subscribe("X").unwrap();
    correlator.subscribe("Y").unwrap();
    let response = frame(r#"{"@type":"ok","@extra":"X"}"#);
    assert_eq!(correlator.notify(response.clone()), None);
    assert_eq!(correlator.poll("Y"), SlotPoll::Pending);
    assert_eq!(correlator.poll("X"), SlotPoll::Ready(response));
    assert_eq!(correlator.poll("X"), SlotPoll::Cancelled);
    assert!(!correlator.is_subscribed("X"));
    assert!(correlator.is_subscribed("Y"));
}

#[test]
fn notify_delivers_to_a_slot_at_most_once() {
    let mut correlator = Correlator::new();
    correlator.subscribe("X").unwrap();
    let first = frame(r#"{"@type":"ok","@extra":"X","n":1}"#);
    let second = frame(r#"{"@type":"ok","@extra":"X","n":2}"#);
    assert_eq!(correlator.notify(first.clone()), None);
    assert_eq!(correlator.notify(second.clone()), Some(second.clone()));
    assert_eq!(correlator.poll("X"), SlotPoll::Ready(first));
    assert_eq!(correlator.notify(second.clone()), Some(second));
}

#[test]
fn notify_hands_back_a_frame_without_token() {
    let mut correlator = Correlator::new();
    correlator.subscribe("X").unwrap();
    let update = frame(r#"{"@type":"updateOption","name":"X"}"#);
    assert_eq!(correlator.notify(update.clone()), Some(update));
    assert_eq!(correlator.poll("X"), SlotPoll::Pending);
}

#[test]
fn notify_hands_back_a_frame_with_an_unknown_token() {
    let mut correlator = Correlator::new();
    correlator.subscribe("X").unwrap();
    let stray = frame(r#"{"@type":"ok","@extra":"x"}"#);
    assert_eq!(correlator.notify(stray.clone()), Some(stray));
    assert_eq!(correlator.poll("X"), SlotPoll::Pending);
}

#[test]
fn unsubscribe_is_safe_on_any_token() {
    let mut correlator = Correlator::new();
    correlator.unsubscribe("X");
    correlator.subscribe("X").unwrap();
    correlator.subscribe("Y").unwrap();
    correlator.unsubscribe("X");
    correlator.unsubscribe("X");
    assert!(!correlator.is_subscribed("X"));
    assert!(correlator.is_subscribed("Y"));
    assert_eq!(correlator.subscribe("X"), Ok(()));
}

#[test]
fn a_frame_after_unsubscribe_is_routed_as_an_update() {
    let mut correlator = Correlator::new();
    correlator.subscribe("X").unwrap();
    correlator.unsubscribe("X");
    let late = frame(r#"{"@type":"chats","@extra":"X"}"#);
    assert_eq!(route(&mut correlator, late.clone()), Routed::Update(late));
    assert!(!correlator.is_subscribed("X"));
}

#[test]
fn unsubscribe_removes_a_fulfilled_slot_too() {
    let mut correlator = Correlator::new();
    correlator.subscribe("X").unwrap();
    assert_eq!(correlator.notify(frame(r#"{"@type":"ok","@extra":"X"}"#)), None);
    correlator.unsubscribe("X");
    assert_eq!(correlator.poll("X"), SlotPoll::Cancelled);
}

#[test]
fn close_cancels_the_waiting_slots_only() {
    let mut correlator = Correlator::new();
    correlator.subscribe("a").unwrap();
    correlator.subscribe("b").unwrap();
    correlator.subscribe("c").unwrap();
    let response = frame(r#"{"@type":"ok","@extra":"b"}"#);
    assert_eq!(correlator.notify(response.clone()), None);
    assert!(!correlator.is_closed());
    correlator.close();
    assert!(correlator.is_closed());
    assert_eq!(correlator.poll("a"), SlotPoll::Cancelled);
    assert_eq!(correlator.poll("c"), SlotPoll::Cancelled);
    assert_eq!(correlator.poll("b"), SlotPoll::Ready(response));
    assert_eq!(correlator.poll("b"), SlotPoll::Cancelled);
}

#[test]
fn a_closed_registry_takes_no_registration() {
    let mut correlator = Correlator::new();
    correlator.close();
    assert_eq!(correlator.subscribe("X"), Err(RTDError::Cancelled));
    assert!(!correlator.is_subscribed("X"));
    let stray = frame(r#"{"@type":"ok","@extra":"X"}"#);
    assert_eq!(correlator.notify(stray.clone()), Some(stray));
}

#[test]
fn route_prefers_the_pending_call() {
    let mut correlator = Correlator::new();
    correlator.subscribe("t").unwrap();
    let update = frame(
        r#"{"@type":"updateAuthorizationState","@extra":"t","authorization_state":{"@type":"authorizationStateReady"}}"#,
    );
    assert_eq!(route(&mut correlator, update.clone()), Routed::Delivered);
    assert_eq!(route(&mut correlator, update.clone()), Routed::Authorization(update));
}

#[test]
fn route_sends_frames_without_token_past_the_registry() {
    let mut correlator = Correlator::new();
    correlator.subscribe("t").unwrap();
    let phase = frame(
        r#"{"@type":"updateAuthorizationState","authorization_state":{"@type":"authorizationStateWaitPhoneNumber"}}"#,
    );
    let update = frame(r#"{"@type":"updateUser"}"#);
    assert_eq!(route(&mut correlator, phase.clone()), Routed::Authorization(phase));
    assert_eq!(route(&mut correlator, update.clone()), Routed::Update(update));
    assert_eq!(correlator.poll("t"), SlotPoll::Pending);
}
