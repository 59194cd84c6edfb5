use std::cell::RefCell;
use std::rc::Rc;

use cc_wired::server::connection::{frame_action, Frame, FrameAction, Role};
use cc_wired::server::producer::{dispatch, Dispatch, DropReason};
use cc_wired::server::registry::{Registry, RouteOutcome, RouteStep};

/// A consumer's connection: every text sent over it lands in its inbox.
type Inbox = Rc<RefCell<Vec<String>>>;

fn connect(registry: &mut Registry<Inbox>, computer_id: &str) -> Inbox {
    let inbox: Inbox = Rc::new(RefCell::new(Vec::new()));
    registry.register(computer_id.to_string(), inbox.clone());
    inbox
}

/// Handles one text frame from a producer, as the server's producer
/// connection does.
fn produce(registry: &mut Registry<Inbox>, text: &str) -> Option<RouteOutcome> {
    match dispatch(registry, text) {
        Dispatch::Dropped(_) => None,
        Dispatch::Route { computer_id, step } => match step {
            RouteStep::NotConnected => Some(RouteOutcome::NotConnected),
            RouteStep::Deliver { session, text } => {
                session.borrow_mut().push(text);
                Some(registry.finish_route(&computer_id, Ok(())))
            }
        },
    }
}

#[test]
fn delivers_message_to_registered_consumer() {
    let mut registry = Registry::new();
    let consumer = connect(&mut registry, "computer-1");

    let payload = r#"{"computer_id":"computer-1","payload":"hello"}"#;
    assert_eq!(produce(&mut registry, payload), Some(RouteOutcome::Delivered));

    let received = consumer.borrow();
    assert_eq!(received.len(), 1, "expected a frame");
    assert_eq!(received[0].as_bytes(), payload.as_bytes());
}

#[test]
fn does_not_deliver_to_wrong_consumer() {
    let mut registry = Registry::new();
    let other_consumer = connect(&mut registry, "computer-2");

    let payload = r#"{"computer_id":"computer-1","payload":"hello"}"#;
    assert_eq!(produce(&mut registry, payload), Some(RouteOutcome::NotConnected));

    let got = other_consumer.borrow();
    assert!(got.is_empty(), "expected no message, got {got:?}");
}

#[test]
fn drops_malformed_json() {
    let mut registry = Registry::new();
    let consumer = connect(&mut registry, "computer-1");

    assert!(matches!(
        dispatch(&registry, "not json"),
        Dispatch::Dropped(DropReason::NotJson)
    ));
    assert_eq!(produce(&mut registry, "not json"), None);

    let got = consumer.borrow();
    assert!(got.is_empty(), "expected no message, got {got:?}");
}

#[test]
fn drops_message_missing_computer_id() {
    let mut registry = Registry::new();
    let consumer = connect(&mut registry, "computer-1");

    let payload = r#"{"payload":"hello"}"#;
    assert!(matches!(
        dispatch(&registry, payload),
        Dispatch::Dropped(DropReason::MissingComputerId)
    ));
    assert_eq!(produce(&mut registry, payload), None);

    let got = consumer.borrow();
    assert!(got.is_empty(), "expected no message, got {got:?}");
}

#[test]
fn disconnect_removes_registration_so_new_connection_gets_nothing_stale() {
    let mut registry = Registry::new();

    let consumer = connect(&mut registry, "computer-1");
    drop(consumer);
    registry.unregister("computer-1");

    let payload = r#"{"computer_id":"computer-1","payload":"stale?"}"#;
    assert_eq!(produce(&mut registry, payload), Some(RouteOutcome::NotConnected));

    let fresh_consumer = connect(&mut registry, "computer-1");
    let got = fresh_consumer.borrow();
    assert!(got.is_empty(), "expected no buffered/stale message, got {got:?}");
}

#[test]
fn consumer_responds_to_ping() {
    let action = frame_action(Role::Consumer, Some(Frame::Ping(Vec::new())));
    assert_eq!(action, FrameAction::Pong(Vec::new()));
}

#[test]
fn producer_ping_is_answered_with_the_same_bytes() {
    let action = frame_action(Role::Producer, Some(Frame::Ping(vec![1, 2, 3])));
    assert_eq!(action, FrameAction::Pong(vec![1, 2, 3]));
}

#[test]
fn producer_text_is_dispatched_and_consumer_text_ignored() {
    let text = "{\"computer_id\":\"a\"}".to_string();
    assert_eq!(
        frame_action(Role::Producer, Some(Frame::Text(text.clone()))),
        FrameAction::Dispatch(text.clone())
    );
    assert_eq!(frame_action(Role::Consumer, Some(Frame::Text(text))), FrameAction::Continue);
}

#[test]
fn close_and_end_of_stream_stop_the_loop() {
    for role in [Role::Producer, Role::Consumer] {
        assert_eq!(frame_action(role, Some(Frame::Close)), FrameAction::Stop);
        assert_eq!(frame_action(role, None), FrameAction::Stop);
        assert_eq!(frame_action(role, Some(Frame::Other)), FrameAction::Continue);
    }
}
