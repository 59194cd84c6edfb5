use cc_wired::server::registry::{Registry, RouteOutcome, RouteStep, SendError};

#[derive(Clone, Default)]
struct MockSession {
    should_fail: bool,
}

impl MockSession {
    fn send_text(&mut self, _text: String) -> Result<(), SendError> {
        if self.should_fail {
            Err(SendError)
        } else {
            Ok(())
        }
    }
}

fn route(registry: &mut Registry<MockSession>, computer_id: &str, text: &str) -> RouteOutcome {
    match registry.begin_route(computer_id, text) {
        RouteStep::NotConnected => RouteOutcome::NotConnected,
        RouteStep::Deliver { mut session, text } => {
            let sent = session.send_text(text);
            registry.finish_route(computer_id, sent)
        }
    }
}

#[test]
fn send_failure_unregisters_and_reports_send_failed() {
    let mut registry = Registry::<MockSession>::default();
    registry.register("computer-1".to_string(), MockSession { should_fail: true });

    let outcome = route(&mut registry, "computer-1", "hello");
    assert!(matches!(outcome, RouteOutcome::SendFailed));

    let outcome = route(&mut registry, "computer-1", "hello");
    assert!(matches!(outcome, RouteOutcome::NotConnected));
}

#[test]
fn send_success_reports_delivered() {
    let mut registry = Registry::<MockSession>::default();
    registry.register("computer-1".to_string(), MockSession { should_fail: false });

    let outcome = route(&mut registry, "computer-1", "hello");
    assert!(matches!(outcome, RouteOutcome::Delivered));
}

#[test]
fn successful_send_keeps_the_session() {
    let mut registry = Registry::<MockSession>::new();
    registry.register("computer-1".to_string(), MockSession { should_fail: false });
    assert_eq!(route(&mut registry, "computer-1", "a"), RouteOutcome::Delivered);
    assert_eq!(route(&mut registry, "computer-1", "b"), RouteOutcome::Delivered);
}

#[test]
fn unknown_computer_is_not_connected() {
    let mut registry = Registry::<MockSession>::new();
    assert_eq!(route(&mut registry, "computer-1", "hello"), RouteOutcome::NotConnected);
}

#[test]
fn registering_again_replaces_the_session() {
    let mut registry = Registry::<MockSession>::new();
    registry.register("computer-1".to_string(), MockSession { should_fail: true });
    registry.register("computer-1".to_string(), MockSession { should_fail: false });
    assert_eq!(route(&mut registry, "computer-1", "hello"), RouteOutcome::Delivered);
}

#[test]
fn unregister_disconnects_only_that_computer() {
    let mut registry = Registry::<MockSession>::new();
    registry.register("computer-1".to_string(), MockSession::default());
    registry.register("computer-2".to_string(), MockSession::default());
    registry.unregister("computer-1");
    assert_eq!(route(&mut registry, "computer-1", "x"), RouteOutcome::NotConnected);
    assert_eq!(route(&mut registry, "computer-2", "x"), RouteOutcome::Delivered);
}

#[test]
fn failed_send_keeps_other_computers() {
    let mut registry = Registry::<MockSession>::new();
    registry.register("computer-1".to_string(), MockSession { should_fail: true });
    registry.register("computer-2".to_string(), MockSession::default());
    assert_eq!(route(&mut registry, "computer-1", "x"), RouteOutcome::SendFailed);
    assert_eq!(route(&mut registry, "computer-2", "x"), RouteOutcome::Delivered);
}

#[test]
fn begin_route_hands_out_the_text_verbatim() {
    let mut registry = Registry::<MockSession>::new();
    registry.register("c".to_string(), MockSession::default());
    match registry.begin_route("c", "{\"x\": 1}") {
        RouteStep::Deliver { text, .. } => assert_eq!(text, "{\"x\": 1}"),
        RouteStep::NotConnected => panic!("expected a delivery"),
    }
}
