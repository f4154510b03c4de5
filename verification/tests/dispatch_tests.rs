use turtle_server::types::{ClientId, Request, TurtleId};
use turtle_server::dispatcher::{conclude_task, serve_step, HandlerError, ServeAction,
    ServeEvent, TaskVerdict};

#[test]
fn shutdown_signal_stops_the_loop() {
    assert_eq!(serve_step(ServeEvent::ShutdownSignal), ServeAction::Stop);
}

#[test]
fn dropped_shutdown_sender_stops_the_loop() {
    assert_eq!(serve_step(ServeEvent::ShutdownChannelClosed), ServeAction::Stop);
}

#[test]
fn disconnect_stops_the_loop_without_aborting() {
    let action = serve_step(ServeEvent::Disconnected);
    assert_eq!(action, ServeAction::Stop);
    assert_ne!(action, ServeAction::Fatal);
}

#[test]
fn transport_protocol_error_is_fatal() {
    assert_eq!(serve_step(ServeEvent::TransportError), ServeAction::Fatal);
}

#[test]
fn delivered_requests_are_dispatched_unchanged() {
    let ev = ServeEvent::Incoming(ClientId(42), Request::MoveForward(TurtleId(1), 7));
    match serve_step(ev) {
        ServeAction::Dispatch(c, r) => {
            assert_eq!(c, ClientId(42));
            assert_eq!(r, Request::MoveForward(TurtleId(1), 7));
        },
        other => panic!("unexpected action {:?}", other),
    }
}

#[test]
fn reply_serialisation_failure_aborts_the_process() {
    assert_eq!(
        conclude_task(Err(HandlerError::IpcChannelError)),
        TaskVerdict::AbortProcess,
    );
}

#[test]
fn closed_event_loop_is_benign() {
    assert_eq!(conclude_task(Err(HandlerError::EventLoopClosed)), TaskVerdict::Proceed);
    assert_eq!(conclude_task(Ok(())), TaskVerdict::Proceed);
}
