use opentelemetry_lambda_extension::events::{ApplicationEvent, ScopedTelemetry, ShutdownReason};
use opentelemetry_lambda_extension::receivers::aws_lambda_extension::{
    AwsLambdaExtensionReceiver, Emission, EventProcessor, HostEvent, ReceiverSignal, ReceiverState,
    ReceiverStep,
};
use tokio::sync::mpsc;
use tokio::sync::mpsc::error::TryRecvError;
use tokio_util::sync::CancellationToken;

struct Rig {
    receiver: AwsLambdaExtensionReceiver,
    token: CancellationToken,
    events: mpsc::UnboundedReceiver<ApplicationEvent>,
    _telemetry: mpsc::UnboundedReceiver<ScopedTelemetry>,
}

fn rig() -> Rig {
    let token = CancellationToken::new();
    let (event_tx, events) = mpsc::unbounded_channel();
    let (telemetry_tx, telemetry) = mpsc::unbounded_channel();
    Rig {
        receiver: AwsLambdaExtensionReceiver::new(token.clone(), event_tx, telemetry_tx),
        token,
        events,
        _telemetry: telemetry,
    }
}

fn invoke() -> ReceiverSignal {
    ReceiverSignal::Host(HostEvent::Invoke {
        request_id: "test-id".to_string(),
        deadline_ms: 1000,
    })
}

fn shutdown(reason: &str) -> ReceiverSignal {
    ReceiverSignal::Host(HostEvent::Shutdown {
        shutdown_reason: reason.to_string(),
        deadline_ms: 2000,
    })
}

#[test]
fn handshake_then_polling() {
    let mut rig = rig();
    assert_eq!(rig.receiver.state(), ReceiverState::Registering);
    assert_eq!(
        rig.receiver.advance(ReceiverSignal::Registered),
        (ReceiverStep::Poll, Emission::Nothing)
    );
    assert_eq!(rig.receiver.state(), ReceiverState::Polling);
    for _ in 0..3 {
        assert_eq!(
            rig.receiver.advance(invoke()),
            (ReceiverStep::Poll, Emission::Nothing)
        );
        assert_eq!(rig.receiver.state(), ReceiverState::Polling);
    }
    assert_eq!(rig.events.try_recv().unwrap_err(), TryRecvError::Empty);
}

#[test]
fn host_shutdown_is_classified_and_emitted_once() {
    let mut rig = rig();
    rig.receiver.advance(ReceiverSignal::Registered);
    assert_eq!(
        rig.receiver.advance(shutdown("TIMEOUT")),
        (ReceiverStep::Finish, Emission::Sent)
    );
    assert_eq!(rig.receiver.state(), ReceiverState::Stopped);
    assert_eq!(
        rig.events.try_recv().unwrap(),
        ApplicationEvent::Shutdown(ShutdownReason::Timeout)
    );
    assert_eq!(rig.events.try_recv().unwrap_err(), TryRecvError::Empty);
    assert!(!rig.token.is_cancelled());
}

#[test]
fn unknown_host_reason_travels_verbatim() {
    let mut rig = rig();
    rig.receiver.advance(ReceiverSignal::Registered);
    rig.receiver.advance(shutdown("sigterm from operator"));
    assert_eq!(
        rig.events.try_recv().unwrap(),
        ApplicationEvent::Shutdown(ShutdownReason::Other("sigterm from operator".to_string()))
    );
}

#[test]
fn cancellation_stops_from_every_state() {
    let mut registering = rig();
    assert_eq!(
        registering.receiver.advance(ReceiverSignal::Cancelled),
        (ReceiverStep::Finish, Emission::Nothing)
    );
    assert_eq!(registering.receiver.state(), ReceiverState::Stopped);

    let mut polling = rig();
    polling.receiver.advance(ReceiverSignal::Registered);
    assert_eq!(
        polling.receiver.advance(ReceiverSignal::Cancelled),
        (ReceiverStep::Finish, Emission::Nothing)
    );
    assert_eq!(polling.receiver.state(), ReceiverState::Stopped);
    assert_eq!(polling.events.try_recv().unwrap_err(), TryRecvError::Empty);

    assert_eq!(
        polling.receiver.advance(ReceiverSignal::Cancelled),
        (ReceiverStep::Finish, Emission::Nothing)
    );
    assert_eq!(polling.receiver.state(), ReceiverState::Stopped);
}

#[test]
fn shutdown_and_cancellation_in_either_order_end_stopped() {
    let mut host_first = rig();
    host_first.receiver.advance(ReceiverSignal::Registered);
    host_first.receiver.advance(shutdown("SPINDOWN"));
    host_first.receiver.advance(ReceiverSignal::Cancelled);
    assert_eq!(host_first.receiver.state(), ReceiverState::Stopped);

    let mut cancel_first = rig();
    cancel_first.receiver.advance(ReceiverSignal::Registered);
    cancel_first.receiver.advance(ReceiverSignal::Cancelled);
    assert_eq!(
        cancel_first.receiver.advance(shutdown("SPINDOWN")),
        (ReceiverStep::Finish, Emission::Nothing)
    );
    assert_eq!(cancel_first.receiver.state(), ReceiverState::Stopped);
    assert_eq!(cancel_first.events.try_recv().unwrap_err(), TryRecvError::Empty);
}

#[test]
fn transport_failure_is_fatal() {
    let mut registering = rig();
    assert_eq!(
        registering.receiver.advance(ReceiverSignal::TransportFailed),
        (ReceiverStep::Fail, Emission::Nothing)
    );
    assert_eq!(registering.receiver.state(), ReceiverState::Stopped);

    let mut polling = rig();
    polling.receiver.advance(ReceiverSignal::Registered);
    assert_eq!(
        polling.receiver.advance(ReceiverSignal::TransportFailed),
        (ReceiverStep::Fail, Emission::Nothing)
    );
    assert_eq!(
        polling.receiver.advance(ReceiverSignal::TransportFailed),
        (ReceiverStep::Finish, Emission::Nothing)
    );
}

#[test]
fn host_events_before_the_handshake_are_passed_over() {
    let mut rig = rig();
    assert_eq!(
        rig.receiver.advance(shutdown("FAILURE")),
        (ReceiverStep::Register, Emission::Nothing)
    );
    assert_eq!(rig.receiver.state(), ReceiverState::Registering);
    assert_eq!(rig.events.try_recv().unwrap_err(), TryRecvError::Empty);
}

#[test]
fn closed_event_channel_loses_the_event_but_stops_the_receiver() {
    let mut rig = rig();
    rig.receiver.advance(ReceiverSignal::Registered);
    rig.events.close();
    assert_eq!(
        rig.receiver.advance(shutdown("FAILURE")),
        (ReceiverStep::Finish, Emission::ChannelClosed)
    );
    assert_eq!(rig.receiver.state(), ReceiverState::Stopped);
}

#[test]
fn stop_cancels_the_shared_token() {
    let mut rig = rig();
    rig.receiver.advance(ReceiverSignal::Registered);
    rig.receiver.stop();
    assert!(rig.token.is_cancelled());
    assert!(rig.receiver.cancellation_token().is_cancelled());
    assert_eq!(rig.receiver.state(), ReceiverState::Stopped);
    assert!(!rig.receiver.pipeline_channel().is_closed());
}

#[test]
fn event_processor_sends_only_on_shutdown() {
    let (sender, mut events) = mpsc::unbounded_channel();
    let mut processor = EventProcessor::new(sender);
    assert_eq!(
        processor.call(HostEvent::Invoke {
            request_id: "r".to_string(),
            deadline_ms: 5,
        }),
        Emission::Nothing
    );
    assert_eq!(events.try_recv().unwrap_err(), TryRecvError::Empty);
    assert_eq!(
        processor.call(HostEvent::Shutdown {
            shutdown_reason: "FAILURE".to_string(),
            deadline_ms: 5,
        }),
        Emission::Sent
    );
    assert_eq!(
        events.try_recv().unwrap(),
        ApplicationEvent::Shutdown(ShutdownReason::Failure)
    );
    drop(events);
    assert_eq!(
        processor.call(HostEvent::Shutdown {
            shutdown_reason: "FAILURE".to_string(),
            deadline_ms: 5,
        }),
        Emission::ChannelClosed
    );
}

#[test]
fn a_host_that_goes_away_quietly_ends_the_receiver() {
    let mut polling = rig();
    polling.receiver.advance(ReceiverSignal::Registered);
    assert_eq!(
        polling.receiver.advance(ReceiverSignal::Disconnected),
        (ReceiverStep::Finish, Emission::Nothing)
    );
    assert_eq!(polling.receiver.state(), ReceiverState::Stopped);
    assert_eq!(polling.events.try_recv().unwrap_err(), TryRecvError::Empty);

    let mut registering = rig();
    assert_eq!(
        registering.receiver.advance(ReceiverSignal::Disconnected),
        (ReceiverStep::Finish, Emission::Nothing)
    );
    assert_eq!(registering.receiver.state(), ReceiverState::Stopped);
}
