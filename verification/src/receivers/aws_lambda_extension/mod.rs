//! The receiver that speaks the host's extension protocol.
//!
//! The transport is not here: whoever runs the receiver registers with the
//! host, waits for the host's events and for the cancellation signal, and
//! reports each as a [`ReceiverSignal`]. This module decides what follows.

pub mod event;

pub use event::{Emission, EventProcessor};

use crate::bindings::{cancel_requested, request_cancel, sent_events};
use crate::events::{ApplicationEvent, ApplicationEventView, ScopedTelemetry};
use crate::events::shutdown::parse_reason;
use tokio::sync::mpsc::UnboundedSender;
use tokio_util::sync::CancellationToken;
use vstd::prelude::*;

verus! {

/// One notice from the host.
#[derive(Debug)]
pub enum HostEvent {
    /// The function has been invoked.
    Invoke { request_id: String, deadline_ms: u64 },
    /// The host is about to terminate the process.
    Shutdown { shutdown_reason: String, deadline_ms: u64 },
}

/// Where the receiver stands in the protocol.
#[derive(Debug, Clone, Copy, PartialEq, Eq, Structural)]
pub enum ReceiverState {
    /// The handshake with the host is under way.
    Registering,
    /// Registered; asking the host for its next event.
    Polling,
    /// The host has announced a shutdown, and the application is being told.
    ShuttingDown,
    /// Done. The host is not asked again.
    Stopped,
}

/// What the receiver's run loop reports.
#[derive(Debug)]
pub enum ReceiverSignal {
    /// The handshake succeeded.
    Registered,
    /// The host delivered an event.
    Host(HostEvent),
    /// The shared cancellation signal has fired.
    Cancelled,
    /// The connection to the host failed.
    TransportFailed,
    /// The exchange with the host ended without a failure.
    Disconnected,
}

/// What the run loop is to do next.
#[derive(Debug, Clone, Copy, PartialEq, Eq, Structural)]
pub enum ReceiverStep {
    /// Go on with the handshake.
    Register,
    /// Ask the host for its next event.
    Poll,
    /// Leave the loop; the receiver ended as it should.
    Finish,
    /// Leave the loop and report a fatal error.
    Fail,
}

/// The state in which a signal leaves the receiver.
///
/// Cancellation and a shutdown notice both end in `Stopped`, from any state
/// and in either order. A shutdown notice passes through `ShuttingDown` on
/// its way, while the application is told.
pub open spec fn state_after(state: ReceiverState, signal: ReceiverSignal) -> ReceiverState {
    match state {
        ReceiverState::Stopped => ReceiverState::Stopped,
        ReceiverState::ShuttingDown => ReceiverState::Stopped,
        ReceiverState::Registering => match signal {
            ReceiverSignal::Registered => ReceiverState::Polling,
            ReceiverSignal::Host(_) => ReceiverState::Registering,
            ReceiverSignal::Cancelled => ReceiverState::Stopped,
            ReceiverSignal::TransportFailed => ReceiverState::Stopped,
            ReceiverSignal::Disconnected => ReceiverState::Stopped,
        },
        ReceiverState::Polling => match signal {
            ReceiverSignal::Registered => ReceiverState::Polling,
            ReceiverSignal::Host(HostEvent::Invoke { .. }) => ReceiverState::Polling,
            ReceiverSignal::Host(HostEvent::Shutdown { .. }) => ReceiverState::Stopped,
            ReceiverSignal::Cancelled => ReceiverState::Stopped,
            ReceiverSignal::TransportFailed => ReceiverState::Stopped,
            ReceiverSignal::Disconnected => ReceiverState::Stopped,
        },
    }
}

/// What the run loop is told when `signal` arrives in `state`.
pub open spec fn step_after(state: ReceiverState, signal: ReceiverSignal) -> ReceiverStep {
    match state_after(state, signal) {
        ReceiverState::Registering => ReceiverStep::Register,
        ReceiverState::Polling => ReceiverStep::Poll,
        _ => if signal is TransportFailed && (state == ReceiverState::Registering || state
            == ReceiverState::Polling) {
            ReceiverStep::Fail
        } else {
            ReceiverStep::Finish
        },
    }
}

/// Whether `signal` in `state` is a shutdown notice that the receiver acts
/// on: the only case in which an application event is emitted.
pub open spec fn announces_shutdown(state: ReceiverState, signal: ReceiverSignal) -> bool {
    state == ReceiverState::Polling && signal matches ReceiverSignal::Host(
        HostEvent::Shutdown { .. },
    )
}

/// The host-protocol receiver: its place in the protocol, its handle on the
/// cancellation signal, and the sending ends of the application-event channel
/// and of a pipeline's input channel.
pub struct AwsLambdaExtensionReceiver {
    cancellation_token: CancellationToken,
    events: EventProcessor,
    pipeline_channel: UnboundedSender<ScopedTelemetry>,
    state: ReceiverState,
}

impl AwsLambdaExtensionReceiver {
    /// Where the receiver stands in the protocol.
    pub closed spec fn state_spec(&self) -> ReceiverState {
        self.state
    }

    /// The receiver's handle on the cancellation signal.
    pub closed spec fn token_spec(&self) -> CancellationToken {
        self.cancellation_token
    }

    /// The application events that this receiver has emitted, oldest first.
    pub closed spec fn emitted_spec(&self) -> Seq<ApplicationEvent> {
        self.events.emitted_spec()
    }

    /// The sending end of the pipeline's input channel.
    pub closed spec fn pipeline_spec(&self) -> UnboundedSender<ScopedTelemetry> {
        self.pipeline_channel
    }

    /// A receiver that has yet to register with the host.
    pub fn new(
        cancellation_token: CancellationToken,
        application_channel: UnboundedSender<ApplicationEvent>,
        pipeline_channel: UnboundedSender<ScopedTelemetry>,
    ) -> (receiver: Self)
        ensures
            receiver.state_spec() == ReceiverState::Registering,
            receiver.token_spec() == cancellation_token,
            receiver.emitted_spec() == sent_events(application_channel),
            receiver.pipeline_spec() == pipeline_channel,
    {
        AwsLambdaExtensionReceiver {
            cancellation_token,
            events: EventProcessor::new(application_channel),
            pipeline_channel,
            state: ReceiverState::Registering,
        }
    }

    /// Where the receiver stands in the protocol.
    pub fn state(&self) -> (state: ReceiverState)
        ensures
            state == self.state_spec(),
    {
        self.state
    }

    /// The receiver's handle on the cancellation signal, for whoever waits on
    /// it.
    pub fn cancellation_token(&self) -> (token: &CancellationToken)
        ensures
            *token == self.token_spec(),
    {
        &self.cancellation_token
    }

    /// The sending end of the pipeline's input channel, for whoever turns the
    /// host's telemetry into envelopes.
    pub fn pipeline_channel(&self) -> (channel: &UnboundedSender<ScopedTelemetry>)
        ensures
            *channel == self.pipeline_spec(),
    {
        &self.pipeline_channel
    }

    /// Takes one signal from the run loop. Says what the loop is to do next,
    /// and what came of the signal on the application-event channel.
    ///
    /// State and step follow [`state_after`] and [`step_after`]. A shutdown
    /// notice that arrives while polling is turned into a shutdown event with
    /// the host's reason, classified, and emitted; nothing else emits
    /// anything. If the application-event channel is closed, the event is
    /// lost and the receiver stops all the same.
    pub fn advance(&mut self, signal: ReceiverSignal) -> (next: (ReceiverStep, Emission))
        ensures
            final(self).state_spec() == state_after(old(self).state_spec(), signal),
            next.0 == step_after(old(self).state_spec(), signal),
            final(self).token_spec() == old(self).token_spec(),
            final(self).pipeline_spec() == old(self).pipeline_spec(),
            announces_shutdown(old(self).state_spec(), signal) <==> !(next.1 is Nothing),
            !(next.1 is Sent) ==> final(self).emitted_spec() == old(self).emitted_spec(),
            next.1 is Sent ==> {
                &&& final(self).emitted_spec().len() == old(self).emitted_spec().len() + 1
                &&& final(self).emitted_spec().drop_last() == old(self).emitted_spec()
                &&& signal matches ReceiverSignal::Host(
                    HostEvent::Shutdown { shutdown_reason, .. },
                )
                &&& final(self).emitted_spec().last()@ == ApplicationEventView::Shutdown(
                    parse_reason(shutdown_reason@),
                )
            },
    {
        match self.state {
            ReceiverState::Stopped => (ReceiverStep::Finish, Emission::Nothing),
            ReceiverState::ShuttingDown => {
                self.state = ReceiverState::Stopped;
                (ReceiverStep::Finish, Emission::Nothing)
            },
            ReceiverState::Registering => match signal {
                ReceiverSignal::Registered => {
                    self.state = ReceiverState::Polling;
                    (ReceiverStep::Poll, Emission::Nothing)
                },
                ReceiverSignal::Host(_) => (ReceiverStep::Register, Emission::Nothing),
                ReceiverSignal::Cancelled => {
                    self.state = ReceiverState::Stopped;
                    (ReceiverStep::Finish, Emission::Nothing)
                },
                ReceiverSignal::TransportFailed => {
                    self.state = ReceiverState::Stopped;
                    (ReceiverStep::Fail, Emission::Nothing)
                },
                ReceiverSignal::Disconnected => {
                    self.state = ReceiverState::Stopped;
                    (ReceiverStep::Finish, Emission::Nothing)
                },
            },
            ReceiverState::Polling => match signal {
                ReceiverSignal::Registered => (ReceiverStep::Poll, Emission::Nothing),
                ReceiverSignal::Host(event) => {
                    let ends = match event {
                        HostEvent::Shutdown { .. } => true,
                        HostEvent::Invoke { .. } => false,
                    };
                    if ends {
                        self.state = ReceiverState::ShuttingDown;
                    }
                    let emission = self.events.call(event);
                    if ends {
                        self.state = ReceiverState::Stopped;
                        (ReceiverStep::Finish, emission)
                    } else {
                        (ReceiverStep::Poll, emission)
                    }
                },
                ReceiverSignal::Cancelled => {
                    self.state = ReceiverState::Stopped;
                    (ReceiverStep::Finish, Emission::Nothing)
                },
                ReceiverSignal::TransportFailed => {
                    self.state = ReceiverState::Stopped;
                    (ReceiverStep::Fail, Emission::Nothing)
                },
                ReceiverSignal::Disconnected => {
                    self.state = ReceiverState::Stopped;
                    (ReceiverStep::Finish, Emission::Nothing)
                },
            },
        }
    }

    /// Asks for cooperative shutdown: requests cancellation through the
    /// shared token and ends the receiver's part in the protocol.
    pub fn stop(&mut self)
        ensures
            final(self).state_spec() == ReceiverState::Stopped,
            cancel_requested(final(self).token_spec()),
            final(self).emitted_spec() == old(self).emitted_spec(),
            final(self).pipeline_spec() == old(self).pipeline_spec(),
    {
        request_cancel(&mut self.cancellation_token);
        self.state = ReceiverState::Stopped;
    }
}

/// Cancellation ends the receiver, whatever it was doing.
pub proof fn lemma_cancellation_stops(state: ReceiverState)
    ensures
        state_after(state, ReceiverSignal::Cancelled) == ReceiverState::Stopped,
        step_after(state, ReceiverSignal::Cancelled) == ReceiverStep::Finish,
{
}

/// Once stopped, the receiver stays stopped, and the host is not asked
/// again.
pub proof fn lemma_stopped_is_final(signal: ReceiverSignal)
    ensures
        state_after(ReceiverState::Stopped, signal) == ReceiverState::Stopped,
        step_after(ReceiverState::Stopped, signal) == ReceiverStep::Finish,
{
}

/// A shutdown notice and a cancellation lead a polling receiver to the same
/// end, whichever comes first.
pub proof fn lemma_shutdown_and_cancellation_commute(notice: HostEvent)
    requires
        notice is Shutdown,
    ensures
        state_after(
            state_after(ReceiverState::Polling, ReceiverSignal::Host(notice)),
            ReceiverSignal::Cancelled,
        ) == ReceiverState::Stopped,
        state_after(
            state_after(ReceiverState::Polling, ReceiverSignal::Cancelled),
            ReceiverSignal::Host(notice),
        ) == ReceiverState::Stopped,
{
}

} // verus!
