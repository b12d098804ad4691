//! Turns the host's lifecycle events into a shutdown metric and a
//! cancellation.

use crate::bindings::{cancel_requested, request_cancel};
use crate::events::ShutdownReason;
use crate::receivers::aws_lambda_extension::HostEvent;
use crate::shutdown_reason::MetricRecorder;
use tokio_util::sync::CancellationToken;
use vstd::prelude::*;

verus! {

/// Holds a handle on the cancellation signal and a counter of shutdowns.
pub struct EventProcessor<T: MetricRecorder + Clone> {
    cancellation_token: CancellationToken,
    shutdown_counter: T,
}

impl<T: MetricRecorder + Clone> EventProcessor<T> {
    /// The processor's handle on the cancellation signal.
    pub closed spec fn token_spec(&self) -> CancellationToken {
        self.cancellation_token
    }

    /// The counter of shutdowns.
    pub closed spec fn counter_spec(&self) -> T {
        self.shutdown_counter
    }

    /// A processor that cancels through `cancellation_token` and counts on
    /// `shutdown_counter`.
    pub fn new(cancellation_token: CancellationToken, shutdown_counter: T) -> (processor: Self)
        ensures
            processor.token_spec() == cancellation_token,
            processor.counter_spec() == shutdown_counter,
    {
        EventProcessor { cancellation_token, shutdown_counter }
    }

    /// Deals with one host event. Tells whether it was a shutdown notice.
    ///
    /// On a shutdown notice the host's reason is classified, one shutdown is
    /// counted under it, and cancellation is requested. An invocation
    /// changes nothing.
    pub fn call(&mut self, event: HostEvent) -> (shutting_down: bool)
        ensures
            shutting_down == (event is Shutdown),
            shutting_down ==> cancel_requested(final(self).token_spec()),
            !shutting_down ==> final(self).token_spec() == old(self).token_spec(),
            final(self).counter_spec() == old(self).counter_spec(),
    {
        match event {
            HostEvent::Shutdown { shutdown_reason, deadline_ms: _ } => {
                let reason = ShutdownReason::from(shutdown_reason);
                reason.emit_metric(&self.shutdown_counter);
                request_cancel(&mut self.cancellation_token);
                true
            },
            HostEvent::Invoke { .. } => false,
        }
    }
}

} // verus!
