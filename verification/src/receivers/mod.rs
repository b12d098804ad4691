//! Sources that feed telemetry into a pipeline.

pub mod aws_lambda_extension;
pub mod otlp_http;

pub use aws_lambda_extension::AwsLambdaExtensionReceiver;

use crate::error::Result;
use vstd::prelude::*;

verus! {

/// A component that takes data in from outside and emits envelopes into a
/// pipeline's input channel.
///
/// Whether a receiver can start is for the receiver to say. It says which
/// answers it can give through `may_start`; a receiver that says nothing can
/// give any answer, and nothing is promised of it.
pub trait Receiver: Send + Sync {
    /// Whether `outcome` is an answer that this receiver can give when asked
    /// to start.
    open spec fn may_start(&self, outcome: Result<()>) -> bool {
        true
    }

    /// Sets the receiver's run loop going. The loop ends when the shared
    /// cancellation signal fires or when the receiver meets a failure it
    /// cannot recover from. Fails where the loop cannot be started.
    fn start(&self) -> (outcome: Result<()>)
        ensures
            self.may_start(outcome),
    ;

    /// Asks the receiver to stop, and returns once it has quiesced: nothing
    /// more is sent to its output channel after that.
    fn stop(&self) -> Result<()>;
}

} // verus!
