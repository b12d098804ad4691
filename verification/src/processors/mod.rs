//! Transformation stages between a pipeline's input and its exporters.

use crate::error::Result;
use crate::events::ScopedTelemetry;
use vstd::prelude::*;

verus! {

/// One stage of a pipeline's processor chain.
///
/// A stage takes an envelope and gives back the envelope that the next stage
/// is to see, or fails, in which case the pipeline drops that envelope and
/// goes on with the next one. The stage decides. It says which answers it can
/// give through `may_process`; a stage that says nothing can give any answer,
/// and nothing is promised of it.
pub trait Processor: Send + Sync {
    /// Whether `outcome` is an answer that this stage can give for `data`.
    open spec fn may_process(&self, data: ScopedTelemetry, outcome: Result<ScopedTelemetry>)
        -> bool {
        true
    }

    /// Transforms one envelope.
    fn process(&self, data: ScopedTelemetry) -> (outcome: Result<ScopedTelemetry>)
        ensures
            self.may_process(data, outcome),
    ;
}

} // verus!
