//! The unit of telemetry that moves through a pipeline.

use opentelemetry_proto::tonic::logs::v1::ScopeLogs;
use opentelemetry_proto::tonic::metrics::v1::ScopeMetrics;
use opentelemetry_proto::tonic::trace::v1::ScopeSpans;
use vstd::prelude::*;

verus! {

/// One batch of telemetry of a single signal.
///
/// A value is never changed once built; it is handed from stage to stage by
/// move, and copied only where two stages must each own it.
#[derive(Debug)]
pub enum ScopedTelemetry {
    Logs(ScopeLogs),
    Metrics(ScopeMetrics),
    Spans(ScopeSpans),
}

/// The signal that an envelope carries.
#[derive(Debug, Clone, Copy, PartialEq, Eq, Structural)]
pub enum Signal {
    Logs,
    Metrics,
    Spans,
}

impl ScopedTelemetry {
    /// The signal that this envelope carries.
    pub open spec fn signal_spec(self) -> Signal {
        match self {
            ScopedTelemetry::Logs(_) => Signal::Logs,
            ScopedTelemetry::Metrics(_) => Signal::Metrics,
            ScopedTelemetry::Spans(_) => Signal::Spans,
        }
    }

    /// The signal that this envelope carries.
    pub fn signal(&self) -> (signal: Signal)
        ensures
            signal == self.signal_spec(),
    {
        match self {
            ScopedTelemetry::Logs(_) => Signal::Logs,
            ScopedTelemetry::Metrics(_) => Signal::Metrics,
            ScopedTelemetry::Spans(_) => Signal::Spans,
        }
    }
}

impl Clone for ScopedTelemetry {
    /// An envelope equal to this one, owned separately.
    fn clone(&self) -> (copy: ScopedTelemetry)
        ensures
            copy == *self,
    {
        match self {
            ScopedTelemetry::Logs(batch) => ScopedTelemetry::Logs(batch.clone()),
            ScopedTelemetry::Metrics(batch) => ScopedTelemetry::Metrics(batch.clone()),
            ScopedTelemetry::Spans(batch) => ScopedTelemetry::Spans(batch.clone()),
        }
    }
}

} // verus!
