//! Sinks that deliver telemetry to a backend.

pub mod json;

pub use json::JsonExporter;

use crate::error::Result;
use crate::events::ScopedTelemetry;
use vstd::prelude::*;

verus! {

/// A sink that delivers batches of telemetry to one backend.
///
/// The backend decides whether a call succeeds. An exporter says which
/// answers it can give through `may_export` and `may_shut_down`; one that
/// says nothing can give any answer, and nothing is promised of it. An
/// exporter may be shared by several pipelines and must keep its own state
/// consistent under concurrent calls.
pub trait Exporter: Send + Sync {
    /// Whether `outcome` is an answer that this exporter can give when asked
    /// to deliver `data`.
    open spec fn may_export(&self, data: Seq<ScopedTelemetry>, outcome: Result<()>) -> bool {
        true
    }

    /// Whether `outcome` is an answer that this exporter can give when asked
    /// to shut down.
    open spec fn may_shut_down(&self, outcome: Result<()>) -> bool {
        true
    }

    /// Attempts to deliver `data`.
    fn export(&self, data: Vec<ScopedTelemetry>) -> (outcome: Result<()>)
        ensures
            self.may_export(data@, outcome),
    ;

    /// Forces out whatever the exporter has buffered, before returning.
    fn flush(&self) -> Result<()>;

    /// Flushes a last time and releases the exporter's resources. Calling it
    /// on an exporter that has already shut down must be harmless.
    fn shutdown(&self) -> (outcome: Result<()>)
        ensures
            self.may_shut_down(outcome),
    ;
}

} // verus!
