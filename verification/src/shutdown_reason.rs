//! Reporting a shutdown as a metric.

use crate::bindings::{counter_add, key_value_of, new_key_value};
use crate::events::shutdown::reason_label;
pub use crate::events::ShutdownReason;
use opentelemetry::metrics::Counter;
use opentelemetry::KeyValue;
use vstd::prelude::*;

verus! {

/// Something that counts: each call adds `value` to a total kept under the
/// given attributes.
///
/// Whoever implements this decides what a call does, so nothing is promised
/// of it.
pub trait MetricRecorder {
    fn add(&self, value: u64, attributes: &[KeyValue]);
}

impl<T> MetricRecorder for Counter<T> where T: From<u64> + Send + Sync {
    fn add(&self, value: u64, attributes: &[KeyValue]) {
        counter_add(self, value, attributes);
    }
}

impl ShutdownReason {
    /// The attributes under which a shutdown for this reason is counted: one
    /// attribute, with the key `reason` and this reason's label as its value.
    pub fn metric_attributes(&self) -> (attributes: Vec<KeyValue>)
        ensures
            attributes@ == seq![key_value_of("reason"@, reason_label(self@))],
    {
        let mut attributes: Vec<KeyValue> = Vec::new();
        attributes.push(new_key_value("reason", self.reason_string()));
        attributes
    }

    /// Counts one shutdown for this reason: adds 1 to `counter` under
    /// [`metric_attributes`](Self::metric_attributes).
    pub fn emit_metric<T: MetricRecorder>(&self, counter: &T) {
        let attributes = self.metric_attributes();
        counter.add(1, attributes.as_slice());
    }
}

} // verus!
