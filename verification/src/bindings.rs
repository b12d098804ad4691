//! Everything this library assumes about other crates.
//!
//! Each item here is believed, not proved. The data types are opaque: verified
//! code can hold and move their values but sees nothing inside them. Where a
//! contract needs to speak of what such a value holds, a spec function
//! without a body names it, and the functions below say how each call
//! changes it.

use crate::events::{ApplicationEvent, ScopedTelemetry};
use opentelemetry::metrics::Counter;
use opentelemetry::KeyValue;
use opentelemetry_proto::tonic::logs::v1::ScopeLogs;
use opentelemetry_proto::tonic::metrics::v1::ScopeMetrics;
use opentelemetry_proto::tonic::resource::v1::Resource;
use opentelemetry_proto::tonic::trace::v1::ScopeSpans;
use std::io::Write;
use tokio::sync::mpsc::{UnboundedReceiver, UnboundedSender};
use tokio::sync::{OnceCell, SetError};
use tokio_util::sync::CancellationToken;
use vstd::prelude::*;

verus! {

#[verifier::external_type_specification]
#[verifier::external_body]
pub struct ExKeyValue(KeyValue);

#[verifier::external_type_specification]
#[verifier::external_body]
#[verifier::reject_recursive_types(T)]
pub struct ExCounter<T>(Counter<T>);

#[verifier::external_type_specification]
#[verifier::external_body]
pub struct ExScopeLogs(ScopeLogs);

#[verifier::external_type_specification]
#[verifier::external_body]
pub struct ExScopeMetrics(ScopeMetrics);

#[verifier::external_type_specification]
#[verifier::external_body]
pub struct ExScopeSpans(ScopeSpans);

#[verifier::external_type_specification]
#[verifier::external_body]
pub struct ExResource(Resource);

#[verifier::external_type_specification]
#[verifier::external_body]
#[verifier::reject_recursive_types(T)]
pub struct ExOnceCell<T>(OnceCell<T>);

#[verifier::external_type_specification]
#[verifier::external_body]
#[verifier::reject_recursive_types(T)]
pub struct ExSetError<T>(SetError<T>);

#[verifier::external_type_specification]
#[verifier::external_body]
#[verifier::reject_recursive_types(T)]
pub struct ExUnboundedSender<T>(UnboundedSender<T>);

#[verifier::external_type_specification]
#[verifier::external_body]
#[verifier::reject_recursive_types(T)]
pub struct ExUnboundedReceiver<T>(UnboundedReceiver<T>);

#[verifier::external_type_specification]
#[verifier::external_body]
pub struct ExCancellationToken(CancellationToken);

/// `Clone::clone` of `ScopeLogs`: the copy equals the batch it was made from.
pub assume_specification[ <ScopeLogs as Clone>::clone ](batch: &ScopeLogs) -> (copy: ScopeLogs)
    ensures
        copy == *batch,
;

/// `Clone::clone` of `ScopeMetrics`: the copy equals the batch it was made from.
pub assume_specification[ <ScopeMetrics as Clone>::clone ](batch: &ScopeMetrics) -> (copy:
    ScopeMetrics)
    ensures
        copy == *batch,
;

/// `Clone::clone` of `ScopeSpans`: the copy equals the batch it was made from.
pub assume_specification[ <ScopeSpans as Clone>::clone ](batch: &ScopeSpans) -> (copy: ScopeSpans)
    ensures
        copy == *batch,
;

/// The attribute that `KeyValue::new` builds from a key and a text value.
pub uninterp spec fn key_value_of(key: Seq<char>, value: Seq<char>) -> KeyValue;

/// `KeyValue::new`: the attribute with this key and this text value.
#[verifier::external_body]
pub(crate) fn new_key_value(key: &'static str, value: String) -> (attribute: KeyValue)
    ensures
        attribute == key_value_of(key@, value@),
{
    KeyValue::new(key, value)
}

/// `Counter::add`, with the value converted to the counter's number type.
/// What the counter does with it is the counter's business.
#[verifier::external_body]
pub(crate) fn counter_add<T>(counter: &Counter<T>, value: u64, attributes: &[KeyValue]) where
    T: From<u64> + Send + Sync,
{
    counter.add(value.into(), attributes)
}

/// The resource that a cell holds, if it has been set.
pub uninterp spec fn stored_resource(cell: OnceCell<Resource>) -> Option<Resource>;

/// `OnceCell::new`: a cell that holds nothing.
#[verifier::external_body]
pub(crate) fn empty_resource_cell() -> (cell: OnceCell<Resource>)
    ensures
        stored_resource(cell) is None,
{
    OnceCell::new()
}

/// `OnceCell::set`, called by the cell's only holder: an empty cell takes the
/// value and reports success; a cell that already holds one keeps it and
/// reports failure.
#[verifier::external_body]
pub(crate) fn store_resource(cell: &mut OnceCell<Resource>, resource: Resource) -> (outcome:
    Result<(), SetError<Resource>>)
    ensures
        outcome is Ok <==> stored_resource(*old(cell)) is None,
        outcome is Ok ==> stored_resource(*final(cell)) == Some(resource),
        outcome is Err ==> stored_resource(*final(cell)) == stored_resource(*old(cell)),
{
    cell.set(resource)
}

/// `OnceCell::get`, with the value copied out: what the cell holds.
#[verifier::external_body]
pub(crate) fn load_resource(cell: &OnceCell<Resource>) -> (found: Option<Resource>)
    ensures
        found == stored_resource(*cell),
{
    cell.get().cloned()
}

/// The envelopes that have been put into a channel through this sender,
/// oldest first.
pub uninterp spec fn sent_envelopes(sender: UnboundedSender<ScopedTelemetry>) -> Seq<
    ScopedTelemetry,
>;

/// The events that have been put into a channel through this sender, oldest
/// first.
pub uninterp spec fn sent_events(sender: UnboundedSender<ApplicationEvent>) -> Seq<
    ApplicationEvent,
>;

/// `mpsc::unbounded_channel`: the two ends of a new channel, through which
/// nothing has been sent.
#[verifier::external_body]
pub(crate) fn envelope_channel() -> (ends: (
    UnboundedSender<ScopedTelemetry>,
    UnboundedReceiver<ScopedTelemetry>,
))
    ensures
        sent_envelopes(ends.0) == Seq::<ScopedTelemetry>::empty(),
{
    tokio::sync::mpsc::unbounded_channel()
}

/// `UnboundedSender::send`: either the envelope is appended to what this
/// sender has put into the channel, or the receiving end is gone and the
/// envelope comes back.
#[verifier::external_body]
pub(crate) fn send_envelope(
    sender: &mut UnboundedSender<ScopedTelemetry>,
    envelope: ScopedTelemetry,
) -> (outcome: Result<(), ScopedTelemetry>)
    ensures
        outcome is Ok ==> sent_envelopes(*final(sender)) == sent_envelopes(*old(sender)).push(
            envelope,
        ),
        outcome is Err ==> sent_envelopes(*final(sender)) == sent_envelopes(*old(sender)),
        outcome matches Err(returned) ==> returned == envelope,
{
    sender.send(envelope).map_err(|refused| refused.0)
}

/// `UnboundedSender::send`: either the event is appended to what this sender
/// has put into the channel, or the receiving end is gone and the event comes
/// back.
#[verifier::external_body]
pub(crate) fn send_event(
    sender: &mut UnboundedSender<ApplicationEvent>,
    event: ApplicationEvent,
) -> (outcome: Result<(), ApplicationEvent>)
    ensures
        outcome is Ok ==> sent_events(*final(sender)) == sent_events(*old(sender)).push(event),
        outcome is Err ==> sent_events(*final(sender)) == sent_events(*old(sender)),
        outcome matches Err(returned) ==> returned == event,
{
    sender.send(event).map_err(|refused| refused.0)
}

/// Whether cancellation has been requested through this handle.
///
/// A token is shared: another holder may cancel it at any time, and this
/// says nothing of that. It records only what this handle's holder has done.
pub uninterp spec fn cancel_requested(token: CancellationToken) -> bool;

/// `CancellationToken::new`: a token through which nothing has been
/// requested.
#[verifier::external_body]
pub(crate) fn fresh_token() -> (token: CancellationToken)
    ensures
        !cancel_requested(token),
{
    CancellationToken::new()
}

/// `CancellationToken::cancel`: cancellation has been requested.
#[verifier::external_body]
pub(crate) fn request_cancel(token: &mut CancellationToken)
    ensures
        cancel_requested(*final(token)),
{
    token.cancel()
}

/// `CancellationToken::is_cancelled`: true at least when cancellation has
/// been requested through this handle.
#[verifier::external_body]
pub(crate) fn cancel_observed(token: &CancellationToken) -> (seen: bool)
    ensures
        cancel_requested(*token) ==> seen,
{
    token.is_cancelled()
}

/// What `serde_json::to_string` makes of a log batch: its JSON text, or the
/// message of the failure.
pub uninterp spec fn scope_logs_encoding(batch: ScopeLogs) -> Result<Seq<char>, Seq<char>>;

/// What `serde_json::to_string` makes of a metric batch: its JSON text, or
/// the message of the failure.
pub uninterp spec fn scope_metrics_encoding(batch: ScopeMetrics) -> Result<Seq<char>, Seq<char>>;

/// What `serde_json::to_string` makes of a span batch: its JSON text, or the
/// message of the failure.
pub uninterp spec fn scope_spans_encoding(batch: ScopeSpans) -> Result<Seq<char>, Seq<char>>;

/// `serde_json::to_string` of a log batch; a failure comes back as the
/// encoder's message.
#[verifier::external_body]
pub(crate) fn scope_logs_json(batch: &ScopeLogs) -> (encoded: Result<String, String>)
    ensures
        match encoded {
            Ok(text) => scope_logs_encoding(*batch) == Ok::<Seq<char>, Seq<char>>(text@),
            Err(message) => scope_logs_encoding(*batch) == Err::<Seq<char>, Seq<char>>(message@),
        },
{
    serde_json::to_string(batch).map_err(|failure| failure.to_string())
}

/// `serde_json::to_string` of a metric batch; a failure comes back as the
/// encoder's message.
#[verifier::external_body]
pub(crate) fn scope_metrics_json(batch: &ScopeMetrics) -> (encoded: Result<String, String>)
    ensures
        match encoded {
            Ok(text) => scope_metrics_encoding(*batch) == Ok::<Seq<char>, Seq<char>>(text@),
            Err(message) => scope_metrics_encoding(*batch) == Err::<Seq<char>, Seq<char>>(
                message@,
            ),
        },
{
    serde_json::to_string(batch).map_err(|failure| failure.to_string())
}

/// `serde_json::to_string` of a span batch; a failure comes back as the
/// encoder's message.
#[verifier::external_body]
pub(crate) fn scope_spans_json(batch: &ScopeSpans) -> (encoded: Result<String, String>)
    ensures
        match encoded {
            Ok(text) => scope_spans_encoding(*batch) == Ok::<Seq<char>, Seq<char>>(text@),
            Err(message) => scope_spans_encoding(*batch) == Err::<Seq<char>, Seq<char>>(message@),
        },
{
    serde_json::to_string(batch).map_err(|failure| failure.to_string())
}

/// Writes one line to standard output; tells whether the write went through.
#[verifier::external_body]
pub(crate) fn write_line(line: &str) -> (written: bool) {
    writeln!(std::io::stdout(), "{}", line).is_ok()
}

/// Writes one line to standard error; tells whether the write went through.
#[verifier::external_body]
pub(crate) fn write_notice(line: &str) -> (written: bool) {
    writeln!(std::io::stderr(), "{}", line).is_ok()
}

} // verus!
