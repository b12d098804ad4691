//! The exporter that prints records as JSON lines.

use super::Exporter;
use crate::bindings::{
    scope_logs_encoding, scope_logs_json, scope_metrics_encoding, scope_metrics_json,
    scope_spans_encoding, scope_spans_json, write_line, write_notice,
};
use crate::error::{Error, Result};
use crate::events::{ScopedTelemetry, Signal};
use vstd::prelude::*;
use vstd::string::StringExecFns;

verus! {

/// Writes each record to standard output as one line of JSON.
///
/// A line is an object with a single member: the record's signal as the key,
/// and the batch, as its own encoder writes it, as the value.
#[derive(Debug, Clone, Copy)]
pub struct JsonExporter;

/// The key under which a batch of `signal` appears on its line.
pub open spec fn signal_key(signal: Signal) -> Seq<char> {
    match signal {
        Signal::Logs => "Logs"@,
        Signal::Metrics => "Metrics"@,
        Signal::Spans => "Spans"@,
    }
}

/// The line for a batch of `signal` that encodes as `body`.
pub open spec fn line_of(signal: Signal, body: Seq<char>) -> Seq<char> {
    "{\""@ + signal_key(signal) + "\":"@ + body + "}"@
}

/// What framing makes of an encoder's answer: the line around the body it
/// gave, or the message of its failure.
pub open spec fn framed(signal: Signal, encoding: std::result::Result<Seq<char>, Seq<char>>)
    -> std::result::Result<Seq<char>, Seq<char>> {
    match encoding {
        Ok(body) => Ok(line_of(signal, body)),
        Err(message) => Err(message),
    }
}

/// What rendering makes of a record: its line, or the message with which its
/// batch's encoder failed.
pub open spec fn rendered(item: ScopedTelemetry) -> std::result::Result<Seq<char>, Seq<char>> {
    match item {
        ScopedTelemetry::Logs(batch) => framed(Signal::Logs, scope_logs_encoding(batch)),
        ScopedTelemetry::Metrics(batch) => framed(Signal::Metrics, scope_metrics_encoding(batch)),
        ScopedTelemetry::Spans(batch) => framed(Signal::Spans, scope_spans_encoding(batch)),
    }
}

/// The lines of the records of `data` that can be encoded, in the order of
/// the records.
pub open spec fn lines_of(data: Seq<ScopedTelemetry>) -> Seq<Seq<char>>
    decreases data.len(),
{
    if data.len() == 0 {
        Seq::empty()
    } else {
        match rendered(data.last()) {
            Ok(line) => lines_of(data.drop_last()).push(line),
            Err(_) => lines_of(data.drop_last()),
        }
    }
}

/// The encoders' messages for the records of `data` that cannot be encoded,
/// in the order of the records.
pub open spec fn failures_of(data: Seq<ScopedTelemetry>) -> Seq<Seq<char>>
    decreases data.len(),
{
    if data.len() == 0 {
        Seq::empty()
    } else {
        match rendered(data.last()) {
            Ok(_) => failures_of(data.drop_last()),
            Err(message) => failures_of(data.drop_last()).push(message),
        }
    }
}

/// The texts that a run of strings holds.
pub open spec fn texts(strings: Seq<String>) -> Seq<Seq<char>> {
    Seq::new(strings.len(), |i: int| strings[i]@)
}

/// What a batch comes to: the lines to print, and the encoders' messages for
/// the records that gave no line.
#[derive(Debug)]
pub struct Rendering {
    pub lines: Vec<String>,
    pub failures: Vec<String>,
}

impl JsonExporter {
    /// Makes a record's line from what the batch's encoder gave: the framed
    /// body where it gave one, a `SerializationError` with the encoder's
    /// message where it failed.
    pub fn frame(signal: Signal, encoded: std::result::Result<String, String>) -> (line: Result<
        String,
    >)
        ensures
            match encoded {
                Ok(body) => line matches Ok(text) && text@ == line_of(signal, body@),
                Err(message) => line matches Err(Error::SerializationError(reported))
                    && reported@ == message@,
            },
    {
        match encoded {
            Ok(body) => {
                let mut text = "{\"".to_owned();
                match signal {
                    Signal::Logs => text.append("Logs"),
                    Signal::Metrics => text.append("Metrics"),
                    Signal::Spans => text.append("Spans"),
                }
                text.append("\":");
                text.append(body.as_str());
                text.append("}");
                Ok(text)
            },
            Err(message) => Err(Error::SerializationError(message)),
        }
    }

    /// Encodes one record as its line: the batch's JSON text, framed for the
    /// record's signal. Where the batch's encoder fails, so does this, with a
    /// `SerializationError` that carries the encoder's message.
    pub fn render(item: &ScopedTelemetry) -> (line: Result<String>)
        ensures
            match rendered(*item) {
                Ok(text) => line matches Ok(made) && made@ == text,
                Err(message) => line matches Err(Error::SerializationError(reported))
                    && reported@ == message,
            },
    {
        match item {
            ScopedTelemetry::Logs(batch) => JsonExporter::frame(
                Signal::Logs,
                scope_logs_json(batch),
            ),
            ScopedTelemetry::Metrics(batch) => JsonExporter::frame(
                Signal::Metrics,
                scope_metrics_json(batch),
            ),
            ScopedTelemetry::Spans(batch) => JsonExporter::frame(
                Signal::Spans,
                scope_spans_json(batch),
            ),
        }
    }

    /// Renders a batch: one line for each record that can be encoded, in the
    /// order of the records, and one message for each that cannot. A record
    /// that fails is left out and the records after it are rendered all the
    /// same.
    pub fn render_batch(data: &Vec<ScopedTelemetry>) -> (rendering: Rendering)
        ensures
            texts(rendering.lines@) == lines_of(data@),
            texts(rendering.failures@) == failures_of(data@),
            rendering.lines@.len() + rendering.failures@.len() == data@.len(),
    {
        let mut lines: Vec<String> = Vec::new();
        let mut failures: Vec<String> = Vec::new();
        let mut index: usize = 0;
        while index < data.len()
            invariant
                index <= data@.len(),
                texts(lines@) == lines_of(data@.take(index as int)),
                texts(failures@) == failures_of(data@.take(index as int)),
            decreases data@.len() - index,
        {
            proof {
                assert(data@.take(index + 1).drop_last() == data@.take(index as int));
            }
            match JsonExporter::render(&data[index]) {
                Ok(line) => {
                    lines.push(line);
                },
                Err(failure) => {
                    match failure {
                        Error::SerializationError(message) => {
                            failures.push(message);
                        },
                        _ => {},
                    }
                },
            }
            index = index + 1;
        }
        proof {
            assert(data@.take(data@.len() as int) == data@);
            lemma_every_record_is_accounted_for(data@);
            assert(texts(lines@).len() == lines@.len());
            assert(texts(failures@).len() == failures@.len());
        }
        Rendering { lines, failures }
    }
}

/// Every record of a batch gives a line or a failure, and never both: none
/// is merged with another and none is passed over in silence.
pub proof fn lemma_every_record_is_accounted_for(data: Seq<ScopedTelemetry>)
    ensures
        lines_of(data).len() + failures_of(data).len() == data.len(),
    decreases data.len(),
{
    if data.len() > 0 {
        lemma_every_record_is_accounted_for(data.drop_last());
    }
}

/// Where every record of a batch can be encoded, there is one line for each
/// record, at the record's place, and no failure.
pub proof fn lemma_encodable_batch_gives_every_line(data: Seq<ScopedTelemetry>)
    requires
        forall|i: int| 0 <= i < data.len() ==> #[trigger] rendered(data[i]) is Ok,
    ensures
        lines_of(data).len() == data.len(),
        failures_of(data).len() == 0,
        forall|i: int|
            0 <= i < data.len() ==> rendered(data[i]) == Ok::<Seq<char>, Seq<char>>(
                #[trigger] lines_of(data)[i],
            ),
    decreases data.len(),
{
    if data.len() > 0 {
        let earlier = data.drop_last();
        assert forall|i: int| 0 <= i < earlier.len() implies #[trigger] rendered(
            earlier[i],
        ) is Ok by {
            assert(earlier[i] == data[i]);
        }
        lemma_encodable_batch_gives_every_line(earlier);
        assert forall|i: int| 0 <= i < data.len() implies rendered(data[i]) == Ok::<
            Seq<char>,
            Seq<char>,
        >(#[trigger] lines_of(data)[i]) by {
            if i < earlier.len() {
                assert(earlier[i] == data[i]);
                assert(lines_of(data)[i] == lines_of(earlier)[i]);
            }
        }
    }
}

/// The lines of two batches, one after the other, are the lines of the
/// first followed by the lines of the second.
pub proof fn lemma_lines_of_joined(first: Seq<ScopedTelemetry>, second: Seq<ScopedTelemetry>)
    ensures
        lines_of(first + second) == lines_of(first) + lines_of(second),
    decreases second.len(),
{
    if second.len() == 0 {
        assert(first + second == first);
        assert(lines_of(first) + lines_of(second) == lines_of(first));
    } else {
        lemma_lines_of_joined(first, second.drop_last());
        assert((first + second).drop_last() == first + second.drop_last());
        assert((first + second).last() == second.last());
        match rendered(second.last()) {
            Ok(line) => {
                assert(lines_of(first + second) == (lines_of(first) + lines_of(
                    second.drop_last(),
                )).push(line));
                assert((lines_of(first) + lines_of(second.drop_last())).push(line) == lines_of(
                    first,
                ) + lines_of(second.drop_last()).push(line));
            },
            Err(_) => {},
        }
    }
}

/// A record that cannot be encoded is left out and nothing else is: the
/// lines of the batch are those of the records before it followed by those
/// of the records after it.
pub proof fn lemma_failed_record_is_skipped(data: Seq<ScopedTelemetry>, place: int)
    requires
        0 <= place < data.len(),
        rendered(data[place]) is Err,
    ensures
        lines_of(data) == lines_of(data.take(place)) + lines_of(data.skip(place + 1)),
{
    let before = data.take(place);
    let failed = seq![data[place]];
    let after = data.skip(place + 1);
    assert(data == before + failed + after);
    lemma_lines_of_joined(before + failed, after);
    lemma_lines_of_joined(before, failed);
    assert(failed.drop_last() == Seq::<ScopedTelemetry>::empty());
    assert(lines_of(failed) == Seq::<Seq<char>>::empty()) by {
        assert(failed.last() == data[place]);
        assert(lines_of(failed.drop_last()) == Seq::<Seq<char>>::empty());
    }
    assert(lines_of(before) + lines_of(failed) == lines_of(before));
}

impl Exporter for JsonExporter {
    /// This exporter only ever reports success.
    open spec fn may_export(&self, data: Seq<ScopedTelemetry>, outcome: Result<()>) -> bool {
        outcome is Ok
    }

    /// This exporter only ever reports success.
    open spec fn may_shut_down(&self, outcome: Result<()>) -> bool {
        outcome is Ok
    }

    /// Prints what [`render_batch`](JsonExporter::render_batch) makes of
    /// `data`: each line on standard output, in order, and a notice on
    /// standard error for each record that gave no line and for each line
    /// that could not be written. Always succeeds.
    fn export(&self, data: Vec<ScopedTelemetry>) -> (outcome: Result<()>)
        ensures
            outcome is Ok,
    {
        let rendering = JsonExporter::render_batch(&data);
        let mut index: usize = 0;
        while index < rendering.lines.len()
            invariant
                index <= rendering.lines@.len(),
            decreases rendering.lines@.len() - index,
        {
            if !write_line(rendering.lines[index].as_str()) {
                let _ = write_notice("Failed to write a record to standard output");
            }
            index = index + 1;
        }
        let mut index: usize = 0;
        while index < rendering.failures.len()
            invariant
                index <= rendering.failures@.len(),
            decreases rendering.failures@.len() - index,
        {
            let mut notice = "Failed to serialize JSON: ".to_owned();
            notice.append(rendering.failures[index].as_str());
            let _ = write_notice(notice.as_str());
            index = index + 1;
        }
        Ok(())
    }

    /// Nothing is buffered, so there is nothing to do. Always succeeds.
    fn flush(&self) -> (outcome: Result<()>)
        ensures
            outcome is Ok,
    {
        Ok(())
    }

    /// Nothing is held, so there is nothing to release. Always succeeds.
    fn shutdown(&self) -> (outcome: Result<()>)
        ensures
            outcome is Ok,
    {
        Ok(())
    }
}

} // verus!
