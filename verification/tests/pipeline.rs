use opentelemetry_lambda_extension::events::{ScopedTelemetry, Signal};
use opentelemetry_lambda_extension::pipeline::{
    bump, settle, Disposition, DropCause, PipelineEvent, PipelineStats, PipelineStep,
};
use opentelemetry_lambda_extension::{
    Error, Exporter, Pipeline, PipelineBuilder, Processor, Receiver, Result,
};
use opentelemetry_proto::tonic::logs::v1::ScopeLogs;
use opentelemetry_proto::tonic::metrics::v1::ScopeMetrics;
use opentelemetry_proto::tonic::trace::v1::ScopeSpans;
use std::sync::{Arc, Mutex};
use tokio::sync::mpsc;
use tokio::sync::mpsc::error::TryRecvError;
use tokio_util::sync::CancellationToken;

fn logs(url: &str) -> ScopedTelemetry {
    ScopedTelemetry::Logs(ScopeLogs {
        schema_url: url.to_string(),
        ..ScopeLogs::default()
    })
}

fn metrics(url: &str) -> ScopedTelemetry {
    ScopedTelemetry::Metrics(ScopeMetrics {
        schema_url: url.to_string(),
        ..ScopeMetrics::default()
    })
}

fn spans(url: &str) -> ScopedTelemetry {
    ScopedTelemetry::Spans(ScopeSpans {
        schema_url: url.to_string(),
        ..ScopeSpans::default()
    })
}

fn same(left: &ScopedTelemetry, right: &ScopedTelemetry) -> bool {
    match (left, right) {
        (ScopedTelemetry::Logs(a), ScopedTelemetry::Logs(b)) => a == b,
        (ScopedTelemetry::Metrics(a), ScopedTelemetry::Metrics(b)) => a == b,
        (ScopedTelemetry::Spans(a), ScopedTelemetry::Spans(b)) => a == b,
        _ => false,
    }
}

struct Refusing;

impl Exporter for Refusing {
    fn export(&self, _data: Vec<ScopedTelemetry>) -> Result<()> {
        Err(Error::SerializationError("refused".to_string()))
    }

    fn flush(&self) -> Result<()> {
        Ok(())
    }

    fn shutdown(&self) -> Result<()> {
        Ok(())
    }
}

#[derive(Clone, Default)]
struct Recording {
    seen: Arc<Mutex<Vec<ScopedTelemetry>>>,
    shutdowns: Arc<Mutex<u32>>,
}

impl Exporter for Recording {
    fn export(&self, data: Vec<ScopedTelemetry>) -> Result<()> {
        self.seen.lock().unwrap().extend(data);
        Ok(())
    }

    fn flush(&self) -> Result<()> {
        Ok(())
    }

    fn shutdown(&self) -> Result<()> {
        *self.shutdowns.lock().unwrap() += 1;
        Ok(())
    }
}

struct Stamp(&'static str);

impl Processor for Stamp {
    fn process(&self, data: ScopedTelemetry) -> Result<ScopedTelemetry> {
        Ok(match data {
            ScopedTelemetry::Logs(mut batch) => {
                batch.schema_url.push_str(self.0);
                ScopedTelemetry::Logs(batch)
            }
            ScopedTelemetry::Metrics(mut batch) => {
                batch.schema_url.push_str(self.0);
                ScopedTelemetry::Metrics(batch)
            }
            ScopedTelemetry::Spans(mut batch) => {
                batch.schema_url.push_str(self.0);
                ScopedTelemetry::Spans(batch)
            }
        })
    }
}

struct RejectMetrics;

impl Processor for RejectMetrics {
    fn process(&self, data: ScopedTelemetry) -> Result<ScopedTelemetry> {
        match data {
            ScopedTelemetry::Metrics(_) => Err(Error::GetResourceError),
            other => Ok(other),
        }
    }
}

fn pipeline_with(
    processors: Vec<Box<dyn Processor>>,
    exporters: Vec<Box<dyn Exporter>>,
    failover: Option<mpsc::UnboundedSender<ScopedTelemetry>>,
) -> Pipeline {
    let builder = PipelineBuilder::new()
        .with_processors(processors)
        .with_exporters(exporters)
        .with_cancellation_token(CancellationToken::new());
    match failover {
        Some(sender) => builder.with_failover_channel(sender).build().0,
        None => builder.build().0,
    }
}

#[test]
fn failed_exports_reach_failover_exactly_once_and_in_order() {
    let (failover_tx, mut failover_rx) = mpsc::unbounded_channel();
    let mut pipeline = pipeline_with(vec![], vec![Box::new(Refusing)], Some(failover_tx));
    let inputs = vec![logs("a"), metrics("b"), spans("c"), logs("d")];
    for input in inputs.iter() {
        let step = pipeline.handle(PipelineEvent::Envelope(input.clone()));
        assert_eq!(step, PipelineStep::Settled(Disposition::Rerouted));
    }
    for input in inputs.iter() {
        let got = failover_rx.try_recv().expect("one rerouted envelope per input");
        assert!(same(&got, input));
    }
    assert_eq!(failover_rx.try_recv().unwrap_err(), TryRecvError::Empty);
    assert_eq!(
        pipeline.stats(),
        PipelineStats { received: 4, delivered: 0, rerouted: 4, dropped: 0 }
    );
}

#[test]
fn failover_receives_the_envelope_as_it_came_in() {
    let (failover_tx, mut failover_rx) = mpsc::unbounded_channel();
    let mut pipeline = pipeline_with(
        vec![Box::new(Stamp("#1")), Box::new(Stamp("#2"))],
        vec![Box::new(Refusing)],
        Some(failover_tx),
    );
    let step = pipeline.handle(PipelineEvent::Envelope(logs("raw")));
    assert_eq!(step, PipelineStep::Settled(Disposition::Rerouted));
    let got = failover_rx.try_recv().unwrap();
    assert!(same(&got, &logs("raw")));
}

#[test]
fn failed_exports_without_failover_are_dropped_and_counted() {
    let mut pipeline = pipeline_with(vec![], vec![Box::new(Refusing)], None);
    for input in [logs("a"), metrics("b"), spans("c")] {
        let step = pipeline.handle(PipelineEvent::Envelope(input));
        assert_eq!(
            step,
            PipelineStep::Settled(Disposition::Dropped(DropCause::ExportFailed))
        );
    }
    assert!(!pipeline.has_failover_channel());
    assert_eq!(
        pipeline.stats(),
        PipelineStats { received: 3, delivered: 0, rerouted: 0, dropped: 3 }
    );
}

#[test]
fn input_channel_is_emptied_by_the_run_loop_even_when_exports_fail() {
    let (pipeline, sender) = PipelineBuilder::new()
        .with_processors(vec![])
        .with_exporters(vec![Box::new(Refusing) as Box<dyn Exporter>])
        .with_cancellation_token(CancellationToken::new())
        .build();
    let mut pipeline = pipeline;
    sender.send(logs("a")).unwrap();
    sender.send(spans("b")).unwrap();
    let mut handled = 0;
    while let Ok(envelope) = pipeline.input().try_recv() {
        let step = pipeline.handle(PipelineEvent::Envelope(envelope));
        assert_eq!(
            step,
            PipelineStep::Settled(Disposition::Dropped(DropCause::ExportFailed))
        );
        handled += 1;
    }
    assert_eq!(handled, 2);
    assert_eq!(pipeline.input().try_recv().unwrap_err(), TryRecvError::Empty);
    assert_eq!(pipeline.stats().dropped, 2);
}

#[test]
fn closed_failover_channel_drops_the_envelope() {
    let (failover_tx, failover_rx) = mpsc::unbounded_channel();
    drop(failover_rx);
    let mut pipeline = pipeline_with(vec![], vec![Box::new(Refusing)], Some(failover_tx));
    let step = pipeline.handle(PipelineEvent::Envelope(logs("a")));
    assert_eq!(
        step,
        PipelineStep::Settled(Disposition::Dropped(DropCause::FailoverClosed))
    );
    assert_eq!(
        pipeline.stats(),
        PipelineStats { received: 1, delivered: 0, rerouted: 0, dropped: 1 }
    );
}

#[test]
fn three_envelopes_reach_a_recording_exporter_in_order() {
    let recorder = Recording::default();
    let token = CancellationToken::new();
    let (mut pipeline, sender) = PipelineBuilder::new()
        .with_receivers(vec![])
        .with_processors(vec![])
        .with_exporters(vec![Box::new(recorder.clone()) as Box<dyn Exporter>])
        .with_cancellation_token(token.clone())
        .build();
    let inputs = [logs("first"), metrics("second"), spans("third")];
    for input in inputs.iter() {
        sender.send(input.clone()).unwrap();
    }
    while let Ok(envelope) = pipeline.input().try_recv() {
        assert_eq!(
            pipeline.handle(PipelineEvent::Envelope(envelope)),
            PipelineStep::Settled(Disposition::Delivered)
        );
    }
    token.cancel();
    assert_eq!(pipeline.handle(PipelineEvent::Cancelled), PipelineStep::Stopped);

    let seen = recorder.seen.lock().unwrap();
    assert_eq!(seen.len(), 3);
    for (got, sent) in seen.iter().zip(inputs.iter()) {
        assert!(same(got, sent));
    }
    assert_eq!(seen[0].signal(), Signal::Logs);
    assert_eq!(seen[1].signal(), Signal::Metrics);
    assert_eq!(seen[2].signal(), Signal::Spans);
    assert_eq!(*recorder.shutdowns.lock().unwrap(), 1);
    assert_eq!(
        pipeline.stats(),
        PipelineStats { received: 3, delivered: 3, rerouted: 0, dropped: 0 }
    );
}

#[test]
fn processors_run_in_declaration_order() {
    let recorder = Recording::default();
    let mut pipeline = pipeline_with(
        vec![Box::new(Stamp("-a")), Box::new(Stamp("-b"))],
        vec![Box::new(recorder.clone())],
        None,
    );
    pipeline.handle(PipelineEvent::Envelope(spans("x")));
    let seen = recorder.seen.lock().unwrap();
    assert_eq!(seen.len(), 1);
    assert!(same(&seen[0], &spans("x-a-b")));
}

#[test]
fn a_processor_failure_drops_one_envelope_and_the_rest_go_on() {
    let recorder = Recording::default();
    let (failover_tx, mut failover_rx) = mpsc::unbounded_channel();
    let mut pipeline = pipeline_with(
        vec![Box::new(RejectMetrics)],
        vec![Box::new(recorder.clone())],
        Some(failover_tx),
    );
    assert_eq!(
        pipeline.handle(PipelineEvent::Envelope(logs("a"))),
        PipelineStep::Settled(Disposition::Delivered)
    );
    assert_eq!(
        pipeline.handle(PipelineEvent::Envelope(metrics("b"))),
        PipelineStep::Settled(Disposition::Dropped(DropCause::ProcessorFailed))
    );
    assert_eq!(
        pipeline.handle(PipelineEvent::Envelope(spans("c"))),
        PipelineStep::Settled(Disposition::Delivered)
    );
    assert_eq!(recorder.seen.lock().unwrap().len(), 2);
    assert_eq!(failover_rx.try_recv().unwrap_err(), TryRecvError::Empty);
    assert_eq!(
        pipeline.stats(),
        PipelineStats { received: 3, delivered: 2, rerouted: 0, dropped: 1 }
    );
}

#[test]
fn every_exporter_gets_the_envelope_until_one_refuses() {
    let first = Recording::default();
    let last = Recording::default();
    let mut pipeline = pipeline_with(
        vec![],
        vec![Box::new(first.clone()), Box::new(Refusing), Box::new(last.clone())],
        None,
    );
    assert_eq!(
        pipeline.handle(PipelineEvent::Envelope(logs("a"))),
        PipelineStep::Settled(Disposition::Dropped(DropCause::ExportFailed))
    );
    assert_eq!(first.seen.lock().unwrap().len(), 1);
    assert_eq!(last.seen.lock().unwrap().len(), 0);
}

#[test]
fn cancellation_stops_the_pipeline_once() {
    let recorder = Recording::default();
    let mut pipeline = pipeline_with(vec![], vec![Box::new(recorder.clone())], None);
    assert!(pipeline.is_running());
    assert_eq!(pipeline.handle(PipelineEvent::Cancelled), PipelineStep::Stopped);
    assert!(!pipeline.is_running());
    assert_eq!(pipeline.handle(PipelineEvent::Cancelled), PipelineStep::Stopped);
    assert_eq!(*recorder.shutdowns.lock().unwrap(), 1);
}

#[test]
fn a_stopped_pipeline_takes_no_more_input() {
    let recorder = Recording::default();
    let mut pipeline = pipeline_with(vec![], vec![Box::new(recorder.clone())], None);
    pipeline.handle(PipelineEvent::Cancelled);
    assert_eq!(
        pipeline.handle(PipelineEvent::Envelope(logs("late"))),
        PipelineStep::Stopped
    );
    assert!(recorder.seen.lock().unwrap().is_empty());
    assert_eq!(pipeline.stats(), PipelineStats::new());
}

#[test]
fn a_pipeline_without_stages_delivers() {
    let mut pipeline = pipeline_with(vec![], vec![], None);
    assert_eq!(
        pipeline.handle(PipelineEvent::Envelope(metrics("m"))),
        PipelineStep::Settled(Disposition::Delivered)
    );
}

#[test]
fn settle_covers_every_answer() {
    assert_eq!(settle(true, true, None), Disposition::Delivered);
    assert_eq!(settle(true, true, Some(false)), Disposition::Delivered);
    assert_eq!(settle(true, false, Some(true)), Disposition::Rerouted);
    assert_eq!(
        settle(true, false, Some(false)),
        Disposition::Dropped(DropCause::FailoverClosed)
    );
    assert_eq!(settle(true, false, None), Disposition::Dropped(DropCause::ExportFailed));
    assert_eq!(
        settle(false, true, Some(true)),
        Disposition::Dropped(DropCause::ProcessorFailed)
    );
}

#[test]
fn counters_stop_at_the_top() {
    assert_eq!(bump(0), 1);
    assert_eq!(bump(41), 42);
    assert_eq!(bump(u64::MAX - 1), u64::MAX);
    assert_eq!(bump(u64::MAX), u64::MAX);
    let full = PipelineStats { received: u64::MAX, delivered: 7, rerouted: u64::MAX, dropped: 0 };
    assert_eq!(
        full.record(Disposition::Rerouted),
        PipelineStats { received: u64::MAX, delivered: 7, rerouted: u64::MAX, dropped: 0 }
    );
    assert_eq!(
        full.record(Disposition::Delivered),
        PipelineStats { received: u64::MAX, delivered: 8, rerouted: u64::MAX, dropped: 0 }
    );
}

#[test]
fn builder_reports_completeness_from_its_slots() {
    let empty = PipelineBuilder::new();
    assert!(!empty.is_complete());
    let partial = empty.with_processors(vec![]).with_exporters(vec![]);
    assert!(!partial.is_complete());
    let complete = partial.with_cancellation_token(CancellationToken::new());
    assert!(complete.is_complete());
    let (pipeline, _sender) = complete.build();
    assert!(pipeline.is_running());
    assert!(pipeline.receivers().is_empty());
    assert!(!pipeline.cancellation_token().is_cancelled());
}

#[test]
fn a_batch_is_handled_envelope_by_envelope() {
    let recorder = Recording::default();
    let (failover_tx, mut failover_rx) = mpsc::unbounded_channel();
    let mut pipeline = pipeline_with(
        vec![Box::new(RejectMetrics)],
        vec![Box::new(recorder.clone())],
        Some(failover_tx),
    );
    let outcomes = pipeline.handle_batch(vec![logs("a"), metrics("b"), spans("c")]);
    assert_eq!(
        outcomes,
        vec![
            Disposition::Delivered,
            Disposition::Dropped(DropCause::ProcessorFailed),
            Disposition::Delivered,
        ]
    );
    assert_eq!(failover_rx.try_recv().unwrap_err(), TryRecvError::Empty);
    let seen = recorder.seen.lock().unwrap();
    assert!(same(&seen[0], &logs("a")));
    assert!(same(&seen[1], &spans("c")));
}

#[test]
fn a_refused_batch_is_rerouted_whole_and_in_order() {
    let (failover_tx, mut failover_rx) = mpsc::unbounded_channel();
    let mut pipeline = pipeline_with(vec![], vec![Box::new(Refusing)], Some(failover_tx));
    let inputs = vec![spans("1"), spans("2"), logs("3")];
    let outcomes = pipeline.handle_batch(inputs.clone());
    assert_eq!(outcomes, vec![Disposition::Rerouted; 3]);
    for input in inputs.iter() {
        assert!(same(&failover_rx.try_recv().unwrap(), input));
    }
    assert_eq!(failover_rx.try_recv().unwrap_err(), TryRecvError::Empty);
}

#[test]
fn a_stopped_pipeline_takes_no_batch() {
    let mut pipeline = pipeline_with(vec![], vec![], None);
    pipeline.handle(PipelineEvent::Cancelled);
    assert!(pipeline.handle_batch(vec![logs("a")]).is_empty());
    assert_eq!(pipeline.stats(), PipelineStats::new());
}

#[test]
fn a_closed_input_leaves_the_pipeline_running() {
    let recorder = Recording::default();
    let mut pipeline = pipeline_with(vec![], vec![Box::new(recorder.clone())], None);
    assert_eq!(
        pipeline.handle(PipelineEvent::InputClosed),
        PipelineStep::AwaitCancellation
    );
    assert!(pipeline.is_running());
    assert_eq!(*recorder.shutdowns.lock().unwrap(), 0);
    assert_eq!(pipeline.stats(), PipelineStats::new());
    assert_eq!(pipeline.handle(PipelineEvent::Cancelled), PipelineStep::Stopped);
    assert_eq!(pipeline.handle(PipelineEvent::InputClosed), PipelineStep::Stopped);
}

struct Source {
    name: &'static str,
    fails: bool,
    log: Arc<Mutex<Vec<&'static str>>>,
}

impl Receiver for Source {
    fn start(&self) -> Result<()> {
        self.log.lock().unwrap().push(self.name);
        if self.fails {
            Err(Error::ExtensionReceiver(self.name.to_string()))
        } else {
            Ok(())
        }
    }

    fn stop(&self) -> Result<()> {
        Ok(())
    }
}

fn pipeline_fed_by(receivers: Vec<Box<dyn Receiver>>) -> Pipeline {
    PipelineBuilder::new()
        .with_receivers(receivers)
        .with_processors(vec![])
        .with_exporters(vec![])
        .with_cancellation_token(CancellationToken::new())
        .build()
        .0
}

#[test]
fn receivers_are_started_in_order() {
    let log = Arc::new(Mutex::new(Vec::new()));
    let pipeline = pipeline_fed_by(vec![
        Box::new(Source { name: "first", fails: false, log: log.clone() }),
        Box::new(Source { name: "second", fails: false, log: log.clone() }),
    ]);
    assert_eq!(pipeline.receivers().len(), 2);
    assert!(pipeline.start_receivers().is_ok());
    assert_eq!(*log.lock().unwrap(), vec!["first", "second"]);
}

#[test]
fn the_first_receiver_that_cannot_start_ends_the_start() {
    let log = Arc::new(Mutex::new(Vec::new()));
    let pipeline = pipeline_fed_by(vec![
        Box::new(Source { name: "first", fails: false, log: log.clone() }),
        Box::new(Source { name: "second", fails: true, log: log.clone() }),
        Box::new(Source { name: "third", fails: true, log: log.clone() }),
    ]);
    match pipeline.start_receivers() {
        Err(Error::ExtensionReceiver(who)) => assert_eq!(who, "second"),
        other => panic!("got {:?}", other),
    }
    assert_eq!(*log.lock().unwrap(), vec!["first", "second"]);
}

#[test]
fn a_pipeline_without_receivers_starts() {
    assert!(pipeline_fed_by(vec![]).start_receivers().is_ok());
}

struct Stubborn {
    shutdowns: Arc<Mutex<u32>>,
}

impl Exporter for Stubborn {
    fn export(&self, _data: Vec<ScopedTelemetry>) -> Result<()> {
        Ok(())
    }

    fn flush(&self) -> Result<()> {
        Ok(())
    }

    fn shutdown(&self) -> Result<()> {
        *self.shutdowns.lock().unwrap() += 1;
        Err(Error::GetResourceError)
    }
}

#[test]
fn every_exporter_is_shut_down_even_after_one_fails() {
    let stubborn = Arc::new(Mutex::new(0));
    let recorder = Recording::default();
    let mut pipeline = pipeline_with(
        vec![],
        vec![
            Box::new(Stubborn { shutdowns: stubborn.clone() }),
            Box::new(recorder.clone()),
        ],
        None,
    );
    assert_eq!(pipeline.handle(PipelineEvent::Cancelled), PipelineStep::Stopped);
    assert_eq!(*stubborn.lock().unwrap(), 1);
    assert_eq!(*recorder.shutdowns.lock().unwrap(), 1);
}

#[test]
fn each_exporter_gets_a_batch_of_exactly_the_processed_envelope() {
    let first = Recording::default();
    let second = Recording::default();
    let mut pipeline = pipeline_with(
        vec![Box::new(Stamp("+"))],
        vec![Box::new(first.clone()), Box::new(second.clone())],
        None,
    );
    assert_eq!(
        pipeline.handle(PipelineEvent::Envelope(metrics("m"))),
        PipelineStep::Settled(Disposition::Delivered)
    );
    for recorder in [first, second] {
        let seen = recorder.seen.lock().unwrap();
        assert_eq!(seen.len(), 1);
        assert!(same(&seen[0], &metrics("m+")));
    }
}
