use opentelemetry_lambda_extension::controller::{ControllerState, ControllerStep};
use opentelemetry_lambda_extension::events::{ApplicationEvent, ScopedTelemetry, ShutdownReason};
use opentelemetry_lambda_extension::pipeline::{
    PipelineEvent, PipelineStats, PipelineStep,
};
use opentelemetry_lambda_extension::receivers::aws_lambda_extension::{
    AwsLambdaExtensionReceiver, HostEvent, ReceiverSignal, ReceiverState, ReceiverStep,
};
use opentelemetry_lambda_extension::{
    ApplicationController, Exporter, Pipeline, PipelineBuilder, Result,
};
use opentelemetry_proto::tonic::logs::v1::ScopeLogs;
use opentelemetry_proto::tonic::metrics::v1::ScopeMetrics;
use opentelemetry_proto::tonic::trace::v1::ScopeSpans;
use std::sync::{Arc, Mutex};
use tokio::runtime::{Builder, Runtime};
use tokio::sync::mpsc;
use tokio_util::sync::CancellationToken;

#[derive(Clone, Default)]
struct Recording {
    seen: Arc<Mutex<Vec<ScopedTelemetry>>>,
    shutdowns: Arc<Mutex<u32>>,
}

impl Exporter for Recording {
    fn export(&self, data: Vec<ScopedTelemetry>) -> Result<()> {
        self.seen.lock().unwrap().extend(data);
        Ok(())
    }

    fn flush(&self) -> Result<()> {
        Ok(())
    }

    fn shutdown(&self) -> Result<()> {
        *self.shutdowns.lock().unwrap() += 1;
        Ok(())
    }
}

fn runtime() -> Runtime {
    Builder::new_multi_thread().worker_threads(2).build().unwrap()
}

async fn run_pipeline(mut pipeline: Pipeline) -> Pipeline {
    let token = pipeline.cancellation_token().clone();
    let mut input_open = true;
    loop {
        let event = if input_open {
            match token.run_until_cancelled(pipeline.input().recv()).await {
                Some(Some(envelope)) => PipelineEvent::Envelope(envelope),
                Some(None) => PipelineEvent::InputClosed,
                None => PipelineEvent::Cancelled,
            }
        } else {
            token.cancelled().await;
            PipelineEvent::Cancelled
        };
        match pipeline.handle(event) {
            PipelineStep::Settled(_) => {}
            PipelineStep::AwaitCancellation => input_open = false,
            PipelineStep::Stopped => return pipeline,
        }
    }
}

async fn run_receiver(
    mut receiver: AwsLambdaExtensionReceiver,
    mut host: mpsc::UnboundedReceiver<HostEvent>,
) -> AwsLambdaExtensionReceiver {
    let token = receiver.cancellation_token().clone();
    let mut step = receiver.advance(ReceiverSignal::Registered).0;
    while step == ReceiverStep::Poll {
        let signal = match token.run_until_cancelled(host.recv()).await {
            Some(Some(event)) => ReceiverSignal::Host(event),
            Some(None) => ReceiverSignal::Disconnected,
            None => ReceiverSignal::Cancelled,
        };
        step = receiver.advance(signal).0;
    }
    receiver
}

async fn run_controller(mut controller: ApplicationController) -> ApplicationController {
    loop {
        let event = controller.events().recv().await;
        match controller.handle_event(event) {
            ControllerStep::Continue => {}
            ControllerStep::ShutDown(_) => {
                let token = controller.cancellation_token().clone();
                token.cancelled().await;
                return controller;
            }
            ControllerStep::ChannelClosed | ControllerStep::AlreadyStopped => return controller,
        }
    }
}

#[test]
fn cancellation_ends_a_blocked_receiver_and_a_blocked_pipeline() {
    runtime().block_on(async {
        let token = CancellationToken::new();
        let (event_tx, _event_rx) = mpsc::unbounded_channel();
        let (pipeline, telemetry_tx) = PipelineBuilder::new()
            .with_processors(vec![])
            .with_exporters(vec![])
            .with_cancellation_token(token.clone())
            .build();
        let receiver = AwsLambdaExtensionReceiver::new(token.clone(), event_tx, telemetry_tx);
        let (_host_tx, host_rx) = mpsc::unbounded_channel();

        let receiving = tokio::spawn(run_receiver(receiver, host_rx));
        let draining = tokio::spawn(run_pipeline(pipeline));
        tokio::task::yield_now().await;
        assert!(!receiving.is_finished());
        assert!(!draining.is_finished());

        token.cancel();

        let receiver = receiving.await.unwrap();
        let pipeline = draining.await.unwrap();
        assert_eq!(receiver.state(), ReceiverState::Stopped);
        assert!(!pipeline.is_running());
    });
}

#[test]
fn three_signals_flow_through_and_cancellation_shuts_the_exporter_down() {
    runtime().block_on(async {
        let recorder = Recording::default();
        let token = CancellationToken::new();
        let (pipeline, sender) = PipelineBuilder::new()
            .with_processors(vec![])
            .with_exporters(vec![Box::new(recorder.clone()) as Box<dyn Exporter>])
            .with_cancellation_token(token.clone())
            .build();
        let draining = tokio::spawn(run_pipeline(pipeline));

        let url = |text: &str| text.to_string();
        sender
            .send(ScopedTelemetry::Logs(ScopeLogs { schema_url: url("1"), ..ScopeLogs::default() }))
            .unwrap();
        sender
            .send(ScopedTelemetry::Metrics(ScopeMetrics {
                schema_url: url("2"),
                ..ScopeMetrics::default()
            }))
            .unwrap();
        sender
            .send(ScopedTelemetry::Spans(ScopeSpans {
                schema_url: url("3"),
                ..ScopeSpans::default()
            }))
            .unwrap();
        while recorder.seen.lock().unwrap().len() < 3 {
            tokio::task::yield_now().await;
        }
        token.cancel();
        let pipeline = draining.await.unwrap();

        let seen = recorder.seen.lock().unwrap();
        assert_eq!(seen.len(), 3);
        assert!(matches!(&seen[0], ScopedTelemetry::Logs(batch) if batch.schema_url == "1"));
        assert!(matches!(&seen[1], ScopedTelemetry::Metrics(batch) if batch.schema_url == "2"));
        assert!(matches!(&seen[2], ScopedTelemetry::Spans(batch) if batch.schema_url == "3"));
        assert_eq!(*recorder.shutdowns.lock().unwrap(), 1);
        assert_eq!(
            pipeline.stats(),
            PipelineStats { received: 3, delivered: 3, rerouted: 0, dropped: 0 }
        );
    });
}

#[test]
fn controller_without_pipelines_returns_on_shutdown_failure() {
    runtime().block_on(async {
        let (sender, receiver) = mpsc::unbounded_channel();
        let controller = ApplicationController::new(receiver);
        let running = tokio::spawn(run_controller(controller));
        sender
            .send(ApplicationEvent::Shutdown(ShutdownReason::Failure))
            .unwrap();
        let controller = running.await.unwrap();
        assert_eq!(controller.state(), ControllerState::ShutDown);
        assert!(controller.cancellation_acknowledged());
    });
}

#[test]
fn controller_returns_when_every_producer_is_gone() {
    runtime().block_on(async {
        let (sender, receiver) = mpsc::unbounded_channel();
        let controller = ApplicationController::new(receiver);
        let running = tokio::spawn(run_controller(controller));
        sender.send(ApplicationEvent::Sentinel).unwrap();
        drop(sender);
        let controller = running.await.unwrap();
        assert_eq!(controller.state(), ControllerState::Abandoned);
        assert!(!controller.cancellation_acknowledged());
    });
}

#[test]
fn host_shutdown_reaches_the_controller_which_cancels_everyone() {
    runtime().block_on(async {
        let (event_tx, event_rx) = mpsc::unbounded_channel();
        let controller = ApplicationController::new(event_rx);
        let token = controller.cancellation_token().clone();
        let recorder = Recording::default();
        let (pipeline, telemetry_tx) = PipelineBuilder::new()
            .with_processors(vec![])
            .with_exporters(vec![Box::new(recorder.clone()) as Box<dyn Exporter>])
            .with_cancellation_token(token.clone())
            .build();
        let receiver = AwsLambdaExtensionReceiver::new(token.clone(), event_tx, telemetry_tx);
        let (host_tx, host_rx) = mpsc::unbounded_channel();

        let receiving = tokio::spawn(run_receiver(receiver, host_rx));
        let draining = tokio::spawn(run_pipeline(pipeline));
        let controlling = tokio::spawn(run_controller(controller));

        host_tx
            .send(HostEvent::Invoke { request_id: "r-1".to_string(), deadline_ms: 10 })
            .unwrap();
        host_tx
            .send(HostEvent::Shutdown { shutdown_reason: "SPINDOWN".to_string(), deadline_ms: 20 })
            .unwrap();

        let receiver = receiving.await.unwrap();
        let controller = controlling.await.unwrap();
        let pipeline = draining.await.unwrap();
        assert_eq!(receiver.state(), ReceiverState::Stopped);
        assert_eq!(controller.state(), ControllerState::ShutDown);
        assert!(token.is_cancelled());
        assert!(!pipeline.is_running());
        assert_eq!(*recorder.shutdowns.lock().unwrap(), 1);
        assert_eq!(pipeline.stats().received, 0);
    });
}

#[test]
fn a_pipeline_whose_producers_are_gone_still_waits_for_cancellation() {
    runtime().block_on(async {
        let recorder = Recording::default();
        let token = CancellationToken::new();
        let (pipeline, sender) = PipelineBuilder::new()
            .with_processors(vec![])
            .with_exporters(vec![Box::new(recorder.clone()) as Box<dyn Exporter>])
            .with_cancellation_token(token.clone())
            .build();
        sender.send(ScopedTelemetry::Logs(ScopeLogs::default())).unwrap();
        drop(sender);
        let draining = tokio::spawn(run_pipeline(pipeline));
        while recorder.seen.lock().unwrap().is_empty() {
            tokio::task::yield_now().await;
        }
        for _ in 0..10 {
            tokio::task::yield_now().await;
        }
        assert!(!draining.is_finished());
        assert_eq!(*recorder.shutdowns.lock().unwrap(), 0);

        token.cancel();
        let pipeline = draining.await.unwrap();
        assert!(!pipeline.is_running());
        assert_eq!(*recorder.shutdowns.lock().unwrap(), 1);
        assert_eq!(pipeline.stats().delivered, 1);
    });
}
