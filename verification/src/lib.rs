//! Verified core of a telemetry sidecar: shutdown classification, control
//! events, pipeline assembly and routing, and the lifecycle controller.

pub mod bindings;
pub mod controller;
pub mod error;
pub mod event_processor;
pub mod events;
pub mod exporter;
pub mod exporters;
pub mod pipeline;
pub mod processors;
pub mod receivers;
pub mod shutdown_reason;

pub use crate::controller::ApplicationController;
pub use crate::error::{Error, Result};
pub use crate::exporters::{Exporter, JsonExporter};
pub use crate::pipeline::{Pipeline, PipelineBuilder};
pub use crate::processors::Processor;
pub use crate::receivers::Receiver;
