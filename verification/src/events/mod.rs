//! The data that flows between components: telemetry envelopes, control
//! events and the causes of a shutdown.

pub mod application;
pub mod scope_signal;
pub mod shutdown;

pub use application::{ApplicationEvent, ApplicationEventView};
pub use scope_signal::{ScopedTelemetry, Signal};
pub use shutdown::{ShutdownReason, ShutdownReasonView};
