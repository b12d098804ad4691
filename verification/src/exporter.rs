//! The exporter interface and the exporters that come with the library.

pub use crate::exporters::{Exporter, JsonExporter};
