//! Export of OpenTelemetry spans as Honeycomb events.
//!
//! A finished span becomes one event for itself, one for each thing that
//! happened in it and one for each of its links ([`exporter`]). An export sends
//! these events in order for as long as the client is there and takes them
//! ([`export`]). The modules [`value_laws`], [`event_laws`] and [`export_laws`]
//! state what holds of all values, events and exports.
pub mod api_key;
pub mod client;
pub mod error;
pub mod event;
pub mod event_laws;
pub mod export;
pub mod export_laws;
pub mod exporter;
pub mod outside;
pub mod pipeline;
pub mod processor;
pub mod span;
pub mod text;
pub mod time;
pub mod value;
pub mod value_laws;

pub use api_key::HoneycombApiKey;
pub use client::HoneycombFlusher;
pub use error::HoneycombExporterError;
pub use libhoney::Error as HoneycombError;
pub use pipeline::{new_pipeline, HoneycombPipelineBuilder};
