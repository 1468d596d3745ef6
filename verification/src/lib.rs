//! Routing of telemetry events to per-destination channels.
//!
//! An event that carries the telemetry target is matched against the
//! enclosing spans to find its routing key, decoded into a verbosity and a
//! JSON payload, and handed to the channel registered under that key.
//!
//! - [`event`]: what is read of an event and of its scope.
//! - [`text`]: string equality, decimal rendering, the payload rewrite.
//! - [`attrs`]: the attribute extractor.
//! - [`route`]: the routing decision, a function of event and scope alone.
//! - [`senders`]: the sender registry and its shared handle.
//! - [`layer`]: the layer itself.
//! - [`laws`]: what holds of all of these on every input.

pub mod attrs;
pub mod event;
pub mod laws;
pub mod layer;
pub mod route;
pub mod senders;
pub mod text;

pub use crate::attrs::MalformedEvent;
pub use crate::event::Field;
pub use crate::event::FieldValue;
pub use crate::event::SpanFrame;
pub use crate::event::TelemetryEvent;
pub use crate::layer::Disposition;
pub use crate::layer::Severity;
pub use crate::layer::Telemetries;
pub use crate::layer::TelemetryLayer;
pub use crate::route::TELEMETRY_LOG_SPAN;
pub use crate::senders::Delivery;
pub use crate::senders::Senders;
