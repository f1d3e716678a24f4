//! The telemetry namespace.

pub mod util;
