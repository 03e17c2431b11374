//! Core of a small flight-software framework: a fixed-capacity in-memory
//! log-record ring buffer with a logging service on top of it, and a
//! dual-clock time abstraction (monotonic time since start, mission-elapsed
//! time since a configurable epoch).

pub mod component;
pub mod log_macros;
pub mod log_service;
pub mod logger;
pub mod sinks;
pub mod time;
pub mod time_service;
pub mod timesource;

pub use log_macros::log_raw;
pub use logger::{LogBuffer, LogHandle, LogLevel, LogRecord, LogSink};
