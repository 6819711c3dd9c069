//! A telemetry batching pipeline: processors that hand finished spans and log
//! records to an exporter, either one at a time or in bounded, time-limited
//! batches.
//!
//! The batch worker is written as an explicit state machine. It owns the
//! buffer and decides; the surrounding event loop performs what it is told
//! (exports, timers, replies) and reports back. Every decision in this crate
//! is verified against the contracts stated on it.

pub mod channel;
pub mod decimal;
pub mod env;
pub mod error;
pub mod export;
pub mod log_processor;
pub mod resource;
pub mod span_processor;
pub mod time;
pub mod worker;
