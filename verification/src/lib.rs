//! Bookkeeping engine of an in-process tracing collector.
//!
//! The collector receives span and event notifications, keeps a registry of
//! live spans and an index of the spans created under each trace, and hands a
//! complete trace out when its root span is closed for the last time.

mod clock;
pub mod collector;
pub mod config;
pub mod event;
pub mod field;
pub mod laws;
pub mod level;
pub mod model;
pub mod rate;
pub mod span;
pub mod tags;
pub mod text;

pub use collector::Collector;
pub use config::Config;
