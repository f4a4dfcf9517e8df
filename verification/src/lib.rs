//! Client-side log shipping: leveled log calls become structured entries,
//! entries are buffered into batches, and batches are handed to a transport.
//!
//! This crate holds the rules of that pipeline as functions on plain values:
//! how an entry is built, how attributes merge, when the batching worker
//! flushes, and how shutdown drains. Threads, channels and HTTP live around it.

pub mod adapters;
pub mod batcher;
pub mod delivery;
pub mod logger;
pub mod logger_builder;
pub mod types;

pub use adapters::adapter_env_logger::EnvLoggerAdapter;
pub use adapters::adapter_env_logger_builder::EnvLoggerAdapterBuilder;
pub use adapters::adapter_tracing::TracingAdapter;
pub use adapters::adapter_tracing_builder::TracingAdapterBuilder;
pub use logger::Logger;
pub use logger_builder::LoggerBuilder;
pub use types::Attribute;
