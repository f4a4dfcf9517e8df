//! Fronts for events of other logging and tracing frameworks.

pub mod adapter_env_logger;
pub mod adapter_env_logger_builder;
pub mod adapter_tracing;
pub mod adapter_tracing_builder;
pub mod numerals;
pub mod severity;
