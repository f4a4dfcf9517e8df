use crate::adapters::adapter_env_logger_builder::EnvLoggerAdapterBuilder;
use crate::adapters::severity::Severity;
use crate::logger::{
    emission_matches, Emission, Lifecycle, Logger, LoggerView, ShutdownAction,
};
use crate::logger_builder::LoggerConfig;
use crate::types::LogLevel;
use vstd::prelude::*;

verus! {

/// Feeds the records of a `log`-style framework into a logger.
pub struct EnvLoggerAdapter {
    vigilant_logger: Logger,
}

impl View for EnvLoggerAdapter {
    type V = LoggerView;

    closed spec fn view(&self) -> LoggerView {
        self.vigilant_logger@
    }
}

impl EnvLoggerAdapter {
    pub fn new(vigilant_logger: Logger) -> (adapter: Self)
        ensures
            adapter@ == vigilant_logger@,
    {
        Self { vigilant_logger }
    }

    pub fn builder<'a>() -> (b: EnvLoggerAdapterBuilder<'a>)
        ensures
            b@ == LoggerConfig::defaults(),
    {
        EnvLoggerAdapterBuilder::new()
    }

    /// The logger that the records are forwarded to.
    pub fn logger(&self) -> (l: &Logger)
        ensures
            l@ == self@,
    {
        &self.vigilant_logger
    }

    /// Shutdown of the logger behind the adapter.
    pub fn shutdown(&self, lifecycle: &mut Lifecycle) -> (action: ShutdownAction)
        ensures
            *final(lifecycle) == old(lifecycle).shutdown_state(),
            action == old(lifecycle).shutdown_action(),
    {
        self.vigilant_logger.shutdown(lifecycle)
    }

    /// One record of the framework. A record that the framework's own
    /// filter has not enabled is dropped; any other becomes a log call at
    /// the level that its severity maps to, with the record's text as the
    /// message and no attributes of its own.
    pub fn log(&self, enabled: bool, severity: Severity, message: &str) -> (out: Option<Emission>)
        ensures
            (!enabled || self@.noop) ==> out is None,
            (enabled && !self@.noop) ==> out is Some && emission_matches(
                out.unwrap(),
                self@,
                severity.level_spec(),
                message@,
                None,
                Seq::empty(),
                out.unwrap().entry.timestamp@,
            ),
    {
        if !enabled {
            return None;
        }
        match severity.level() {
            LogLevel::ERROR => self.vigilant_logger.error(message),
            LogLevel::WARNING => self.vigilant_logger.warn(message),
            LogLevel::INFO => self.vigilant_logger.info(message),
            LogLevel::DEBUG => self.vigilant_logger.debug(message),
        }
    }
}

} // verus!
