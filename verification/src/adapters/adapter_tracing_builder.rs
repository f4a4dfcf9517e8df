use crate::adapters::adapter_tracing::{TracingAdapter, TracingAdapterView};
use crate::adapters::severity::LevelFilter;
use crate::logger_builder::{LoggerBuilder, LoggerConfig};
use vstd::prelude::*;

verus! {

/// The settings that a tracing adapter is built from.
pub ghost struct TracingConfig {
    pub logger: LoggerConfig,
    pub level_filter: LevelFilter,
}

impl TracingConfig {
    /// The settings of a builder on which nothing was set: the logger's
    /// defaults, and events forwarded from `Info` upwards.
    pub open spec fn defaults() -> TracingConfig {
        TracingConfig { logger: LoggerConfig::defaults(), level_filter: LevelFilter::Info }
    }

    /// The adapter that these settings give.
    pub open spec fn adapter(self) -> TracingAdapterView {
        TracingAdapterView { logger: self.logger.logger(), level_filter: self.level_filter }
    }
}

pub struct TracingAdapterBuilder<'a> {
    name: &'a str,
    endpoint: &'a str,
    token: &'a str,
    passthrough: bool,
    insecure: bool,
    noop: bool,
    level_filter: LevelFilter,
}

impl<'a> View for TracingAdapterBuilder<'a> {
    type V = TracingConfig;

    closed spec fn view(&self) -> TracingConfig {
        TracingConfig {
            logger: LoggerConfig {
                name: self.name@,
                endpoint: self.endpoint@,
                token: self.token@,
                passthrough: self.passthrough,
                insecure: self.insecure,
                noop: self.noop,
            },
            level_filter: self.level_filter,
        }
    }
}

impl<'a> TracingAdapterBuilder<'a> {
    pub fn new() -> (b: Self)
        ensures
            b@ == TracingConfig::defaults(),
    {
        Self {
            name: "sample-app",
            endpoint: "ingress.vigilant.run",
            token: "tk_1234567890",
            passthrough: false,
            insecure: false,
            noop: false,
            level_filter: LevelFilter::Info,
        }
    }

    pub fn name(self, name: &'a str) -> (b: Self)
        ensures
            b@ == (TracingConfig { logger: LoggerConfig { name: name@, ..self@.logger }, ..self@ }),
    {
        let mut b = self;
        b.name = name;
        b
    }

    pub fn endpoint(self, endpoint: &'a str) -> (b: Self)
        ensures
            b@ == (TracingConfig {
                logger: LoggerConfig { endpoint: endpoint@, ..self@.logger },
                ..self@
            }),
    {
        let mut b = self;
        b.endpoint = endpoint;
        b
    }

    pub fn token(self, token: &'a str) -> (b: Self)
        ensures
            b@ == (TracingConfig { logger: LoggerConfig { token: token@, ..self@.logger }, ..self@ }),
    {
        let mut b = self;
        b.token = token;
        b
    }

    pub fn passthrough(self, enabled: bool) -> (b: Self)
        ensures
            b@ == (TracingConfig {
                logger: LoggerConfig { passthrough: enabled, ..self@.logger },
                ..self@
            }),
    {
        let mut b = self;
        b.passthrough = enabled;
        b
    }

    pub fn insecure(self, enabled: bool) -> (b: Self)
        ensures
            b@ == (TracingConfig {
                logger: LoggerConfig { insecure: enabled, ..self@.logger },
                ..self@
            }),
    {
        let mut b = self;
        b.insecure = enabled;
        b
    }

    pub fn noop(self, enabled: bool) -> (b: Self)
        ensures
            b@ == (TracingConfig { logger: LoggerConfig { noop: enabled, ..self@.logger }, ..self@ }),
    {
        let mut b = self;
        b.noop = enabled;
        b
    }

    pub fn level_filter(self, level_filter: LevelFilter) -> (b: Self)
        ensures
            b@ == (TracingConfig { level_filter, ..self@ }),
    {
        let mut b = self;
        b.level_filter = level_filter;
        b
    }

    /// The adapter around the logger that the settings give, with the
    /// settings' filter.
    pub fn build(self) -> (adapter: TracingAdapter)
        ensures
            adapter@ == self@.adapter(),
    {
        let vigilant_logger = LoggerBuilder::new().name(self.name).endpoint(self.endpoint).token(
            self.token,
        ).passthrough(self.passthrough).insecure(self.insecure).noop(self.noop).build();
        TracingAdapter::new(vigilant_logger, self.level_filter)
    }
}

} // verus!
