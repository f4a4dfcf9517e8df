use crate::adapters::adapter_env_logger::EnvLoggerAdapter;
use crate::logger_builder::{LoggerBuilder, LoggerConfig};
use vstd::prelude::*;

verus! {

pub struct EnvLoggerAdapterBuilder<'a> {
    name: &'a str,
    endpoint: &'a str,
    token: &'a str,
    passthrough: bool,
    insecure: bool,
    noop: bool,
}

impl<'a> View for EnvLoggerAdapterBuilder<'a> {
    type V = LoggerConfig;

    closed spec fn view(&self) -> LoggerConfig {
        LoggerConfig {
            name: self.name@,
            endpoint: self.endpoint@,
            token: self.token@,
            passthrough: self.passthrough,
            insecure: self.insecure,
            noop: self.noop,
        }
    }
}

impl<'a> EnvLoggerAdapterBuilder<'a> {
    pub fn new() -> (b: Self)
        ensures
            b@ == LoggerConfig::defaults(),
    {
        Self {
            name: "sample-app",
            endpoint: "ingress.vigilant.run",
            token: "tk_1234567890",
            passthrough: false,
            insecure: false,
            noop: false,
        }
    }

    pub fn name(self, name: &'a str) -> (b: Self)
        ensures
            b@ == (LoggerConfig { name: name@, ..self@ }),
    {
        let mut b = self;
        b.name = name;
        b
    }

    pub fn endpoint(self, endpoint: &'a str) -> (b: Self)
        ensures
            b@ == (LoggerConfig { endpoint: endpoint@, ..self@ }),
    {
        let mut b = self;
        b.endpoint = endpoint;
        b
    }

    pub fn token(self, token: &'a str) -> (b: Self)
        ensures
            b@ == (LoggerConfig { token: token@, ..self@ }),
    {
        let mut b = self;
        b.token = token;
        b
    }

    pub fn passthrough(self, enabled: bool) -> (b: Self)
        ensures
            b@ == (LoggerConfig { passthrough: enabled, ..self@ }),
    {
        let mut b = self;
        b.passthrough = enabled;
        b
    }

    pub fn insecure(self, enabled: bool) -> (b: Self)
        ensures
            b@ == (LoggerConfig { insecure: enabled, ..self@ }),
    {
        let mut b = self;
        b.insecure = enabled;
        b
    }

    pub fn noop(self, enabled: bool) -> (b: Self)
        ensures
            b@ == (LoggerConfig { noop: enabled, ..self@ }),
    {
        let mut b = self;
        b.noop = enabled;
        b
    }

    /// The adapter around the logger that the settings give.
    pub fn build(self) -> (adapter: EnvLoggerAdapter)
        ensures
            adapter@ == self@.logger(),
    {
        let vigilant_logger = LoggerBuilder::new().name(self.name).endpoint(self.endpoint).token(
            self.token,
        ).passthrough(self.passthrough).insecure(self.insecure).noop(self.noop).build();
        EnvLoggerAdapter::new(vigilant_logger)
    }
}

} // verus!
