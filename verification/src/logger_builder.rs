use crate::logger::{endpoint_url, Logger, LoggerView};
use vstd::prelude::*;

verus! {

/// The settings that a logger is built from.
pub ghost struct LoggerConfig {
    pub name: Seq<char>,
    pub endpoint: Seq<char>,
    pub token: Seq<char>,
    pub passthrough: bool,
    pub insecure: bool,
    pub noop: bool,
}

impl LoggerConfig {
    /// The settings of a builder on which nothing was set.
    pub open spec fn defaults() -> LoggerConfig {
        LoggerConfig {
            name: "sample-app"@,
            endpoint: "ingress.vigilant.run"@,
            token: "tk_1234567890"@,
            passthrough: false,
            insecure: false,
            noop: false,
        }
    }

    /// The logger that these settings give.
    pub open spec fn logger(self) -> LoggerView {
        LoggerView {
            name: self.name,
            url: endpoint_url(self.endpoint, self.insecure),
            token: self.token,
            passthrough: self.passthrough,
            noop: self.noop,
        }
    }
}

pub struct LoggerBuilder<'a> {
    name: &'a str,
    endpoint: &'a str,
    token: &'a str,
    passthrough: bool,
    insecure: bool,
    noop: bool,
}

impl<'a> View for LoggerBuilder<'a> {
    type V = LoggerConfig;

    closed spec fn view(&self) -> LoggerConfig {
        LoggerConfig {
            name: self.name@,
            endpoint: self.endpoint@,
            token: self.token@,
            passthrough: self.passthrough,
            insecure: self.insecure,
            noop: self.noop,
        }
    }
}

impl<'a> LoggerBuilder<'a> {
    pub fn new() -> (b: Self)
        ensures
            b@ == LoggerConfig::defaults(),
    {
        Self {
            name: "sample-app",
            endpoint: "ingress.vigilant.run",
            token: "tk_1234567890",
            passthrough: false,
            insecure: false,
            noop: false,
        }
    }

    pub fn name(self, name: &'a str) -> (b: Self)
        ensures
            b@ == (LoggerConfig { name: name@, ..self@ }),
    {
        let mut b = self;
        b.name = name;
        b
    }

    pub fn endpoint(self, endpoint: &'a str) -> (b: Self)
        ensures
            b@ == (LoggerConfig { endpoint: endpoint@, ..self@ }),
    {
        let mut b = self;
        b.endpoint = endpoint;
        b
    }

    pub fn token(self, token: &'a str) -> (b: Self)
        ensures
            b@ == (LoggerConfig { token: token@, ..self@ }),
    {
        let mut b = self;
        b.token = token;
        b
    }

    pub fn passthrough(self, enabled: bool) -> (b: Self)
        ensures
            b@ == (LoggerConfig { passthrough: enabled, ..self@ }),
    {
        let mut b = self;
        b.passthrough = enabled;
        b
    }

    pub fn insecure(self, enabled: bool) -> (b: Self)
        ensures
            b@ == (LoggerConfig { insecure: enabled, ..self@ }),
    {
        let mut b = self;
        b.insecure = enabled;
        b
    }

    pub fn noop(self, enabled: bool) -> (b: Self)
        ensures
            b@ == (LoggerConfig { noop: enabled, ..self@ }),
    {
        let mut b = self;
        b.noop = enabled;
        b
    }

    /// The logger with the settings collected so far.
    pub fn build(self) -> (logger: Logger)
        ensures
            logger@ == self@.logger(),
    {
        Logger::new(
            self.name,
            self.endpoint,
            self.token,
            self.passthrough,
            self.insecure,
            self.noop,
        )
    }
}

} // verus!
