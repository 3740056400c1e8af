//! Settings of the collector and of the agent that traces are sent to.

use crate::rate::{is_less, less, ONE, ZERO};
use vstd::prelude::*;
use vstd::string::*;

verus! {

/// Where the tracing agent listens, and what the service calls itself.
#[derive(Clone, Debug)]
pub struct Dd {
    pub service: String,
    pub env: String,
    pub version: String,
    pub host: String,
    pub port: String,
    /// Longest time between two flushes of the send buffer, in
    /// milliseconds.
    pub buffer_flush_max_interval: u64,
}

/// Facts about the deployment that every log record carries.
#[derive(Clone, Debug)]
pub struct Metadata {
    pub env: String,
    pub image: String,
}

/// Settings of the collector.
#[derive(Clone, Debug)]
pub struct Config {
    /// Name of the most verbose level that is collected.
    pub level: String,
    /// Only targets that start with this prefix are collected.
    pub prefix: String,
    /// Share of the traces to keep, as the bit pattern of an IEEE-754
    /// binary32 number.
    pub sample_rate: u32,
    pub metadata: Metadata,
    pub dd: Dd,
}

/// Host of the agent unless the settings name another: `localhost`.
pub fn default_host() -> (host: String)
    ensures
        host@ == "localhost"@,
{
    String::from_str("localhost")
}

/// Port of the agent unless the settings name another: `8126`.
pub fn default_port() -> (port: String)
    ensures
        port@ == "8126"@,
{
    String::from_str("8126")
}

/// Level unless the settings name another: `info`.
pub fn default_level() -> (level: String)
    ensures
        level@ == "info"@,
{
    String::from_str("info")
}

/// Sample rate unless the settings name another: 1, which keeps every
/// trace.
pub fn default_sample_rate() -> (rate: u32)
    ensures
        rate == ONE,
{
    ONE
}

/// Flush interval unless the settings name another: 200 milliseconds.
pub fn default_buffer_flush_max_interval() -> (millis: u64)
    ensures
        millis == 200,
{
    200
}

impl Default for Dd {
    fn default() -> (dd: Dd)
        ensures
            dd.service@.len() == 0,
            dd.env@.len() == 0,
            dd.version@.len() == 0,
            dd.host@ == "localhost"@,
            dd.port@ == "8126"@,
            dd.buffer_flush_max_interval == 200,
    {
        Dd {
            service: String::new(),
            env: String::new(),
            version: String::new(),
            host: default_host(),
            port: default_port(),
            buffer_flush_max_interval: default_buffer_flush_max_interval(),
        }
    }
}

impl Default for Metadata {
    fn default() -> (metadata: Metadata)
        ensures
            metadata.env@.len() == 0,
            metadata.image@.len() == 0,
    {
        Metadata { env: String::new(), image: String::new() }
    }
}

impl Default for Config {
    fn default() -> (config: Config)
        ensures
            config.level@ == "info"@,
            config.prefix@.len() == 0,
            config.sample_rate == ONE,
            config.metadata.env@.len() == 0,
            config.metadata.image@.len() == 0,
            config.dd.service@.len() == 0,
            config.dd.env@.len() == 0,
            config.dd.version@.len() == 0,
            config.dd.host@ == "localhost"@,
            config.dd.port@ == "8126"@,
            config.dd.buffer_flush_max_interval == 200,
    {
        Config {
            level: default_level(),
            prefix: String::new(),
            sample_rate: default_sample_rate(),
            metadata: Metadata::default(),
            dd: Dd::default(),
        }
    }
}

/// Whether a sample rate is refused: it is a number below 0 or above 1.
pub open spec fn rate_out_of_range(rate: u32) -> bool {
    less(rate, ZERO) || less(ONE, rate)
}

impl Config {
    /// The first fault of the settings, if they have one.
    pub open spec fn fault(&self) -> Option<Seq<char>> {
        if self.level@.len() == 0 {
            Some("Invalid level."@)
        } else if rate_out_of_range(self.sample_rate) {
            Some("Invalid sample rate."@)
        } else if self.dd.host@.len() == 0 {
            Some("Invalid host."@)
        } else if self.dd.port@.len() == 0 {
            Some("Invalid port."@)
        } else {
            None
        }
    }

    /// Checks the settings: the level, the host and the port must not be
    /// empty, and the sample rate must not lie below 0 or above 1. The error
    /// names the first of these that fails.
    pub fn validate(&self) -> (checked: Result<(), &'static str>)
        ensures
            match checked {
                Ok(_) => self.fault() is None,
                Err(message) => self.fault() == Some(message@),
            },
    {
        if self.level.as_str().is_empty() {
            return Err("Invalid level.");
        }
        if is_less(self.sample_rate, ZERO) || is_less(ONE, self.sample_rate) {
            return Err("Invalid sample rate.");
        }
        if self.dd.host.as_str().is_empty() {
            return Err("Invalid host.");
        }
        if self.dd.port.as_str().is_empty() {
            return Err("Invalid port.");
        }
        Ok(())
    }
}

/// The default settings have no fault.
pub proof fn default_is_valid(config: Config)
    requires
        config.level@ == "info"@,
        config.sample_rate == ONE,
        config.dd.host@ == "localhost"@,
        config.dd.port@ == "8126"@,
    ensures
        config.fault() is None,
{
    reveal_strlit("info");
    reveal_strlit("localhost");
    reveal_strlit("8126");
}

} // verus!
