//! The tracker's configuration and what the process does at its two ends:
//! whether it starts tracking at all, and with which code it exits.

use vstd::prelude::*;

verus! {

/// Where closed sessions are sent. Loaded once at startup and not changed
/// afterwards.
#[derive(Clone, Debug)]
pub struct Config {
    /// Address of the collector's endpoint.
    pub server_url: String,
    /// Key sent with every request, if one is configured.
    pub api_key: Option<String>,
}

/// A configuration as plain values.
pub struct ConfigView {
    pub server_url: Seq<char>,
    pub api_key: Option<Seq<char>>,
}

impl View for Config {
    type V = ConfigView;

    open spec fn view(&self) -> ConfigView {
        ConfigView {
            server_url: self.server_url@,
            api_key: match self.api_key {
                Some(key) => Some(key@),
                None => None,
            },
        }
    }
}

impl Default for Config {
    /// A collector on the local machine and no key.
    fn default() -> (config: Config)
        ensures
            config@.server_url == "http://localhost:3000/api/log-session"@,
            config@.api_key is None,
    {
        Config { server_url: "http://localhost:3000/api/log-session".to_owned(), api_key: None }
    }
}

/// What reading the configuration file gave.
pub enum ConfigSource {
    /// There is no file.
    Missing,
    /// There is a file, but it does not hold a configuration.
    Unparseable,
    /// The file held this configuration.
    Loaded(Config),
}

/// How the process goes on after reading the configuration file.
pub enum Startup {
    /// Start the configurator and leave; no event is handled.
    HandOff,
    /// Track with this configuration.
    Run(Config),
}

/// Decides how to start. Without a usable configuration the tracker does
/// not run: that is no error, the configurator takes over.
pub fn startup(source: ConfigSource) -> (plan: Startup)
    ensures
        match source {
            ConfigSource::Loaded(config) => plan == Startup::Run(config),
            _ => plan is HandOff,
        },
{
    match source {
        ConfigSource::Loaded(config) => Startup::Run(config),
        ConfigSource::Missing => Startup::HandOff,
        ConfigSource::Unparseable => Startup::HandOff,
    }
}

/// Why the process ends.
#[derive(Clone, Copy, Debug, PartialEq, Eq, Structural)]
pub enum ExitReason {
    /// A shutdown or exit request was handled.
    Finished,
    /// The configurator was started in the tracker's place, on request or
    /// because no configuration was found.
    HandedOff,
    /// Another instance of the tracker is already running.
    AlreadyRunning,
}

/// The process exit code: 1 for a second instance, 0 otherwise.
pub fn exit_code(reason: ExitReason) -> (code: i32)
    ensures
        code == if reason == ExitReason::AlreadyRunning {
            1i32
        } else {
            0i32
        },
{
    match reason {
        ExitReason::AlreadyRunning => 1,
        _ => 0,
    }
}

} // verus!
