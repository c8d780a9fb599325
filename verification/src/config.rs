use vstd::prelude::*;

verus! {

/// The daemon's configuration: logging verbosity and, optionally, the device
/// to track. Loading it from files and the environment happens outside the
/// library; only the value and its defaults live here.
#[derive(Debug)]
pub struct Config {
    pub logging: Logging,
    pub device: Option<Device>,
}

impl Default for Config {
    fn default() -> (r: Config)
        ensures
            r.logging.level is Warn,
            r.device is None,
    {
        Config { logging: Logging::default(), device: None }
    }
}

/// The configured device section: the device's identifier.
#[derive(Debug)]
pub struct Device {
    pub identifier: String,
}

impl Default for Device {
    fn default() -> (r: Device)
        ensures
            r.identifier@ == Seq::<char>::empty(),
    {
        Device { identifier: String::new() }
    }
}

/// The logging section: the chosen verbosity level.
#[derive(Debug)]
pub struct Logging {
    pub level: LoggingLevel,
}

impl Default for Logging {
    fn default() -> (r: Logging)
        ensures
            r.level is Warn,
    {
        Logging { level: LoggingLevel::default() }
    }
}

/// Logging verbosity levels, warnings by default.
#[derive(Clone, Copy, Debug, PartialEq, Eq, Structural)]
pub enum LoggingLevel {
    Error,
    Warn,
    Info,
    Debug,
    Trace,
}

impl Default for LoggingLevel {
    fn default() -> (r: LoggingLevel)
        ensures
            r is Warn,
    {
        LoggingLevel::Warn
    }
}

impl LoggingLevel {
    /// The level's name, as the logging filter expects it.
    pub fn as_str(&self) -> (r: &str)
        ensures
            r@ == match self {
                LoggingLevel::Error => "error"@,
                LoggingLevel::Warn => "warn"@,
                LoggingLevel::Info => "info"@,
                LoggingLevel::Debug => "debug"@,
                LoggingLevel::Trace => "trace"@,
            },
    {
        match self {
            LoggingLevel::Error => "error",
            LoggingLevel::Warn => "warn",
            LoggingLevel::Info => "info",
            LoggingLevel::Debug => "debug",
            LoggingLevel::Trace => "trace",
        }
    }
}

} // verus!
