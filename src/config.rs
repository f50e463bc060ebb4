use vstd::prelude::*;
use vstd::string::StringSliceAdditionalSpecFns;
use crate::error::Error;
use crate::text::{has_nul, CText};

verus! {

/// Log level of the enclave.
#[derive(Debug, Clone, Copy, PartialEq, Eq, Structural)]
pub enum LogLevel {
    Off,
    Error,
    Warn,
    Info,
    Trace,
}

/// The ASCII name of a log level, as the native interface reads it:
/// "off", "error", "warn", "info" and "trace".
pub open spec fn level_name(l: LogLevel) -> Seq<u8> {
    match l {
        LogLevel::Off => seq![111u8, 102u8, 102u8],
        LogLevel::Error => seq![101u8, 114u8, 114u8, 111u8, 114u8],
        LogLevel::Warn => seq![119u8, 97u8, 114u8, 110u8],
        LogLevel::Info => seq![105u8, 110u8, 102u8, 111u8],
        LogLevel::Trace => seq![116u8, 114u8, 97u8, 99u8, 101u8],
    }
}

impl LogLevel {
    /// The name of the level, without terminator.
    pub fn as_bytes(&self) -> (r: Vec<u8>)
        ensures
            r@ == level_name(*self),
            !has_nul(r@),
    {
        let r = match *self {
            LogLevel::Off => vec![111u8, 102u8, 102u8],
            LogLevel::Error => vec![101u8, 114u8, 114u8, 111u8, 114u8],
            LogLevel::Warn => vec![119u8, 97u8, 114u8, 110u8],
            LogLevel::Info => vec![105u8, 110u8, 102u8, 111u8],
            LogLevel::Trace => vec![116u8, 114u8, 97u8, 99u8, 101u8],
        };
        assert(r@ =~= level_name(*self));
        r
    }
}

/// Enclave configuration: the instance directory, with no embedded null
/// byte, and the log level.
#[derive(Debug, Clone, PartialEq, Eq)]
pub struct Config {
    instance_dir: CText,
    log_level: LogLevel,
}

impl Config {
    /// The bytes of the instance directory.
    pub closed spec fn dir(&self) -> Seq<u8> {
        self.instance_dir@
    }

    /// The log level.
    pub closed spec fn level(&self) -> LogLevel {
        self.log_level
    }

    /// Creates a configuration; `log_level` defaults to `Off`. Fails with
    /// `CStringError` exactly when `instance_dir` holds a null byte.
    pub fn new(instance_dir: &str, log_level: Option<LogLevel>) -> (r: Result<Config, Error>)
        ensures
            r is Err <==> has_nul(instance_dir.spec_bytes()),
            r matches Err(e) ==> e == Error::CStringError,
            r matches Ok(c) ==> c.dir() == instance_dir.spec_bytes() && c.level() == match log_level {
                Some(l) => l,
                None => LogLevel::Off,
            },
    {
        let log_level = match log_level {
            Some(l) => l,
            None => LogLevel::Off,
        };
        let instance_dir = CText::new(instance_dir)?;
        Ok(Config { instance_dir, log_level })
    }

    /// The instance directory.
    pub fn instance_dir(&self) -> (r: &CText)
        ensures
            r@ == self.dir(),
    {
        &self.instance_dir
    }

    /// The log level.
    pub fn log_level(&self) -> (r: LogLevel)
        ensures
            r == self.level(),
    {
        self.log_level
    }
}

impl Default for Config {
    /// The current directory, ".", with logging off.
    fn default() -> (r: Config)
        ensures
            r.dir() == seq![46u8],
            r.level() == LogLevel::Off,
    {
        let dot: Vec<u8> = vec![46u8];
        assert(!has_nul(dot@));
        let instance_dir = match CText::from_bytes(dot.as_slice()) {
            Ok(t) => t,
            Err(_) => {
                proof {
                    assert(false);
                }
                CText::empty()
            },
        };
        assert(instance_dir@ =~= seq![46u8]);
        Config { instance_dir, log_level: LogLevel::Off }
    }
}

} // verus!
