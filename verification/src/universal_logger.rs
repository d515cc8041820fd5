//! The older, smaller logging handle kept for the parts that still use it:
//! a file path, an on/off switch, and four levels. Writing the records goes
//! on outside the library.
use vstd::prelude::*;

verus! {

/// A logger that mirrors records to the console and a file.
#[derive(Debug)]
pub struct UniversalLogger {
    pub file_path: Option<String>,
    pub enabled: bool,
}

impl UniversalLogger {
    /// A logger for the given file, or for the console alone.
    pub fn new(file_path: Option<&str>, enabled: bool) -> (logger: UniversalLogger)
        ensures
            logger.enabled == enabled,
            logger.file_path is Some <==> file_path is Some,
            (file_path matches Some(p) ==> (logger.file_path matches Some(q) && q@ == p@)),
    {
        UniversalLogger {
            file_path: match file_path {
                None => None,
                Some(p) => Some(p.to_owned()),
            },
            enabled,
        }
    }
}

/// The levels this logger distinguishes.
#[derive(Debug, Clone, Copy, PartialEq, Eq, Structural)]
pub enum LogLevel {
    Error,
    Warn,
    Info,
    Debug,
}

impl LogLevel {
    /// The level's name as it appears in a record.
    pub fn as_str(&self) -> (name: &'static str)
        ensures
            (*self matches LogLevel::Error ==> name@ == "ERROR"@),
            (*self matches LogLevel::Warn ==> name@ == "WARN"@),
            (*self matches LogLevel::Info ==> name@ == "INFO"@),
            (*self matches LogLevel::Debug ==> name@ == "DEBUG"@),
    {
        match self {
            LogLevel::Error => "ERROR",
            LogLevel::Warn => "WARN",
            LogLevel::Info => "INFO",
            LogLevel::Debug => "DEBUG",
        }
    }
}

} // verus!
