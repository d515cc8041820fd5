//! The logging handle the components hold: levels, formats, the
//! configuration of the sinks, and the decision which records pass the
//! filter. Writing to the console or a file, and rotating files, happens
//! outside the library.
//!
//! The handle is constructed explicitly and passed to whoever logs, so no
//! component depends on a hidden initialization order.
use vstd::prelude::*;

verus! {

/// Levels in order of importance.
#[derive(Debug, Clone, Copy, PartialEq, Eq, Structural)]
pub enum LogLevel {
    Trace,
    Debug,
    Info,
    Warn,
    Error,
}

/// Rank of a level: records below the configured minimum are dropped.
pub open spec fn spec_severity(level: LogLevel) -> int {
    match level {
        LogLevel::Trace => 0,
        LogLevel::Debug => 1,
        LogLevel::Info => 2,
        LogLevel::Warn => 3,
        LogLevel::Error => 4,
    }
}

impl LogLevel {
    /// Numeric rank of the level.
    pub fn severity(&self) -> (rank: u8)
        ensures
            rank as int == spec_severity(*self),
    {
        match self {
            LogLevel::Trace => 0,
            LogLevel::Debug => 1,
            LogLevel::Info => 2,
            LogLevel::Warn => 3,
            LogLevel::Error => 4,
        }
    }

    /// The level's name as it appears in a log line.
    pub fn as_str(&self) -> (name: &'static str)
        ensures
            (*self matches LogLevel::Trace ==> name@ == "TRACE"@),
            (*self matches LogLevel::Debug ==> name@ == "DEBUG"@),
            (*self matches LogLevel::Info ==> name@ == "INFO"@),
            (*self matches LogLevel::Warn ==> name@ == "WARN"@),
            (*self matches LogLevel::Error ==> name@ == "ERROR"@),
    {
        match self {
            LogLevel::Trace => "TRACE",
            LogLevel::Debug => "DEBUG",
            LogLevel::Info => "INFO",
            LogLevel::Warn => "WARN",
            LogLevel::Error => "ERROR",
        }
    }

    /// The pictogram shown beside the level on the console.
    pub fn emoji(&self) -> (glyph: &'static str)
        ensures
            (*self matches LogLevel::Trace ==> glyph@ == "🔍"@),
            (*self matches LogLevel::Debug ==> glyph@ == "🐛"@),
            (*self matches LogLevel::Info ==> glyph@ == "ℹ️"@),
            (*self matches LogLevel::Warn ==> glyph@ == "⚠️"@),
            (*self matches LogLevel::Error ==> glyph@ == "❌"@),
    {
        match self {
            LogLevel::Trace => "🔍",
            LogLevel::Debug => "🐛",
            LogLevel::Info => "ℹ️",
            LogLevel::Warn => "⚠️",
            LogLevel::Error => "❌",
        }
    }

    /// The ANSI color the level is printed in.
    pub fn color_code(&self) -> (code: &'static str)
        ensures
            (*self matches LogLevel::Trace ==> code@ == "\x1b[37m"@),
            (*self matches LogLevel::Debug ==> code@ == "\x1b[36m"@),
            (*self matches LogLevel::Info ==> code@ == "\x1b[32m"@),
            (*self matches LogLevel::Warn ==> code@ == "\x1b[33m"@),
            (*self matches LogLevel::Error ==> code@ == "\x1b[31m"@),
    {
        match self {
            LogLevel::Trace => "\x1b[37m",
            LogLevel::Debug => "\x1b[36m",
            LogLevel::Info => "\x1b[32m",
            LogLevel::Warn => "\x1b[33m",
            LogLevel::Error => "\x1b[31m",
        }
    }
}

/// Where records go.
#[derive(Debug, Clone, Copy)]
pub enum LogOutput {
    Console,
    File,
    Both,
}

/// How a record is rendered.
#[derive(Debug, Clone, Copy)]
pub enum LogFormat {
    Human,
    Json,
    Structured,
}

/// Configuration of the logging service.
#[derive(Debug)]
pub struct LoggerConfig {
    pub min_level: LogLevel,
    pub output: LogOutput,
    pub console_format: LogFormat,
    pub file_format: LogFormat,
    pub file_path: Option<String>,
    pub max_file_size: Option<u64>,
    pub max_files: Option<u32>,
    pub colored_output: bool,
    pub enabled: bool,
}

impl Clone for LoggerConfig {
    /// An exact copy of the configuration.
    fn clone(&self) -> (c: LoggerConfig)
        ensures
            c == *self,
    {
        LoggerConfig {
            min_level: self.min_level,
            output: self.output,
            console_format: self.console_format,
            file_format: self.file_format,
            file_path: match &self.file_path {
                None => None,
                Some(p) => Some(p.clone()),
            },
            max_file_size: self.max_file_size,
            max_files: self.max_files,
            colored_output: self.colored_output,
            enabled: self.enabled,
        }
    }
}

/// The logging service: it decides which records pass; the sinks it names
/// are driven outside the library.
#[derive(Debug)]
pub struct LoggerService {
    pub config: LoggerConfig,
}

impl LoggerService {
    /// A service around the given configuration. Creating the log directory
    /// happens outside the library before records are written.
    pub fn new(config: LoggerConfig) -> (service: LoggerService)
        ensures
            service.config == config,
    {
        LoggerService { config }
    }

    /// Whether a record at this level passes the filter: the service is
    /// enabled and the level reaches the configured minimum.
    pub fn should_log(&self, level: LogLevel) -> (pass: bool)
        ensures
            pass == (self.config.enabled && spec_severity(level) >= spec_severity(
                self.config.min_level,
            )),
    {
        self.config.enabled && level.severity() >= self.config.min_level.severity()
    }

    /// Force buffered records out. The service keeps no buffer, so there is
    /// nothing to do; the method stays for callers that flush on shutdown.
    pub fn flush(&self) {
    }

    /// Replace the configuration. Creating a directory for a new file path
    /// happens outside the library.
    pub fn update_config(&mut self, config: LoggerConfig)
        ensures
            final(self).config == config,
    {
        self.config = config;
    }

    pub fn get_config(&self) -> (config: &LoggerConfig)
        ensures
            *config == self.config,
    {
        &self.config
    }
}

/// Construct the logging handle the process passes to its components.
pub fn init_logger(config: LoggerConfig) -> (logger: LoggerService)
    ensures
        logger.config == config,
{
    LoggerService::new(config)
}

/// Flush a logging handle on the way out.
pub fn flush_logs(logger: &LoggerService) {
    logger.flush();
}

} // verus!
