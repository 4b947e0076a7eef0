//! The settings of the log.

use vstd::prelude::*;
use vstd::string::*;

verus! {

/// How severe a log line is, from the most to the least severe.
#[derive(Debug, Clone, Copy, PartialEq, Eq, PartialOrd, Ord, Structural)]
pub enum LogLevel {
    Error,
    Warn,
    Info,
    Debug,
    Trace,
}

impl LogLevel {
    /// The level's name.
    pub open spec fn spec_text(&self) -> Seq<char> {
        match self {
            LogLevel::Error => "Error"@,
            LogLevel::Warn => "Warn"@,
            LogLevel::Info => "Info"@,
            LogLevel::Debug => "Debug"@,
            LogLevel::Trace => "Trace"@,
        }
    }

    /// The level's name, which is also its filter directive.
    pub fn to_text(&self) -> (r: String)
        ensures
            r@ == self.spec_text(),
    {
        match self {
            LogLevel::Error => String::from_str("Error"),
            LogLevel::Warn => String::from_str("Warn"),
            LogLevel::Info => String::from_str("Info"),
            LogLevel::Debug => String::from_str("Debug"),
            LogLevel::Trace => String::from_str("Trace"),
        }
    }
}

/// How often a new log file is begun.
#[derive(Debug, Clone, Copy, PartialEq, Eq, Structural)]
pub enum LogRotation {
    Minutely,
    Hourly,
    Daily,
    Never,
}

/// The settings of the log, set one by one.
#[derive(Debug)]
pub struct LoggerBuilder {
    /// The least severe level that is logged.
    pub max_level: LogLevel,
    /// Where the log files go.
    pub directory: String,
    /// What the names of the log files begin with.
    pub file_name_prefix: String,
    pub rolling: LogRotation,
}

impl Default for LoggerBuilder {
    fn default() -> (r: Self)
        ensures
            r.max_level == LogLevel::Info,
            r.directory@ == "logs"@,
            r.file_name_prefix@ == Seq::<char>::empty(),
            r.rolling == LogRotation::Daily,
    {
        LoggerBuilder {
            max_level: LogLevel::Info,
            directory: String::from_str("logs"),
            file_name_prefix: String::new(),
            rolling: LogRotation::Daily,
        }
    }
}

impl LoggerBuilder {
    /// Sets the least severe level that is logged.
    pub fn with_level(self, level: LogLevel) -> (r: Self)
        ensures
            r == (LoggerBuilder { max_level: level, ..self }),
    {
        LoggerBuilder { max_level: level, ..self }
    }

    /// Sets where the log files go.
    pub fn with_directory(self, directory: &str) -> (r: Self)
        ensures
            r.directory@ == directory@,
            r == (LoggerBuilder { directory: r.directory, ..self }),
    {
        LoggerBuilder { directory: String::from_str(directory), ..self }
    }

    /// Sets what the names of the log files begin with.
    pub fn with_file_prefix(self, file_prefix: &str) -> (r: Self)
        ensures
            r.file_name_prefix@ == file_prefix@,
            r == (LoggerBuilder { file_name_prefix: r.file_name_prefix, ..self }),
    {
        LoggerBuilder { file_name_prefix: String::from_str(file_prefix), ..self }
    }

    /// Sets how often a new log file is begun.
    pub fn with_rolling(self, rolling: LogRotation) -> (r: Self)
        ensures
            r == (LoggerBuilder { rolling: rolling, ..self }),
    {
        LoggerBuilder { rolling: rolling, ..self }
    }
}

} // verus!
