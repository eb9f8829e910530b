//! Configuration of the server's logging.
use vstd::prelude::*;

verus! {

/// How much the server logs.
#[derive(PartialEq, Eq, Structural, Debug, Clone, Copy)]
pub enum LogLevel {
    Trace,
    Debug,
    Info,
    Warn,
    Error,
}

/// Where and how much the server logs.
pub struct LogConfig {
    pub log_dir: String,
    pub log_file: String,
    pub level: LogLevel,
}

impl LogConfig {
    /// Logging at `Info` into `log_dir/log_file`.
    pub fn new(log_dir: String, log_file: String) -> (r: Self)
        ensures
            r.log_dir == log_dir,
            r.log_file == log_file,
            r.level == LogLevel::Info,
    {
        LogConfig { log_dir, log_file, level: LogLevel::Info }
    }
}

} // verus!
