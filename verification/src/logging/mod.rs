//! Logging configuration.

use vstd::prelude::*;

verus! {

/// Logging configuration
#[derive(Debug, Clone)]
pub struct LoggingConfig {
    pub level: String,
    pub file: Option<String>,
    pub format: LogFormat,
}

/// Log output formats
#[derive(Debug, Clone, Copy, PartialEq, Eq, Structural)]
pub enum LogFormat {
    Pretty,
    Json,
    Compact,
}

impl Default for LoggingConfig {
    fn default() -> (c: Self)
        ensures
            c.level@ == "info"@,
            c.file is None,
            c.format == LogFormat::Pretty,
    {
        Self { level: "info".to_owned(), file: None, format: LogFormat::Pretty }
    }
}

} // verus!
