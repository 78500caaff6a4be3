//! Configuration types, their defaults and validation rules.

pub mod graph_config;
pub mod stream_config;
pub mod validation;

pub use graph_config::{AutoConnectConfig, ConnectionConfig, GraphConfig};
pub use stream_config::{BufferConfig, MultiStreamConfig};

use vstd::prelude::*;

verus! {

/// Logging configuration
#[derive(Debug, Clone)]
pub struct LoggingConfig {
    pub level: String,
    pub file: Option<String>,
    pub format: String,
}

impl Default for LoggingConfig {
    fn default() -> (c: Self)
        ensures
            c.level@ == "info"@,
            c.file is None,
            c.format@ == "pretty"@,
    {
        Self { level: "info".to_owned(), file: None, format: "pretty".to_owned() }
    }
}

/// Performance configuration
#[derive(Debug, Clone)]
pub struct PerformanceConfig {
    pub worker_threads: usize,
    pub cpu_affinity: Vec<usize>,
    pub realtime_priority: Option<i32>,
    pub lock_memory: bool,
    pub use_huge_pages: bool,
}

impl Default for PerformanceConfig {
    fn default() -> (c: Self)
        ensures
            c.worker_threads == 4,
            c.cpu_affinity@.len() == 0,
            c.realtime_priority is None,
            !c.lock_memory,
            !c.use_huge_pages,
    {
        Self {
            worker_threads: 4,
            cpu_affinity: Vec::new(),
            realtime_priority: None,
            lock_memory: false,
            use_huge_pages: false,
        }
    }
}

} // verus!
