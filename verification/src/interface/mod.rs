//! User interface: the REPL's command language and display data.

pub mod repl;
pub mod utils;

pub use repl::{LogLevel, ReplCommand};

use vstd::prelude::*;

verus! {

/// Table data for structured display
#[derive(Debug)]
pub struct TableData {
    pub headers: Vec<String>,
    pub rows: Vec<Vec<String>>,
}

/// Progress information
#[derive(Debug)]
pub struct ProgressInfo {
    pub message: String,
    pub current: u64,
    pub total: Option<u64>,
}

/// System metrics reported by the monitoring service
#[derive(Debug)]
pub struct SystemMetrics;

impl Default for SystemMetrics {
    fn default() -> (m: Self) {
        SystemMetrics
    }
}

/// Handler of API requests
pub struct ApiHandler;

} // verus!
