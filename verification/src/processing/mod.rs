//! Stream and graph processing: stream lifecycle messages, graph topology
//! and PPS synchronisation status.

pub mod graph;
pub mod plan;
pub mod timing;

pub use graph::GraphTopology;
pub use timing::PpsSync;

use vstd::prelude::*;

verus! {

/// Stream data message types
#[derive(Debug, Clone)]
pub enum StreamDataMessage {
    /// Stream has started
    StreamStarted { stream_id: usize, block_id: String, port: usize },
    /// Stream has stopped
    StreamStopped { stream_id: usize },
    /// Data is available
    DataAvailable { stream_id: usize, num_samples: usize },
}

} // verus!
