//! Graph configuration types.

use vstd::prelude::*;

use std::collections::HashMap;

verus! {

/// Graph configuration
#[derive(Debug, Clone)]
pub struct GraphConfig {
    /// Dynamic connections
    pub connections: Vec<ConnectionConfig>,
    /// Block properties
    pub block_properties: HashMap<String, HashMap<String, String>>,
    /// Auto-connect settings
    pub auto_connect: AutoConnectConfig,
}

impl Default for GraphConfig {
    fn default() -> (c: Self)
        ensures
            c.connections@.len() == 0,
            c.block_properties@.dom().len() == 0,
            !c.auto_connect.radio_to_ddc,
            c.auto_connect.find_stream_endpoint,
    {
        let c = Self {
            connections: Vec::new(),
            block_properties: HashMap::new(),
            auto_connect: AutoConnectConfig::default(),
        };
        c
    }
}

/// Connection configuration
#[derive(Debug, Clone)]
pub struct ConnectionConfig {
    pub src_block: String,
    pub src_port: usize,
    pub dst_block: String,
    pub dst_port: usize,
    pub is_back_edge: bool,
}

/// Auto-connect configuration
#[derive(Debug, Clone, Copy)]
pub struct AutoConnectConfig {
    pub radio_to_ddc: bool,
    pub find_stream_endpoint: bool,
}

impl Default for AutoConnectConfig {
    fn default() -> (c: Self)
        ensures
            !c.radio_to_ddc,
            c.find_stream_endpoint,
    {
        Self { radio_to_ddc: false, find_stream_endpoint: true }
    }
}

} // verus!
