//! Graph topology as discovered from a device.

use vstd::prelude::*;

use std::collections::HashMap;

use crate::hardware::{BlockInfo, DataFormat, GraphEdge, StreamDirection, StreamEndpoint};

verus! {

/// Graph topology information
#[derive(Debug, Clone)]
pub struct GraphTopology {
    pub blocks: Vec<BlockInfo>,
    pub edges: Vec<GraphEdge>,
}

/// Whether `b` is what discovery records for block `id` before any block is
/// queried: type "Unknown", no ports, no stream endpoint, no properties.
pub open spec fn spec_discovered_block(b: BlockInfo, id: Seq<char>) -> bool {
    &&& b.block_id@ == id
    &&& b.block_type@ == "Unknown"@
    &&& b.num_input_ports == 0
    &&& b.num_output_ports == 0
    &&& !b.has_stream_endpoint
    &&& b.properties@.len() == 0
    &&& b.property_types@.dom().len() == 0
}

impl GraphTopology {
    /// The topology of a graph from its block ids and its connections: one
    /// block record per id, in order, and the connections as they are.
    pub fn from_discovery(block_ids: Vec<String>, edges: Vec<GraphEdge>) -> (t: Self)
        ensures
            t.blocks@.len() == block_ids@.len(),
            forall|i: int|
                0 <= i < block_ids@.len() ==> spec_discovered_block(
                    #[trigger] t.blocks@[i],
                    block_ids@[i]@,
                ),
            t.edges@ == edges@,
    {
        let mut blocks: Vec<BlockInfo> = Vec::new();
        let n = block_ids.len();
        for i in 0..n
            invariant
                n == block_ids@.len(),
                blocks@.len() == i,
                forall|j: int|
                    0 <= j < i ==> spec_discovered_block(#[trigger] blocks@[j], block_ids@[j]@),
        {
            let id = block_ids[i].clone();
            blocks.push(
                BlockInfo {
                    block_id: id,
                    block_type: "Unknown".to_owned(),
                    num_input_ports: 0,
                    num_output_ports: 0,
                    has_stream_endpoint: false,
                    properties: Vec::new(),
                    property_types: HashMap::new(),
                },
            );
        }
        GraphTopology { blocks, edges }
    }
}

/// The stream endpoints that a device offers when none have been probed:
/// receive on port 0 of "0/DDC#0", sc16, not active.
pub fn default_stream_endpoints() -> (v: Vec<StreamEndpoint>)
    ensures
        v@.len() == 1,
        v@[0].block_id@ == "0/DDC#0"@,
        v@[0].port == 0,
        v@[0].direction == StreamDirection::Rx,
        v@[0].format == DataFormat::Sc16,
        !v@[0].active,
{
    let mut v = Vec::new();
    v.push(
        StreamEndpoint {
            block_id: "0/DDC#0".to_owned(),
            port: 0,
            direction: StreamDirection::Rx,
            format: DataFormat::Sc16,
            active: false,
        },
    );
    v
}

} // verus!
