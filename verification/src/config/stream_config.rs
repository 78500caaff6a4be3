//! Stream configuration types and the defaults of their optional fields.

use vstd::prelude::*;

verus! {

/// Default ring buffer size in bytes (16 MiB).
pub const DEFAULT_RING_BUFFER_SIZE: usize = 16777216;

/// Default number of packets per batched write.
pub const DEFAULT_BATCH_WRITE_SIZE: usize = 100;

/// Multi-stream configuration
#[derive(Debug, Clone)]
pub struct MultiStreamConfig {
    pub enable: bool,
    pub sync_streams: bool,
    pub separate_files: bool,
    pub file_prefix: String,
    pub buffer_config: BufferConfig,
}

impl Default for MultiStreamConfig {
    fn default() -> (c: Self)
        ensures
            !c.enable,
            c.sync_streams,
            !c.separate_files,
            c.file_prefix@ == "stream"@,
            c.buffer_config.ring_buffer_size == DEFAULT_RING_BUFFER_SIZE,
            c.buffer_config.batch_write_size == DEFAULT_BATCH_WRITE_SIZE,
    {
        Self {
            enable: false,
            sync_streams: true,
            separate_files: false,
            file_prefix: "stream".to_owned(),
            buffer_config: BufferConfig::default(),
        }
    }
}

/// Buffer configuration
#[derive(Debug, Clone, Copy)]
pub struct BufferConfig {
    pub ring_buffer_size: usize,
    pub batch_write_size: usize,
}

impl Default for BufferConfig {
    fn default() -> (c: Self)
        ensures
            c.ring_buffer_size == DEFAULT_RING_BUFFER_SIZE,
            c.batch_write_size == DEFAULT_BATCH_WRITE_SIZE,
    {
        Self { ring_buffer_size: 16 * 1024 * 1024, batch_write_size: 100 }
    }
}

/// Default of `sync_streams` when a configuration file leaves it out.
pub fn default_true() -> (b: bool)
    ensures
        b,
{
    true
}

/// Default of `file_prefix` when a configuration file leaves it out.
pub fn default_file_prefix() -> (s: String)
    ensures
        s@ == "stream"@,
{
    "stream".to_owned()
}

/// Default of `ring_buffer_size` when a configuration file leaves it out.
pub fn default_ring_buffer_size() -> (n: usize)
    ensures
        n == DEFAULT_RING_BUFFER_SIZE,
{
    16 * 1024 * 1024
}

/// Default of `batch_write_size` when a configuration file leaves it out.
pub fn default_batch_write_size() -> (n: usize)
    ensures
        n == DEFAULT_BATCH_WRITE_SIZE,
{
    100
}

} // verus!
