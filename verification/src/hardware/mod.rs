//! Hardware-facing data types: CHDR packets, stream endpoints, data formats,
//! time specifications and device/stream argument builders.

pub mod chdr_packets;
pub mod uhd_bindings;

pub use chdr_packets::{ChdrHeader, ChdrPacket, PacketType};
pub use uhd_bindings::{DeviceArgs, StreamArgs};

use vstd::prelude::*;

verus! {

/// Stream endpoint information
#[derive(Debug, Clone)]
pub struct StreamEndpoint {
    /// Block ID
    pub block_id: String,
    /// Port number
    pub port: usize,
    /// Direction (RX/TX)
    pub direction: StreamDirection,
    /// Data format
    pub format: DataFormat,
    /// Active status
    pub active: bool,
}

/// Stream direction
#[derive(Debug, Clone, Copy, PartialEq, Eq, Structural)]
pub enum StreamDirection {
    /// Receive
    Rx,
    /// Transmit
    Tx,
}

/// Sample data format
#[derive(Debug, Clone, Copy, PartialEq, Eq, Structural)]
pub enum DataFormat {
    /// Complex 16-bit integers
    Sc16,
    /// Complex 32-bit floats
    Fc32,
    /// Complex 64-bit floats
    Fc64,
}

impl DataFormat {
    /// Bytes per complex sample: both components together.
    pub open spec fn spec_bytes_per_sample(self) -> usize {
        match self {
            DataFormat::Sc16 => 4,
            DataFormat::Fc32 => 8,
            DataFormat::Fc64 => 16,
        }
    }

    /// Get bytes per sample
    pub fn bytes_per_sample(&self) -> (n: usize)
        ensures
            n == self.spec_bytes_per_sample(),
    {
        match self {
            DataFormat::Sc16 => 4,
            DataFormat::Fc32 => 8,
            DataFormat::Fc64 => 16,
        }
    }

    /// Convert to UHD format string
    pub fn to_uhd_string(&self) -> (s: &'static str)
        ensures
            *self == DataFormat::Sc16 ==> s@ == "sc16"@,
            *self == DataFormat::Fc32 ==> s@ == "fc32"@,
            *self == DataFormat::Fc64 ==> s@ == "fc64"@,
    {
        match self {
            DataFormat::Sc16 => "sc16",
            DataFormat::Fc32 => "fc32",
            DataFormat::Fc64 => "fc64",
        }
    }
}

/// Block information
#[derive(Debug, Clone)]
pub struct BlockInfo {
    /// Block ID
    pub block_id: String,
    /// Block type
    pub block_type: String,
    /// Number of input ports
    pub num_input_ports: usize,
    /// Number of output ports
    pub num_output_ports: usize,
    /// Has stream endpoint
    pub has_stream_endpoint: bool,
    /// Properties
    pub properties: Vec<String>,
    /// Property types
    pub property_types: std::collections::HashMap<String, String>,
}

/// Graph edge information
#[derive(Debug, Clone)]
pub struct GraphEdge {
    /// Source block ID
    pub src_block_id: String,
    /// Source port
    pub src_port: usize,
    /// Destination block ID
    pub dst_block_id: String,
    /// Destination port
    pub dst_port: usize,
}

/// Stream command
#[derive(Debug, Clone)]
pub enum StreamCommand {
    /// Start continuous streaming
    StartContinuous,
    /// Start streaming with specific number of samples
    StartNumSamps(u64),
    /// Stop streaming
    Stop,
}

/// Time specification
#[derive(Debug, Clone, Copy)]
pub struct TimeSpec {
    /// Seconds
    pub secs: u64,
    /// Fractional seconds (nanoseconds)
    pub nsecs: u32,
}

#[verifier::external_type_specification]
#[verifier::external_body]
pub struct ExSystemTime(std::time::SystemTime);

/// std's `SystemTime::now`: the system clock's current reading. Nothing is
/// stated of it.
#[verifier::external_body]
fn system_time_now() -> std::time::SystemTime {
    std::time::SystemTime::now()
}

/// std's `SystemTime::duration_since` with `UNIX_EPOCH` as the earlier time,
/// its error turned into `None`: the time elapsed since the epoch, absent when
/// the clock reads earlier than the epoch. Nothing is stated of the duration.
#[verifier::external_body]
fn since_unix_epoch(t: &std::time::SystemTime) -> Option<core::time::Duration> {
    t.duration_since(std::time::UNIX_EPOCH).ok()
}

/// std's `Duration::as_secs`: the whole seconds of a duration. Nothing is
/// stated of the value.
#[verifier::external_body]
fn duration_whole_secs(d: &core::time::Duration) -> u64 {
    d.as_secs()
}

/// std's `Duration::subsec_nanos`: the fractional part in nanoseconds, which
/// std documents to be below one billion.
#[verifier::external_body]
fn duration_subsec_nanos(d: &core::time::Duration) -> (n: u32)
    ensures
        n < 1_000_000_000,
{
    d.subsec_nanos()
}

impl TimeSpec {
    /// Create a new time spec
    pub fn new(secs: u64, nsecs: u32) -> (t: Self)
        ensures
            t.secs == secs,
            t.nsecs == nsecs,
    {
        Self { secs, nsecs }
    }

    /// The current time since the Unix epoch; `None` when the system clock
    /// reads earlier than the epoch.
    pub fn now() -> (t: Option<Self>)
        ensures
            t matches Some(ts) ==> ts.nsecs < 1_000_000_000,
    {
        let now = system_time_now();
        match since_unix_epoch(&now) {
            Some(d) => Some(Self { secs: duration_whole_secs(&d), nsecs: duration_subsec_nanos(&d) }),
            None => None,
        }
    }
}

/// A complex sample takes two components: two bytes each in sc16, four in
/// fc32 and eight in fc64.
pub proof fn lemma_bytes_per_sample(f: DataFormat)
    ensures
        f == DataFormat::Sc16 ==> f.spec_bytes_per_sample() == 2 * 2,
        f == DataFormat::Fc32 ==> f.spec_bytes_per_sample() == 2 * 4,
        f == DataFormat::Fc64 ==> f.spec_bytes_per_sample() == 2 * 8,
{
}

} // verus!
