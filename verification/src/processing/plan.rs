//! The decisions of the capture and benchmark modes: which stream endpoints
//! they use, how many packets a capture waits for, when it stops, and where
//! its analysis goes.

use vstd::prelude::*;

use crate::error::{Error, is_validation_error};
use crate::hardware::StreamEndpoint;
use crate::text::{push_decimal, push_str, spec_decimal};

verus! {

/// The endpoints a capture streams from: all of them with multi-stream
/// capture, else only the first (none when there is none).
pub fn capture_endpoints(endpoints: Vec<StreamEndpoint>, multi_stream: bool) -> (v: Vec<StreamEndpoint>)
    ensures
        multi_stream ==> v@ == endpoints@,
        !multi_stream ==> v@ == endpoints@.take(if endpoints@.len() < 1 { 0 } else { 1 }),
{
    if multi_stream {
        endpoints
    } else {
        let mut endpoints = endpoints;
        endpoints.truncate(1);
        endpoints
    }
}

/// The number of packets a capture of `num_packets` per stream waits for
/// over `stream_count` streams.
pub fn capture_target(num_packets: u64, stream_count: usize) -> (t: u64)
    requires
        num_packets * stream_count <= u64::MAX,
    ensures
        t == num_packets * stream_count,
{
    num_packets * (stream_count as u64)
}

/// Whether a capture stops: a continuous capture (`num_packets` zero) when
/// interrupted; a counted one when interrupted or once `total_packets`
/// reaches `target`.
pub fn capture_finished(num_packets: u64, total_packets: u64, target: u64, interrupted: bool) -> (b: bool)
    ensures
        b == (interrupted || (num_packets != 0 && total_packets >= target)),
{
    interrupted || (num_packets != 0 && total_packets >= target)
}

/// The default CSV file of a capture's analysis: the file prefix followed
/// by "_analysis.csv".
pub fn analysis_csv_path(file_prefix: &str) -> (s: String)
    ensures
        s@ == file_prefix@ + "_analysis.csv"@,
{
    let mut s = String::new();
    push_str(&mut s, file_prefix);
    push_str(&mut s, "_analysis.csv");
    assert(s@ =~= file_prefix@ + "_analysis.csv"@);
    s
}

/// The endpoints a benchmark of `num_streams` streams uses: the first
/// `num_streams` of them, or a validation error when fewer are available.
pub fn benchmark_endpoints(endpoints: Vec<StreamEndpoint>, num_streams: usize) -> (r: Result<
    Vec<StreamEndpoint>,
    Error,
>)
    ensures
        endpoints@.len() >= num_streams ==> r is Ok && r->Ok_0@ == endpoints@.take(num_streams as int),
        endpoints@.len() < num_streams ==> r is Err && is_validation_error(
            r->Err_0,
            "Requested "@ + spec_decimal(num_streams as nat) + " streams but only "@ + spec_decimal(
                endpoints@.len(),
            ) + " available"@,
        ),
{
    let available = endpoints.len();
    if available < num_streams {
        let mut msg = String::new();
        push_str(&mut msg, "Requested ");
        push_decimal(&mut msg, num_streams as u64);
        push_str(&mut msg, " streams but only ");
        push_decimal(&mut msg, available as u64);
        push_str(&mut msg, " available");
        assert(msg@ =~= "Requested "@ + spec_decimal(num_streams as nat) + " streams but only "@
            + spec_decimal(endpoints@.len()) + " available"@);
        return Err(Error::ValidationError(msg));
    }
    let mut endpoints = endpoints;
    endpoints.truncate(num_streams);
    Ok(endpoints)
}

} // verus!
