//! Data management: capture buffers and packet processing, the on-disk
//! record format, export formats, and the bookkeeping of active streams.

pub mod capture;
pub mod export;
pub mod storage;

pub use capture::{CaptureManager, PacketBuffer, StreamBuffer};
pub use export::ExportFormat;

use vstd::prelude::*;

use crate::data_manager::capture::{spec_add_wrapping, spec_paired_read, spec_read_step};
use crate::error::Error;
use crate::processing::StreamDataMessage;

verus! {

/// Data manager statistics
#[derive(Debug)]
pub struct DataManagerStats {
    /// Data-available notifications received across all streams
    pub total_packets: u64,
    /// Total bytes written
    pub total_bytes_written: u64,
    /// Active stream count
    pub active_streams: usize,
    /// Buffer overflows
    pub buffer_overflows: u64,
    /// Export operations completed
    pub exports_completed: u64,
}

impl Default for DataManagerStats {
    fn default() -> (s: Self)
        ensures
            s.total_packets == 0,
            s.total_bytes_written == 0,
            s.active_streams == 0,
            s.buffer_overflows == 0,
            s.exports_completed == 0,
    {
        DataManagerStats {
            total_packets: 0,
            total_bytes_written: 0,
            active_streams: 0,
            buffer_overflows: 0,
            exports_completed: 0,
        }
    }
}

struct StreamInfo {
    stream_id: usize,
    block_id: String,
    port: usize,
    buffer: StreamBuffer,
    reader: StreamBuffer,
}

/// What the data manager's task runner must do after a stream message.
#[derive(Debug, Clone, Copy, PartialEq, Eq, Structural)]
pub enum StreamAction {
    /// Start the writer task of the stream (cancelling one it replaces).
    StartWriter(usize),
    /// Cancel the writer task of the stream.
    CancelWriter(usize),
    /// Nothing to do.
    Nothing,
}

/// Whether a stream's ends are a writer end and a reader end of one ring.
spec fn spec_ends_paired(s: StreamInfo) -> bool {
    &&& s.buffer.is_writer()
    &&& s.reader.is_reader()
    &&& StreamBuffer::spec_paired(s.buffer, s.reader)
}

/// The bookkeeping of a data manager: the active streams with their
/// buffers, the capture manager that makes the buffers, and the statistics.
pub struct DataManagerState {
    capture_manager: CaptureManager,
    streams: Vec<StreamInfo>,
    stats: DataManagerStats,
}

/// The stream ids of a stream table, in order.
pub open spec fn spec_ids_distinct(ids: Seq<usize>) -> bool {
    forall|i: int, j: int| 0 <= i < j < ids.len() ==> ids[i] != ids[j]
}

impl DataManagerState {
    #[verifier::type_invariant]
    spec fn well_formed(self) -> bool {
        &&& spec_ids_distinct(self.spec_stream_ids())
        &&& forall|i: int| 0 <= i < self.streams@.len() ==> spec_ends_paired(#[trigger] self.streams@[i])
    }

    /// The writer end and the reader end of each active stream, in the order
    /// of the ids.
    pub closed spec fn spec_stream_ends(&self) -> Seq<(StreamBuffer, StreamBuffer)> {
        self.streams@.map_values(|s: StreamInfo| (s.buffer, s.reader))
    }

    /// The ids of the active streams.
    pub closed spec fn spec_stream_ids(&self) -> Seq<usize> {
        self.streams@.map_values(|s: StreamInfo| s.stream_id)
    }

    /// The block and port of each active stream, in the order of the ids.
    pub closed spec fn spec_stream_sources(&self) -> Seq<(Seq<char>, usize)> {
        self.streams@.map_values(|s: StreamInfo| (s.block_id@, s.port))
    }

    /// The number of active streams.
    pub closed spec fn spec_active_streams(&self) -> nat {
        self.streams@.len()
    }

    /// The data-available counter.
    pub closed spec fn spec_total_packets(&self) -> u64 {
        self.stats.total_packets
    }

    /// The bytes-written counter.
    pub closed spec fn spec_total_bytes_written(&self) -> u64 {
        self.stats.total_bytes_written
    }

    /// The buffer overflow counter.
    pub closed spec fn spec_buffer_overflows(&self) -> u64 {
        self.stats.buffer_overflows
    }

    /// The ring buffer size that stream buffers are made for.
    pub closed spec fn spec_ring_buffer_size(&self) -> usize {
        self.capture_manager.spec_ring_buffer_size()
    }

    /// The ids of the capture manager's active sessions.
    pub closed spec fn spec_session_ids(&self) -> Seq<u64> {
        self.capture_manager.spec_session_ids()
    }

    /// Stop the capture manager: every capture session is closed and
    /// dropped; the streams and the statistics stay as they are.
    pub fn stop(&mut self) -> (r: Result<(), Error>)
        ensures
            r is Ok,
            final(self).spec_session_ids() == Seq::<u64>::empty(),
            final(self).spec_stream_ids() == old(self).spec_stream_ids(),
            final(self).spec_stream_sources() == old(self).spec_stream_sources(),
            final(self).spec_active_streams() == old(self).spec_active_streams(),
            final(self).spec_total_packets() == old(self).spec_total_packets(),
            final(self).spec_total_bytes_written() == old(self).spec_total_bytes_written(),
            final(self).spec_buffer_overflows() == old(self).spec_buffer_overflows(),
            final(self).spec_ring_buffer_size() == old(self).spec_ring_buffer_size(),
            final(self).spec_stream_ends() == old(self).spec_stream_ends(),
    {
        proof {
            use_type_invariant(&*self);
        }
        let mut manager = CaptureManager::new(0);
        std::mem::swap(&mut manager, &mut self.capture_manager);
        let r = manager.stop();
        std::mem::swap(&mut manager, &mut self.capture_manager);
        r
    }

    /// No active streams and zero statistics, with stream buffers sized for
    /// `ring_buffer_size` bytes.
    pub fn new(ring_buffer_size: usize) -> (s: Self)
        ensures
            s.spec_stream_ids() == Seq::<usize>::empty(),
            s.spec_active_streams() == 0,
            s.spec_total_packets() == 0,
            s.spec_total_bytes_written() == 0,
            s.spec_buffer_overflows() == 0,
            s.spec_ring_buffer_size() == ring_buffer_size,
    {
        let s = DataManagerState {
            capture_manager: CaptureManager::new(ring_buffer_size),
            streams: Vec::new(),
            stats: DataManagerStats::default(),
        };
        assert(s.spec_stream_ids() =~= Seq::<usize>::empty());
        s
    }

    /// Handle a stream data message. A started stream gets a fresh buffer
    /// and replaces any stream with its id. A stopped stream is removed. The
    /// active count stays the number of active streams. Data availability
    /// counts one packet.
    pub fn handle_stream_data(&mut self, msg: StreamDataMessage) -> (r: Result<
        StreamAction,
        Error,
    >)
        ensures
            r is Ok,
            final(self).spec_ring_buffer_size() == old(self).spec_ring_buffer_size(),
            final(self).spec_total_bytes_written() == old(self).spec_total_bytes_written(),
            final(self).spec_buffer_overflows() == old(self).spec_buffer_overflows(),
            match msg {
                StreamDataMessage::StreamStarted { stream_id, block_id, port } => {
                    &&& r == Ok::<StreamAction, Error>(StreamAction::StartWriter(stream_id))
                    &&& final(self).spec_active_streams() == final(self).spec_stream_ids().len()
                    &&& final(self).spec_active_streams() == if old(self).spec_stream_ids().contains(stream_id) {
                        old(self).spec_active_streams()
                    } else {
                        old(self).spec_active_streams() + 1
                    }
                    &&& StreamBuffer::spec_queued(
                        final(self).spec_stream_ends().last().0,
                        final(self).spec_stream_ends().last().1,
                    ) == Seq::<PacketBuffer>::empty()
                    &&& final(self).spec_total_packets() == old(self).spec_total_packets()
                    &&& spec_after_start(
                        old(self).spec_stream_ids(),
                        old(self).spec_stream_sources(),
                        final(self).spec_stream_ids(),
                        final(self).spec_stream_sources(),
                        stream_id,
                        (block_id@, port),
                    )
                },
                StreamDataMessage::StreamStopped { stream_id } => {
                    &&& final(self).spec_total_packets() == old(self).spec_total_packets()
                    &&& if old(self).spec_stream_ids().contains(stream_id) {
                        &&& r == Ok::<StreamAction, Error>(StreamAction::CancelWriter(stream_id))
                        &&& final(self).spec_active_streams() == old(self).spec_active_streams() - 1
                        &&& spec_after_stop(
                            old(self).spec_stream_ids(),
                            old(self).spec_stream_sources(),
                            final(self).spec_stream_ids(),
                            final(self).spec_stream_sources(),
                            stream_id,
                        )
                    } else {
                        &&& r == Ok::<StreamAction, Error>(StreamAction::Nothing)
                        &&& final(self).spec_active_streams() == old(self).spec_active_streams()
                        &&& final(self).spec_stream_ids() == old(self).spec_stream_ids()
                        &&& final(self).spec_stream_sources() == old(self).spec_stream_sources()
                        &&& final(self).spec_stream_ends() == old(self).spec_stream_ends()
                    }
                },
                StreamDataMessage::DataAvailable { stream_id, num_samples } => {
                    &&& r == Ok::<StreamAction, Error>(StreamAction::Nothing)
                    &&& final(self).spec_total_packets() == spec_add_wrapping(
                        old(self).spec_total_packets(),
                        1,
                    )
                    &&& final(self).spec_active_streams() == old(self).spec_active_streams()
                    &&& final(self).spec_stream_ids() == old(self).spec_stream_ids()
                    &&& final(self).spec_stream_sources() == old(self).spec_stream_sources()
                    &&& final(self).spec_stream_ends() == old(self).spec_stream_ends()
                },
            },
    {
        proof {
            use_type_invariant(&*self);
        }
        match msg {
            StreamDataMessage::StreamStarted { stream_id, block_id, port } => {
                let (buffer, reader) = match self.capture_manager.create_stream_buffers(stream_id) {
                    Ok(b) => b,
                    Err(e) => {
                        return Err(e);
                    },
                };
                let ghost ids = self.spec_stream_ids();
                let ghost sources = self.spec_stream_sources();
                let mut streams = Vec::new();
                std::mem::swap(&mut streams, &mut self.streams);
                let found = find_stream(&streams, stream_id);
                let ghost mid_ids = ids;
                let ghost mid_sources = sources;
                if let Some(k) = found {
                    streams.remove(k);
                    proof {
                        mid_ids = ids.remove(k as int);
                        mid_sources = sources.remove(k as int);
                    }
                }
                assert(streams@.map_values(|s: StreamInfo| s.stream_id) =~= mid_ids);
                assert(streams@.map_values(|s: StreamInfo| (s.block_id@, s.port)) =~= mid_sources);
                assert(forall|i: int| 0 <= i < streams@.len() ==> spec_ends_paired(#[trigger] streams@[i])) by {
                    if let Some(k) = found {
                        assert forall|i: int| 0 <= i < streams@.len() implies spec_ends_paired(#[trigger] streams@[i]) by {
                            if i < k {
                                assert(streams@[i] == old(self).streams@[i]);
                            } else {
                                assert(streams@[i] == old(self).streams@[i + 1]);
                            }
                        }
                    }
                }
                let ghost src = (block_id@, port);
                streams.push(StreamInfo { stream_id, block_id, port, buffer, reader });
                assert(forall|i: int| 0 <= i < streams@.len() ==> spec_ends_paired(#[trigger] streams@[i])) by {
                    assert forall|i: int| 0 <= i < streams@.len() implies spec_ends_paired(#[trigger] streams@[i]) by {
                        if i < streams@.len() - 1 {
                            assert(streams@[i] == streams@.drop_last()[i]);
                        }
                    }
                }
                let ghost new_ids = mid_ids.push(stream_id);
                assert(streams@.map_values(|s: StreamInfo| s.stream_id) =~= new_ids);
                assert(streams@.map_values(|s: StreamInfo| (s.block_id@, s.port)) =~= mid_sources.push(src));
                proof {
                    if let Some(k) = found {
                        lemma_remove_keeps_distinct(ids, k as int);
                    }
                    assert(spec_ids_distinct(mid_ids));
                    assert(!mid_ids.contains(stream_id));
                    assert forall|i: int, j: int|
                        0 <= i < j < new_ids.len() implies new_ids[i] != new_ids[j] by {
                        if j == mid_ids.len() {
                            assert(new_ids[i] == mid_ids[i]);
                        }
                    }
                }
                self.streams = streams;
                self.stats.active_streams = self.streams.len();
                proof {
                    if let Some(k) = found {
                        assert(ids.remove(k as int) == mid_ids);
                    }
                }
                Ok(StreamAction::StartWriter(stream_id))
            },
            StreamDataMessage::StreamStopped { stream_id } => {
                let ghost ids = self.spec_stream_ids();
                let ghost sources = self.spec_stream_sources();
                let mut streams = Vec::new();
                std::mem::swap(&mut streams, &mut self.streams);
                let found = find_stream(&streams, stream_id);
                match found {
                    Some(k) => {
                        streams.remove(k);
                        assert forall|i: int| 0 <= i < streams@.len() implies spec_ends_paired(#[trigger] streams@[i]) by {
                            if i < k {
                                assert(streams@[i] == old(self).streams@[i]);
                            } else {
                                assert(streams@[i] == old(self).streams@[i + 1]);
                            }
                        }
                        assert(streams@.map_values(|s: StreamInfo| s.stream_id) =~= ids.remove(k as int));
                        assert(streams@.map_values(|s: StreamInfo| (s.block_id@, s.port)) =~= sources.remove(k as int));
                        proof {
                            lemma_remove_keeps_distinct(ids, k as int);
                        }
                        self.streams = streams;
                        self.stats.active_streams = self.streams.len();
                        Ok(StreamAction::CancelWriter(stream_id))
                    },
                    None => {
                        assert(streams@.map_values(|s: StreamInfo| s.stream_id) =~= ids);
                        assert(streams@.map_values(|s: StreamInfo| (s.buffer, s.reader)) =~= old(self).spec_stream_ends());
                        self.streams = streams;
                        Ok(StreamAction::Nothing)
                    },
                }
            },
            StreamDataMessage::DataAvailable { stream_id, num_samples } => {
                self.stats.total_packets = self.stats.total_packets.wrapping_add(1);
                Ok(StreamAction::Nothing)
            },
        }
    }
}

/// What a stream's writer task does with the outcome of one read from the
/// stream's buffer.
#[derive(Debug, Clone, Copy, PartialEq, Eq, Structural)]
pub enum WriterStep {
    /// Store the packet that was read.
    Store,
    /// Count a buffer overflow and go on.
    CountOverflow,
    /// Read again.
    Continue,
    /// Finish: close the file.
    Finish,
}

/// The writer task's step for a read outcome: a packet is stored; a timeout
/// ends the task once the buffer is closed and is retried before; an
/// overflow is counted; a closed buffer ends the task.
pub fn writer_step(read: &Result<PacketBuffer, capture::BufferError>, buffer_closed: bool) -> (s:
    WriterStep)
    ensures
        read is Ok ==> s == WriterStep::Store,
        read == Err::<PacketBuffer, capture::BufferError>(capture::BufferError::Timeout) ==> s == (
        if buffer_closed {
            WriterStep::Finish
        } else {
            WriterStep::Continue
        }),
        read == Err::<PacketBuffer, capture::BufferError>(capture::BufferError::Overflow) ==> s
            == WriterStep::CountOverflow,
        read == Err::<PacketBuffer, capture::BufferError>(capture::BufferError::Closed) ==> s
            == WriterStep::Finish,
{
    match read {
        Ok(_) => WriterStep::Store,
        Err(capture::BufferError::Timeout) => {
            if buffer_closed {
                WriterStep::Finish
            } else {
                WriterStep::Continue
            }
        },
        Err(capture::BufferError::Overflow) => WriterStep::CountOverflow,
        Err(capture::BufferError::Closed) => WriterStep::Finish,
    }
}

/// Per-stream counters of an active stream.
#[derive(Debug, Clone)]
pub struct StreamCounters {
    pub stream_id: usize,
    pub block_id: String,
    pub port: usize,
    pub packets_captured: u64,
    pub bytes_written: u64,
    pub overflows: u64,
    pub free_slots: usize,
    pub capacity: usize,
}

impl DataManagerState {
    /// Get active stream count: the number of active streams.
    pub fn get_active_stream_count(&self) -> (n: usize)
        ensures
            n == self.spec_active_streams(),
            n == self.spec_stream_ids().len(),
    {
        self.streams.len()
    }

    /// Get total packet count
    pub fn get_total_packet_count(&self) -> (n: u64)
        ensures
            n == self.spec_total_packets(),
    {
        self.stats.total_packets
    }

    /// Get the bytes written by the writer tasks.
    pub fn get_total_bytes_written(&self) -> (n: u64)
        ensures
            n == self.spec_total_bytes_written(),
    {
        self.stats.total_bytes_written
    }

    /// Get the buffer overflows that the writer tasks saw.
    pub fn get_buffer_overflows(&self) -> (n: u64)
        ensures
            n == self.spec_buffer_overflows(),
    {
        self.stats.buffer_overflows
    }

    /// Read the next packet of an active stream through its reader end;
    /// `None` when no active stream has this id. The packet read is the
    /// oldest one queued on the stream; with none queued, the answer is
    /// `Closed` or `Timeout` as the reader end gives it.
    pub fn read_stream(&mut self, stream_id: usize) -> (r: Option<Result<PacketBuffer, capture::BufferError>>)
        ensures
            r is None <==> !old(self).spec_stream_ids().contains(stream_id),
            final(self).spec_stream_ids() == old(self).spec_stream_ids(),
            final(self).spec_stream_sources() == old(self).spec_stream_sources(),
            final(self).spec_active_streams() == old(self).spec_active_streams(),
            final(self).spec_total_packets() == old(self).spec_total_packets(),
            final(self).spec_total_bytes_written() == old(self).spec_total_bytes_written(),
            final(self).spec_buffer_overflows() == old(self).spec_buffer_overflows(),
            final(self).spec_ring_buffer_size() == old(self).spec_ring_buffer_size(),
            old(self).spec_stream_ends().len() == old(self).spec_stream_ids().len(),
            r is None ==> final(self).spec_stream_ends() == old(self).spec_stream_ends(),
            r matches Some(res) ==> exists|k: int|
                0 <= k < old(self).spec_stream_ids().len() && old(self).spec_stream_ids()[k]
                    == stream_id && #[trigger] spec_read_from_stream(
                    old(self).spec_stream_ends(),
                    final(self).spec_stream_ends(),
                    k,
                    res,
                ),
    {
        proof {
            use_type_invariant(&*self);
        }
        let ghost ids = self.spec_stream_ids();
        let ghost sources = self.spec_stream_sources();
        let ghost ends = self.spec_stream_ends();
        let mut streams = Vec::new();
        std::mem::swap(&mut streams, &mut self.streams);
        let found = find_stream(&streams, stream_id);
        match found {
            Some(k) => {
                assert(ids[k as int] == stream_id);
                let mut info = streams.remove(k);
                assert(spec_ends_paired(info));
                let r = info.reader.read_packet_paired(&info.buffer);
                let ghost new_info = info;
                streams.insert(k, info);
                assert(streams@.map_values(|s: StreamInfo| s.stream_id) =~= ids);
                assert(streams@.map_values(|s: StreamInfo| (s.block_id@, s.port)) =~= sources);
                assert(streams@.map_values(|s: StreamInfo| (s.buffer, s.reader)) =~= ends.update(
                    k as int,
                    (ends[k as int].0, new_info.reader),
                ));
                assert forall|i: int| 0 <= i < streams@.len() implies spec_ends_paired(#[trigger] streams@[i]) by {
                    if i != k {
                        assert(streams@[i] == old(self).streams@[i]);
                    }
                }
                self.streams = streams;
                assert(spec_read_from_stream(ends, self.spec_stream_ends(), k as int, r));
                Some(r)
            },
            None => {
                assert(streams@.map_values(|s: StreamInfo| s.stream_id) =~= ids);
                assert(streams@.map_values(|s: StreamInfo| (s.buffer, s.reader)) =~= ends);
                self.streams = streams;
                None
            },
        }
    }

    /// Whether the writer end of an active stream is closed; `None` when no
    /// active stream has this id.
    pub fn stream_closed(&self, stream_id: usize) -> (r: Option<bool>)
        ensures
            r is None <==> !self.spec_stream_ids().contains(stream_id),
            r matches Some(b) ==> exists|k: int|
                0 <= k < self.spec_stream_ids().len() && self.spec_stream_ids()[k] == stream_id
                    && b == (#[trigger] self.spec_stream_ends()[k]).0.spec_closed(),
    {
        match find_stream(&self.streams, stream_id) {
            Some(k) => {
                assert(self.spec_stream_ids()[k as int] == stream_id);
                assert(self.spec_stream_ends()[k as int].0 == self.streams@[k as int].buffer);
                Some(self.streams[k].buffer.is_closed())
            },
            None => None,
        }
    }

    /// Count bytes that a writer task stored.
    pub fn record_bytes_written(&mut self, n: u64)
        ensures
            final(self).spec_total_bytes_written() == spec_add_wrapping(
                old(self).spec_total_bytes_written(),
                n,
            ),
            final(self).spec_buffer_overflows() == old(self).spec_buffer_overflows(),
            final(self).spec_total_packets() == old(self).spec_total_packets(),
            final(self).spec_active_streams() == old(self).spec_active_streams(),
            final(self).spec_stream_ids() == old(self).spec_stream_ids(),
            final(self).spec_stream_ends() == old(self).spec_stream_ends(),
    {
        proof {
            use_type_invariant(&*self);
        }
        self.stats.total_bytes_written = self.stats.total_bytes_written.wrapping_add(n);
    }

    /// Count a buffer overflow that a writer task saw.
    pub fn record_buffer_overflow(&mut self)
        ensures
            final(self).spec_buffer_overflows() == spec_add_wrapping(
                old(self).spec_buffer_overflows(),
                1,
            ),
            final(self).spec_total_bytes_written() == old(self).spec_total_bytes_written(),
            final(self).spec_total_packets() == old(self).spec_total_packets(),
            final(self).spec_active_streams() == old(self).spec_active_streams(),
            final(self).spec_stream_ids() == old(self).spec_stream_ids(),
            final(self).spec_stream_ends() == old(self).spec_stream_ends(),
    {
        proof {
            use_type_invariant(&*self);
        }
        self.stats.buffer_overflows = self.stats.buffer_overflows.wrapping_add(1);
    }

    /// The counters of each active stream, in the order of the stream ids:
    /// its writer end's packet, byte and overflow counts, and its ring's
    /// free slots and capacity.
    pub fn stream_counters(&self) -> (v: Vec<StreamCounters>)
        ensures
            v@.len() == self.spec_stream_ids().len(),
            forall|i: int|
                0 <= i < v@.len() ==> spec_counters_of(
                    #[trigger] v@[i],
                    self.spec_stream_ids()[i],
                    self.spec_stream_sources()[i],
                    self.spec_stream_ends()[i].0,
                ),
    {
        proof {
            use_type_invariant(self);
        }
        let mut v: Vec<StreamCounters> = Vec::new();
        let n = self.streams.len();
        for i in 0..n
            invariant
                n == self.streams@.len(),
                forall|j: int| 0 <= j < self.streams@.len() ==> spec_ends_paired(#[trigger] self.streams@[j]),
                v@.len() == i,
                forall|j: int|
                    0 <= j < i ==> spec_counters_of(
                        #[trigger] v@[j],
                        self.spec_stream_ids()[j],
                        self.spec_stream_sources()[j],
                        self.spec_stream_ends()[j].0,
                    ),
        {
            let s = &self.streams[i];
            assert(spec_ends_paired(self.streams@[i as int]));
            let (free_slots, capacity) = s.buffer.usage_slots();
            v.push(
                StreamCounters {
                    stream_id: s.stream_id,
                    block_id: s.block_id.clone(),
                    port: s.port,
                    packets_captured: s.buffer.get_packet_count(),
                    bytes_written: s.buffer.get_bytes_written(),
                    overflows: s.buffer.get_overflow_count(),
                    free_slots,
                    capacity,
                },
            );
        }
        v
    }
}

/// Whether `c` holds the counters of the stream with id `id`, source
/// `source` and writer end `writer`.
pub open spec fn spec_counters_of(
    c: StreamCounters,
    id: usize,
    source: (Seq<char>, usize),
    writer: StreamBuffer,
) -> bool {
    &&& c.stream_id == id
    &&& c.block_id@ == source.0
    &&& c.port == source.1
    &&& c.packets_captured == writer.spec_packets_written()
    &&& c.bytes_written == writer.spec_bytes_written()
    &&& c.overflows == writer.spec_overflows()
    &&& c.capacity == writer.spec_capacity()
    &&& c.free_slots <= c.capacity
}

/// Whether `new_ends` is `ends` after a read through the reader end of
/// stream `k` gave `r`: that end changed as a read does, with the packet read
/// being the oldest queued on the stream, and every other end is unchanged.
pub open spec fn spec_read_from_stream(
    ends: Seq<(StreamBuffer, StreamBuffer)>,
    new_ends: Seq<(StreamBuffer, StreamBuffer)>,
    k: int,
    r: Result<PacketBuffer, capture::BufferError>,
) -> bool {
    &&& 0 <= k < ends.len()
    &&& new_ends == ends.update(k, (ends[k].0, new_ends[k].1))
    &&& spec_read_step(ends[k].1, new_ends[k].1, r)
    &&& StreamBuffer::spec_paired(ends[k].0, ends[k].1)
    &&& spec_paired_read(ends[k].0, ends[k].1, new_ends[k].1, r)
}

/// A stream lifecycle message as the stream table sees it: whether the
/// stream starts (else it stops), its id, and the block and port it starts
/// from.
pub type StreamEvent = (bool, usize, (Seq<char>, usize));

/// How the stream table changes on one message, as `handle_stream_data`
/// states it: a start adds the stream, replacing an entry with its id; a
/// stop removes the stream when it is active and changes nothing otherwise.
pub open spec fn spec_event_step(
    ids: Seq<usize>,
    sources: Seq<(Seq<char>, usize)>,
    new_ids: Seq<usize>,
    new_sources: Seq<(Seq<char>, usize)>,
    e: StreamEvent,
) -> bool {
    if e.0 {
        spec_after_start(ids, sources, new_ids, new_sources, e.1, e.2)
    } else if ids.contains(e.1) {
        spec_after_stop(ids, sources, new_ids, new_sources, e.1)
    } else {
        new_ids == ids && new_sources == sources
    }
}

/// The ids that are active after a sequence of messages: those whose last
/// start is not followed by a stop.
pub open spec fn spec_active_ids(events: Seq<StreamEvent>) -> Set<usize>
    decreases events.len(),
{
    if events.len() == 0 {
        Set::empty()
    } else {
        let prev = spec_active_ids(events.drop_last());
        let e = events.last();
        if e.0 {
            prev.insert(e.1)
        } else {
            prev.remove(e.1)
        }
    }
}

/// After any sequence of start and stop messages from an empty table, the
/// table holds each active id once, its ids are exactly those whose last
/// start is not followed by a stop, and so the active count is the number
/// of such ids.
pub proof fn lemma_active_count_after_events(
    events: Seq<StreamEvent>,
    ids: Seq<Seq<usize>>,
    sources: Seq<Seq<(Seq<char>, usize)>>,
)
    requires
        ids.len() == events.len() + 1,
        sources.len() == events.len() + 1,
        ids[0] == Seq::<usize>::empty(),
        sources[0] == Seq::<(Seq<char>, usize)>::empty(),
        forall|i: int|
            0 <= i < events.len() ==> spec_event_step(
                ids[i],
                sources[i],
                ids[i + 1],
                sources[i + 1],
                #[trigger] events[i],
            ),
    ensures
        spec_ids_distinct(ids.last()),
        ids.last().to_set() == spec_active_ids(events),
        ids.last().len() == spec_active_ids(events).len(),
    decreases events.len(),
{
    let n = events.len() as int;
    if n == 0 {
        assert(ids.last().to_set() =~= Set::<usize>::empty());
    } else {
        let pe = events.drop_last();
        let pi = ids.drop_last();
        let ps = sources.drop_last();
        assert forall|i: int| 0 <= i < pe.len() implies spec_event_step(
            pi[i],
            ps[i],
            pi[i + 1],
            ps[i + 1],
            #[trigger] pe[i],
        ) by {
            assert(pe[i] == events[i]);
        }
        lemma_active_count_after_events(pe, pi, ps);
        let old_ids = pi.last();
        let new_ids = ids.last();
        assert(old_ids == ids[n - 1]);
        assert(spec_event_step(ids[n - 1], sources[n - 1], ids[n], sources[n], events[n - 1]));
        let e = events.last();
        lemma_event_keeps_distinct(old_ids, sources[n - 1], new_ids, sources[n], e);
        new_ids.unique_seq_to_set();
    }
}

proof fn lemma_event_keeps_distinct(
    ids: Seq<usize>,
    sources: Seq<(Seq<char>, usize)>,
    new_ids: Seq<usize>,
    new_sources: Seq<(Seq<char>, usize)>,
    e: StreamEvent,
)
    requires
        spec_ids_distinct(ids),
        spec_event_step(ids, sources, new_ids, new_sources, e),
    ensures
        spec_ids_distinct(new_ids),
        new_ids.no_duplicates(),
        new_ids.to_set() == if e.0 {
            ids.to_set().insert(e.1)
        } else {
            ids.to_set().remove(e.1)
        },
{
    let id = e.1;
    if e.0 {
        let mid = if ids.contains(id) {
            let k = choose|k: int|
                #![trigger ids.remove(k)]
                {
                    &&& 0 <= k < ids.len()
                    &&& ids[k] == id
                    &&& new_ids == ids.remove(k).push(id)
                    &&& new_sources == sources.remove(k).push(e.2)
                };
            lemma_remove_keeps_distinct(ids, k);
            assert forall|x: usize| ids.remove(k).contains(x) || x == id <==> ids.contains(x) by {
                if ids.contains(x) && x != id {
                    let j = choose|j: int| 0 <= j < ids.len() && ids[j] == x;
                    assert(j != k);
                    if j < k {
                        assert(ids.remove(k)[j] == x);
                    } else {
                        assert(ids.remove(k)[j - 1] == x);
                    }
                }
                if ids.remove(k).contains(x) {
                    let j = choose|j: int| 0 <= j < ids.remove(k).len() && ids.remove(k)[j] == x;
                    if j < k {
                        assert(ids[j] == x);
                    } else {
                        assert(ids[j + 1] == x);
                    }
                }
            }
            ids.remove(k)
        } else {
            ids
        };
        assert(spec_ids_distinct(mid) && !mid.contains(id));
        assert(new_ids == mid.push(id));
        assert forall|i: int, j: int| 0 <= i < j < new_ids.len() implies new_ids[i] != new_ids[j] by {
            if j == mid.len() {
                assert(new_ids[i] == mid[i]);
            }
        }
        assert forall|x: usize| new_ids.to_set().contains(x) <==> ids.to_set().insert(id).contains(x) by {
            if new_ids.contains(x) {
                let j = choose|j: int| 0 <= j < new_ids.len() && new_ids[j] == x;
                if j < mid.len() {
                    assert(mid[j] == x);
                }
            }
            if x == id {
                assert(new_ids[mid.len() as int] == id);
            } else if mid.contains(x) {
                let j = choose|j: int| 0 <= j < mid.len() && mid[j] == x;
                assert(new_ids[j] == x);
            }
        }
        assert(new_ids.to_set() =~= ids.to_set().insert(id));
    } else if ids.contains(id) {
        let k = choose|k: int|
            #![trigger ids.remove(k)]
            {
                &&& 0 <= k < ids.len()
                &&& ids[k] == id
                &&& new_ids == ids.remove(k)
                &&& new_sources == sources.remove(k)
            };
        lemma_remove_keeps_distinct(ids, k);
        assert forall|x: usize| new_ids.to_set().contains(x) <==> ids.to_set().remove(id).contains(x) by {
            if ids.contains(x) && x != id {
                let j = choose|j: int| 0 <= j < ids.len() && ids[j] == x;
                assert(j != k);
                if j < k {
                    assert(new_ids[j] == x);
                } else {
                    assert(new_ids[j - 1] == x);
                }
            }
            if new_ids.contains(x) {
                let j = choose|j: int| 0 <= j < new_ids.len() && new_ids[j] == x;
                if j < k {
                    assert(ids[j] == x);
                } else {
                    assert(ids[j + 1] == x);
                }
            }
        }
        assert(new_ids.to_set() =~= ids.to_set().remove(id));
    } else {
        assert(new_ids.to_set() =~= ids.to_set().remove(id));
    }
    assert(new_ids.no_duplicates());
}

/// A stream that starts while absent and then stops leaves the stream table
/// as it was.
pub proof fn lemma_start_then_stop(
    ids: Seq<usize>,
    sources: Seq<(Seq<char>, usize)>,
    mid_ids: Seq<usize>,
    mid_sources: Seq<(Seq<char>, usize)>,
    new_ids: Seq<usize>,
    new_sources: Seq<(Seq<char>, usize)>,
    id: usize,
    source: (Seq<char>, usize),
)
    requires
        !ids.contains(id),
        sources.len() == ids.len(),
        spec_after_start(ids, sources, mid_ids, mid_sources, id, source),
        spec_after_stop(mid_ids, mid_sources, new_ids, new_sources, id),
    ensures
        new_ids == ids,
        new_sources == sources,
{
    let k = choose|k: int|
        #![trigger mid_ids.remove(k)]
        {
            &&& 0 <= k < mid_ids.len()
            &&& mid_ids[k] == id
            &&& new_ids == mid_ids.remove(k)
            &&& new_sources == mid_sources.remove(k)
        };
    if k < ids.len() {
        assert(mid_ids[k] == ids[k]);
    }
    assert(k == ids.len());
    assert(new_ids =~= ids);
    assert(new_sources =~= sources);
}

/// Stopping a stream that is not active changes nothing, and stopping an
/// active stream leaves no entry for it, as the table holds each id once.
pub proof fn lemma_stop_removes_stream(
    ids: Seq<usize>,
    sources: Seq<(Seq<char>, usize)>,
    new_ids: Seq<usize>,
    new_sources: Seq<(Seq<char>, usize)>,
    id: usize,
)
    requires
        spec_ids_distinct(ids),
        spec_after_stop(ids, sources, new_ids, new_sources, id),
    ensures
        !new_ids.contains(id),
        new_ids.len() == ids.len() - 1,
{
    let k = choose|k: int|
        #![trigger ids.remove(k)]
        {
            &&& 0 <= k < ids.len()
            &&& ids[k] == id
            &&& new_ids == ids.remove(k)
            &&& new_sources == sources.remove(k)
        };
    lemma_remove_keeps_distinct(ids, k);
}

fn find_stream(streams: &Vec<StreamInfo>, stream_id: usize) -> (r: Option<usize>)
    ensures
        match r {
            Some(k) => k < streams@.len() && streams@[k as int].stream_id == stream_id,
            None => !streams@.map_values(|s: StreamInfo| s.stream_id).contains(stream_id),
        },
{
    let n = streams.len();
    for i in 0..n
        invariant
            n == streams@.len(),
            forall|j: int| 0 <= j < i ==> streams@[j].stream_id != stream_id,
    {
        if streams[i].stream_id == stream_id {
            return Some(i);
        }
    }
    proof {
        let ids = streams@.map_values(|s: StreamInfo| s.stream_id);
        if ids.contains(stream_id) {
            let j = choose|j: int| 0 <= j < ids.len() && ids[j] == stream_id;
            assert(streams@[j].stream_id != stream_id);
        }
    }
    None
}

proof fn lemma_remove_keeps_distinct(ids: Seq<usize>, k: int)
    requires
        spec_ids_distinct(ids),
        0 <= k < ids.len(),
    ensures
        spec_ids_distinct(ids.remove(k)),
        !ids.remove(k).contains(ids[k]),
{
    let r = ids.remove(k);
    assert forall|i: int, j: int| 0 <= i < j < r.len() implies r[i] != r[j] by {
        let oi = if i < k { i } else { i + 1 };
        let oj = if j < k { j } else { j + 1 };
        assert(r[i] == ids[oi]);
        assert(r[j] == ids[oj]);
    }
    if r.contains(ids[k]) {
        let i = choose|i: int| 0 <= i < r.len() && r[i] == ids[k];
        let oi = if i < k { i } else { i + 1 };
        assert(r[i] == ids[oi]);
    }
}

/// The stream table after a stream starts: the stream's entry is removed
/// if present, and the new entry goes at the end.
pub open spec fn spec_after_start(
    ids: Seq<usize>,
    sources: Seq<(Seq<char>, usize)>,
    new_ids: Seq<usize>,
    new_sources: Seq<(Seq<char>, usize)>,
    id: usize,
    source: (Seq<char>, usize),
) -> bool {
    if ids.contains(id) {
        exists|k: int|
            #![trigger ids.remove(k)]
            {
                &&& 0 <= k < ids.len()
                &&& ids[k] == id
                &&& new_ids == ids.remove(k).push(id)
                &&& new_sources == sources.remove(k).push(source)
            }
    } else {
        &&& new_ids == ids.push(id)
        &&& new_sources == sources.push(source)
    }
}

/// The stream table after a stream that is present stops: its entry is
/// removed.
pub open spec fn spec_after_stop(
    ids: Seq<usize>,
    sources: Seq<(Seq<char>, usize)>,
    new_ids: Seq<usize>,
    new_sources: Seq<(Seq<char>, usize)>,
    id: usize,
) -> bool {
    exists|k: int|
        #![trigger ids.remove(k)]
        {
            &&& 0 <= k < ids.len()
            &&& ids[k] == id
            &&& new_ids == ids.remove(k)
            &&& new_sources == sources.remove(k)
        }
}

} // verus!
