//! Capture buffering: per-stream ring buffers with statistics, and CHDR
//! packet processing into buffer entries.

use vstd::prelude::*;
use vstd::bytes::{spec_u64_from_le_bytes, u64_from_le_bytes};
use vstd::slice::{slice_subrange, slice_to_vec};

use vstd::arithmetic::power::pow;
use vstd::arithmetic::power2::{lemma_pow2_unfold, pow2};

use crate::error::{Error, is_processing_error};

verus! {

/// `x + y` wrapped around modulo 2^64, as an atomic counter adds.
pub open spec fn spec_add_wrapping(x: u64, y: u64) -> u64 {
    if x + y > u64::MAX {
        (x + y - 0x1_0000_0000_0000_0000) as u64
    } else {
        (x + y) as u64
    }
}

/// Buffer statistics
#[derive(Debug)]
pub struct BufferStats {
    pub packets_written: u64,
    pub bytes_written: u64,
    pub packets_read: u64,
    pub bytes_read: u64,
    pub overflows: u64,
    pub max_usage: u64,
}

impl Default for BufferStats {
    fn default() -> (s: Self)
        ensures
            s.packets_written == 0,
            s.bytes_written == 0,
            s.packets_read == 0,
            s.bytes_read == 0,
            s.overflows == 0,
            s.max_usage == 0,
    {
        BufferStats {
            packets_written: 0,
            bytes_written: 0,
            packets_read: 0,
            bytes_read: 0,
            overflows: 0,
            max_usage: 0,
        }
    }
}

/// Packet buffer for ring buffer storage
#[derive(Debug, Clone)]
pub struct PacketBuffer {
    /// Stream ID
    pub stream_id: u32,
    /// Packet number
    pub packet_number: u64,
    /// Timestamp (if present)
    pub timestamp: Option<u64>,
    /// Packet data
    pub data: Vec<u8>,
}

/// Buffer error types
#[derive(Debug, Clone, Copy, PartialEq, Eq, Structural)]
pub enum BufferError {
    Overflow,
    Closed,
    Timeout,
}

#[verifier::external_type_specification]
#[verifier::external_body]
#[verifier::reject_recursive_types(T)]
pub struct ExRingProducer<T>(rtrb::Producer<T>);

#[verifier::external_type_specification]
#[verifier::external_body]
#[verifier::reject_recursive_types(T)]
pub struct ExRingConsumer<T>(rtrb::Consumer<T>);

/// The capacity of the ring buffer that a producer writes into, fixed when
/// the ring buffer is made.
pub uninterp spec fn producer_capacity(p: rtrb::Producer<PacketBuffer>) -> usize;

/// The capacity of the ring buffer that a consumer reads from, fixed when
/// the ring buffer is made.
pub uninterp spec fn consumer_capacity(c: rtrb::Consumer<PacketBuffer>) -> usize;

/// Whether a producer and a consumer are the two ends of one ring buffer.
pub uninterp spec fn ring_paired(p: rtrb::Producer<PacketBuffer>, c: rtrb::Consumer<PacketBuffer>) -> bool;

/// The packets in the ring buffer shared by a producer and its consumer,
/// oldest first: those pushed through the producer and not yet popped
/// through the consumer.
pub uninterp spec fn ring_contents(p: rtrb::Producer<PacketBuffer>, c: rtrb::Consumer<PacketBuffer>) -> Seq<PacketBuffer>;

/// rtrb's `RingBuffer::new`: a producer and a consumer sharing a new, empty
/// ring buffer of exactly `capacity` slots. It allocates `capacity` slots of
/// a packet buffer (under 64 bytes each), which panics beyond `isize::MAX`
/// bytes, hence the bound.
#[verifier::external_body]
fn ring_buffer_new(capacity: usize) -> (r: (rtrb::Producer<PacketBuffer>, rtrb::Consumer<PacketBuffer>))
    requires
        capacity <= isize::MAX / 64,
    ensures
        producer_capacity(r.0) == capacity,
        consumer_capacity(r.1) == capacity,
        ring_paired(r.0, r.1),
        ring_contents(r.0, r.1) == Seq::<PacketBuffer>::empty(),
{
    rtrb::RingBuffer::new(capacity)
}

/// rtrb's `Producer::push`: moves the value into the ring buffer at its end,
/// or hands it back when all `capacity` slots are taken. The consumer, when
/// the caller holds it and passes it, is not handed to rtrb: it names the
/// ring whose contents the contract speaks of. Held by the caller, it cannot
/// pop during the call, so the contents are exactly those stated. Without
/// it, whether the ring is full depends on what the consumer, possibly on
/// another thread, has taken out, and is not stated.
#[verifier::external_body]
fn ring_push(
    p: &mut rtrb::Producer<PacketBuffer>,
    partner: Option<&rtrb::Consumer<PacketBuffer>>,
    value: PacketBuffer,
) -> (r: Result<(), PacketBuffer>)
    ensures
        producer_capacity(*final(p)) == producer_capacity(*old(p)),
        r matches Err(v) ==> v == value,
        partner matches Some(c) ==> (ring_paired(*old(p), *c) ==> {
            &&& ring_paired(*final(p), *c)
            &&& (r is Ok <==> ring_contents(*old(p), *c).len() < producer_capacity(*old(p)))
            &&& r is Ok ==> ring_contents(*final(p), *c) == ring_contents(*old(p), *c).push(value)
            &&& r is Err ==> ring_contents(*final(p), *c) == ring_contents(*old(p), *c)
        }),
{
    match p.push(value) {
        Ok(()) => Ok(()),
        Err(rtrb::PushError::Full(v)) => Err(v),
    }
}

/// rtrb's `Consumer::pop`: removes and returns the oldest value in the ring
/// buffer, or `None` when it is empty. The producer, when the caller holds
/// it and passes it, is not handed to rtrb: it names the ring whose contents
/// the contract speaks of; held by the caller, it cannot push during the
/// call. Without it, what comes out depends on the producer, possibly on
/// another thread, and is not stated.
#[verifier::external_body]
fn ring_pop(
    c: &mut rtrb::Consumer<PacketBuffer>,
    partner: Option<&rtrb::Producer<PacketBuffer>>,
) -> (r: Option<PacketBuffer>)
    ensures
        consumer_capacity(*final(c)) == consumer_capacity(*old(c)),
        partner matches Some(p) ==> (ring_paired(*p, *old(c)) ==> {
            &&& ring_paired(*p, *final(c))
            &&& match r {
                Some(v) => {
                    &&& ring_contents(*p, *old(c)).len() > 0
                    &&& v == ring_contents(*p, *old(c))[0]
                    &&& ring_contents(*p, *final(c)) == ring_contents(*p, *old(c)).drop_first()
                },
                None => {
                    &&& ring_contents(*p, *old(c)).len() == 0
                    &&& ring_contents(*p, *final(c)) == ring_contents(*p, *old(c))
                },
            }
        }),
{
    c.pop().ok()
}

/// rtrb's `Producer::slots`: the number of free slots, at most the capacity.
#[verifier::external_body]
fn ring_free_slots(p: &rtrb::Producer<PacketBuffer>) -> (n: usize)
    ensures
        n <= producer_capacity(*p),
{
    p.slots()
}

/// rtrb's `RingBuffer::capacity`, reached through `Producer::buffer`.
#[verifier::external_body]
fn ring_capacity(p: &rtrb::Producer<PacketBuffer>) -> (n: usize)
    ensures
        n == producer_capacity(*p),
{
    p.buffer().capacity()
}

/// What writing `packet` through writer end `old` does: `new` is the end
/// afterwards and `r` the answer. A closed end answers `Closed` and stays as
/// it was. An open end answers `Ok`, counting the packet and its bytes, or
/// `Overflow`, counting the overflow; the read counters and the other
/// attributes are kept.
pub open spec fn spec_write_step(
    old: StreamBuffer,
    new: StreamBuffer,
    packet: PacketBuffer,
    r: Result<(), BufferError>,
) -> bool {
    &&& new.is_writer() && new.is_reader() == old.is_reader()
    &&& new.spec_stream_id() == old.spec_stream_id()
    &&& new.spec_capacity() == old.spec_capacity()
    &&& new.spec_closed() == old.spec_closed()
    &&& new.spec_packets_read() == old.spec_packets_read()
    &&& new.spec_bytes_read() == old.spec_bytes_read()
    &&& old.spec_closed() ==> r == Err::<(), BufferError>(BufferError::Closed) && new == old
    &&& !old.spec_closed() ==> (r is Ok || r == Err::<(), BufferError>(BufferError::Overflow))
    &&& r is Ok ==> {
        &&& new.spec_packets_written() == spec_add_wrapping(old.spec_packets_written(), 1)
        &&& new.spec_bytes_written() == spec_add_wrapping(
            old.spec_bytes_written(),
            packet.data@.len() as u64,
        )
        &&& new.spec_overflows() == old.spec_overflows()
        &&& old.spec_max_usage() <= new.spec_max_usage()
        &&& (new.spec_max_usage() == old.spec_max_usage() || new.spec_max_usage()
            <= old.spec_capacity())
    }
    &&& r == Err::<(), BufferError>(BufferError::Overflow) ==> {
        &&& new.spec_overflows() == spec_add_wrapping(old.spec_overflows(), 1)
        &&& new.spec_packets_written() == old.spec_packets_written()
        &&& new.spec_bytes_written() == old.spec_bytes_written()
        &&& new.spec_max_usage() == old.spec_max_usage()
    }
}

/// What writing `packet` through writer end `old` does to the queue between
/// it and `reader`, when the two are paired: they stay paired; an open end
/// succeeds exactly when fewer than `capacity` packets are queued; success
/// puts the packet at the end of the queue, and a refusal leaves the queue.
pub open spec fn spec_paired_write(
    old: StreamBuffer,
    new: StreamBuffer,
    reader: StreamBuffer,
    packet: PacketBuffer,
    r: Result<(), BufferError>,
) -> bool {
    StreamBuffer::spec_paired(old, reader) ==> {
        &&& StreamBuffer::spec_paired(new, reader)
        &&& !old.spec_closed() ==> (r is Ok <==> StreamBuffer::spec_queued(old, reader).len()
            < old.spec_capacity())
        &&& r is Ok ==> StreamBuffer::spec_queued(new, reader) == StreamBuffer::spec_queued(
            old,
            reader,
        ).push(packet)
        &&& r is Err ==> StreamBuffer::spec_queued(new, reader) == StreamBuffer::spec_queued(
            old,
            reader,
        )
    }
}

/// What reading through reader end `old` does: `new` is the end afterwards
/// and `r` the answer. A packet read is counted with its bytes; no packet
/// gives `Closed` on a closed end and `Timeout` on an open one; the write
/// counters and the other attributes are kept.
pub open spec fn spec_read_step(
    old: StreamBuffer,
    new: StreamBuffer,
    r: Result<PacketBuffer, BufferError>,
) -> bool {
    &&& new.is_reader() && new.is_writer() == old.is_writer()
    &&& new.spec_stream_id() == old.spec_stream_id()
    &&& new.spec_capacity() == old.spec_capacity()
    &&& new.spec_closed() == old.spec_closed()
    &&& new.spec_packets_written() == old.spec_packets_written()
    &&& new.spec_bytes_written() == old.spec_bytes_written()
    &&& new.spec_overflows() == old.spec_overflows()
    &&& new.spec_max_usage() == old.spec_max_usage()
    &&& match r {
        Ok(p) => {
            &&& new.spec_packets_read() == spec_add_wrapping(old.spec_packets_read(), 1)
            &&& new.spec_bytes_read() == spec_add_wrapping(
                old.spec_bytes_read(),
                p.data@.len() as u64,
            )
        },
        Err(e) => {
            &&& new.spec_packets_read() == old.spec_packets_read()
            &&& new.spec_bytes_read() == old.spec_bytes_read()
            &&& e == (if old.spec_closed() {
                BufferError::Closed
            } else {
                BufferError::Timeout
            })
        },
    }
}

/// What reading through reader end `old` does to the queue between `writer`
/// and it, when the two are paired: they stay paired; a packet read is the
/// oldest queued one and leaves the queue; no packet is read only when the
/// queue is empty.
pub open spec fn spec_paired_read(
    writer: StreamBuffer,
    old: StreamBuffer,
    new: StreamBuffer,
    r: Result<PacketBuffer, BufferError>,
) -> bool {
    StreamBuffer::spec_paired(writer, old) ==> {
        &&& StreamBuffer::spec_paired(writer, new)
        &&& match r {
            Ok(p) => {
                &&& StreamBuffer::spec_queued(writer, old).len() > 0
                &&& p == StreamBuffer::spec_queued(writer, old)[0]
                &&& StreamBuffer::spec_queued(writer, new) == StreamBuffer::spec_queued(
                    writer,
                    old,
                ).drop_first()
            },
            Err(_) => {
                &&& StreamBuffer::spec_queued(writer, old).len() == 0
                &&& StreamBuffer::spec_queued(writer, new) == StreamBuffer::spec_queued(
                    writer,
                    old,
                )
            },
        }
    }
}

/// One end of a stream's ring buffer: the writer end holds the producer, the
/// reader end the consumer. Each end keeps its own statistics and its own
/// closed flag.
pub struct StreamBuffer {
    stream_id: usize,
    producer: Option<rtrb::Producer<PacketBuffer>>,
    consumer: Option<rtrb::Consumer<PacketBuffer>>,
    stats: BufferStats,
    closed: bool,
}

impl StreamBuffer {
    /// The stream this buffer belongs to.
    pub closed spec fn spec_stream_id(&self) -> usize {
        self.stream_id
    }

    /// Whether this is the writer end.
    pub closed spec fn is_writer(&self) -> bool {
        self.producer is Some
    }

    /// Whether this is the reader end.
    pub closed spec fn is_reader(&self) -> bool {
        self.consumer is Some
    }

    /// The capacity of the ring buffer, in packets.
    pub closed spec fn spec_capacity(&self) -> usize {
        match self.producer {
            Some(p) => producer_capacity(p),
            None => match self.consumer {
                Some(c) => consumer_capacity(c),
                None => 0,
            },
        }
    }

    /// Whether this end has been closed.
    pub closed spec fn spec_closed(&self) -> bool {
        self.closed
    }

    /// This end as it is after closing: the closed flag set, all else kept.
    pub closed spec fn spec_after_close(self) -> Self {
        StreamBuffer {
            stream_id: self.stream_id,
            producer: self.producer,
            consumer: self.consumer,
            stats: self.stats,
            closed: true,
        }
    }

    /// Packets written through this end.
    pub closed spec fn spec_packets_written(&self) -> u64 {
        self.stats.packets_written
    }

    /// Bytes written through this end.
    pub closed spec fn spec_bytes_written(&self) -> u64 {
        self.stats.bytes_written
    }

    /// Packets read through this end.
    pub closed spec fn spec_packets_read(&self) -> u64 {
        self.stats.packets_read
    }

    /// Bytes read through this end.
    pub closed spec fn spec_bytes_read(&self) -> u64 {
        self.stats.bytes_read
    }

    /// Writes refused because the buffer was full.
    pub closed spec fn spec_overflows(&self) -> u64 {
        self.stats.overflows
    }

    /// The highest used-slot count seen after a successful write.
    pub closed spec fn spec_max_usage(&self) -> u64 {
        self.stats.max_usage
    }

    /// Whether the statistics are those of a fresh end.
    pub open spec fn spec_fresh_stats(&self) -> bool {
        &&& self.spec_packets_written() == 0
        &&& self.spec_bytes_written() == 0
        &&& self.spec_packets_read() == 0
        &&& self.spec_bytes_read() == 0
        &&& self.spec_overflows() == 0
        &&& self.spec_max_usage() == 0
    }

    /// Whether `writer` is the writer end and `reader` the reader end of one
    /// ring buffer.
    pub closed spec fn spec_paired(writer: StreamBuffer, reader: StreamBuffer) -> bool {
        &&& writer.producer is Some
        &&& reader.consumer is Some
        &&& ring_paired(writer.producer->0, reader.consumer->0)
    }

    /// The packets queued between a writer end and its reader end, oldest
    /// first: written and not yet read.
    pub closed spec fn spec_queued(writer: StreamBuffer, reader: StreamBuffer) -> Seq<PacketBuffer> {
        ring_contents(writer.producer->0, reader.consumer->0)
    }

    /// Create a stream buffer of `capacity` packets: the writer end and the
    /// reader end, with nothing queued between them.
    pub fn new(stream_id: usize, capacity: usize) -> (r: (Self, Self))
        requires
            capacity <= isize::MAX / 64,
        ensures
            r.0.is_writer() && !r.0.is_reader(),
            r.1.is_reader() && !r.1.is_writer(),
            r.0.spec_stream_id() == stream_id && r.1.spec_stream_id() == stream_id,
            r.0.spec_capacity() == capacity && r.1.spec_capacity() == capacity,
            !r.0.spec_closed() && !r.1.spec_closed(),
            r.0.spec_fresh_stats() && r.1.spec_fresh_stats(),
            StreamBuffer::spec_paired(r.0, r.1),
            StreamBuffer::spec_queued(r.0, r.1) == Seq::<PacketBuffer>::empty(),
    {
        let (producer, consumer) = ring_buffer_new(capacity);
        let writer = Self {
            stream_id,
            producer: Some(producer),
            consumer: None,
            stats: BufferStats::default(),
            closed: false,
        };
        let reader = Self {
            stream_id,
            producer: None,
            consumer: Some(consumer),
            stats: BufferStats::default(),
            closed: false,
        };
        (writer, reader)
    }

    /// Write a packet to the buffer. A closed end refuses it and stays as it
    /// was; otherwise it is either stored and counted as written, or refused
    /// as an overflow when the buffer is full and counted as such.
    pub fn write_packet(&mut self, packet: PacketBuffer) -> (r: Result<(), BufferError>)
        requires
            old(self).is_writer(),
        ensures
            spec_write_step(*old(self), *final(self), packet, r),
    {
        self.write_to(None, packet)
    }

    /// Write a packet to the buffer whose reader end the caller also holds:
    /// as `write_packet`, and an open end stores it at the end of the queue
    /// exactly when fewer than `capacity` packets are queued.
    pub fn write_packet_paired(&mut self, reader: &StreamBuffer, packet: PacketBuffer) -> (r: Result<(), BufferError>)
        requires
            old(self).is_writer(),
        ensures
            spec_write_step(*old(self), *final(self), packet, r),
            spec_paired_write(*old(self), *final(self), *reader, packet, r),
    {
        self.write_to(Some(reader), packet)
    }

    fn write_to(&mut self, reader: Option<&StreamBuffer>, packet: PacketBuffer) -> (r: Result<(), BufferError>)
        requires
            old(self).is_writer(),
        ensures
            spec_write_step(*old(self), *final(self), packet, r),
            reader matches Some(rd) ==> spec_paired_write(*old(self), *final(self), *rd, packet, r),
    {
        if self.closed {
            return Err(BufferError::Closed);
        }
        let partner = match reader {
            Some(rd) => match &rd.consumer {
                Some(c) => Some(c),
                None => None,
            },
            None => None,
        };
        let packet_size = packet.data.len();
        let ghost pk = packet;
        let mut producer = self.producer.take().unwrap();
        let pushed = ring_push(&mut producer, partner, packet);
        let r = match pushed {
            Ok(()) => {
                self.stats.packets_written = self.stats.packets_written.wrapping_add(1);
                self.stats.bytes_written = self.stats.bytes_written.wrapping_add(
                    packet_size as u64,
                );
                let free = ring_free_slots(&producer);
                let capacity = ring_capacity(&producer);
                let used = (capacity - free) as u64;
                if used > self.stats.max_usage {
                    self.stats.max_usage = used;
                }
                Ok(())
            },
            Err(_) => {
                self.stats.overflows = self.stats.overflows.wrapping_add(1);
                Err(BufferError::Overflow)
            },
        };
        self.producer = Some(producer);
        r
    }

    /// Read a packet from the buffer. When it is empty, a closed end answers
    /// `Closed` and an open one `Timeout`.
    pub fn read_packet(&mut self) -> (r: Result<PacketBuffer, BufferError>)
        requires
            old(self).is_reader(),
        ensures
            spec_read_step(*old(self), *final(self), r),
    {
        self.read_from(None)
    }

    /// Read a packet from the buffer whose writer end the caller also holds:
    /// as `read_packet`, and the packet read is the oldest queued one, which
    /// leaves the queue; an empty queue gives `Closed` or `Timeout`.
    pub fn read_packet_paired(&mut self, writer: &StreamBuffer) -> (r: Result<PacketBuffer, BufferError>)
        requires
            old(self).is_reader(),
        ensures
            spec_read_step(*old(self), *final(self), r),
            spec_paired_read(*writer, *old(self), *final(self), r),
    {
        self.read_from(Some(writer))
    }

    fn read_from(&mut self, writer: Option<&StreamBuffer>) -> (r: Result<PacketBuffer, BufferError>)
        requires
            old(self).is_reader(),
        ensures
            spec_read_step(*old(self), *final(self), r),
            writer matches Some(w) ==> spec_paired_read(*w, *old(self), *final(self), r),
    {
        let partner = match writer {
            Some(w) => match &w.producer {
                Some(p) => Some(p),
                None => None,
            },
            None => None,
        };
        let mut consumer = self.consumer.take().unwrap();
        let popped = ring_pop(&mut consumer, partner);
        self.consumer = Some(consumer);
        match popped {
            Some(packet) => {
                let packet_size = packet.data.len();
                self.stats.packets_read = self.stats.packets_read.wrapping_add(1);
                self.stats.bytes_read = self.stats.bytes_read.wrapping_add(packet_size as u64);
                Ok(packet)
            },
            None => {
                if self.closed {
                    Err(BufferError::Closed)
                } else {
                    Err(BufferError::Timeout)
                }
            },
        }
    }

    /// Close this end of the buffer.
    pub fn close(&mut self)
        ensures
            *final(self) == old(self).spec_after_close(),
            final(self).spec_closed(),
            final(self).is_writer() == old(self).is_writer(),
            final(self).is_reader() == old(self).is_reader(),
            final(self).spec_stream_id() == old(self).spec_stream_id(),
            final(self).spec_capacity() == old(self).spec_capacity(),
            final(self).spec_packets_written() == old(self).spec_packets_written(),
            final(self).spec_bytes_written() == old(self).spec_bytes_written(),
            final(self).spec_packets_read() == old(self).spec_packets_read(),
            final(self).spec_bytes_read() == old(self).spec_bytes_read(),
            final(self).spec_overflows() == old(self).spec_overflows(),
            final(self).spec_max_usage() == old(self).spec_max_usage(),
    {
        self.closed = true;
    }

    /// Whether this is the writer end.
    pub fn is_writer_end(&self) -> (b: bool)
        ensures
            b == self.is_writer(),
    {
        self.producer.is_some()
    }

    /// Whether this is the reader end.
    pub fn is_reader_end(&self) -> (b: bool)
        ensures
            b == self.is_reader(),
    {
        self.consumer.is_some()
    }

    /// Check if buffer is closed
    pub fn is_closed(&self) -> (b: bool)
        ensures
            b == self.spec_closed(),
    {
        self.closed
    }

    /// The free-slot count and the capacity of the ring buffer, from which
    /// the usage percentage is computed.
    pub fn usage_slots(&self) -> (r: (usize, usize))
        requires
            self.is_writer(),
        ensures
            r.1 == self.spec_capacity(),
            r.0 <= r.1,
    {
        match &self.producer {
            Some(p) => (ring_free_slots(p), ring_capacity(p)),
            None => (0, 0),
        }
    }

    /// Get packet count
    pub fn get_packet_count(&self) -> (n: u64)
        ensures
            n == self.spec_packets_written(),
    {
        self.stats.packets_written
    }

    /// Get bytes written
    pub fn get_bytes_written(&self) -> (n: u64)
        ensures
            n == self.spec_bytes_written(),
    {
        self.stats.bytes_written
    }

    /// Get overflow count
    pub fn get_overflow_count(&self) -> (n: u64)
        ensures
            n == self.spec_overflows(),
    {
        self.stats.overflows
    }
}

/// What a reader waiting with a timeout does after one read attempt.
#[derive(Debug, Clone, Copy, PartialEq, Eq, Structural)]
pub enum WaitStep {
    /// The read gave a packet or an error other than an empty buffer: return it.
    Return,
    /// The buffer was empty and the time is up: report the timeout.
    GiveUp,
    /// The buffer was empty: wait a little and read again.
    Retry,
}

/// The step after one read attempt of a read with timeout, given the
/// attempt's outcome and whether the waiting time has run out.
pub fn wait_step(read: &Result<PacketBuffer, BufferError>, timed_out: bool) -> (s: WaitStep)
    ensures
        read is Ok ==> s == WaitStep::Return,
        read matches Err(e) ==> s == (if e != BufferError::Timeout {
            WaitStep::Return
        } else if timed_out {
            WaitStep::GiveUp
        } else {
            WaitStep::Retry
        }),
{
    match read {
        Ok(_) => WaitStep::Return,
        Err(BufferError::Timeout) => {
            if timed_out {
                WaitStep::GiveUp
            } else {
                WaitStep::Retry
            }
        },
        Err(_) => WaitStep::Return,
    }
}

/// The header word of a raw packet, read little endian from its first eight bytes.
pub open spec fn spec_raw_header(data: Seq<u8>) -> u64 {
    spec_u64_from_le_bytes(data.subrange(0, 8))
}

/// The timestamp that packet processing extracts: bytes 8..16 little endian
/// when bit 61 of the header word is set and the packet holds them.
pub open spec fn spec_processed_timestamp(data: Seq<u8>) -> Option<u64> {
    if (spec_raw_header(data) >> 61u64) & 0x1u64 == 1 && data.len() >= 16 {
        Some(spec_u64_from_le_bytes(data.subrange(8, 16)))
    } else {
        None
    }
}

/// A raw packet gets a timestamp only when bit 61 of its header word (its
/// first eight bytes, little endian) is set and it holds at least 16 bytes;
/// the timestamp is then the next eight bytes, little endian.
pub proof fn lemma_timestamp_needs_flag(data: Seq<u8>)
    ensures
        ({
            let h = spec_u64_from_le_bytes(data.subrange(0, 8));
            &&& h & 0x2000_0000_0000_0000u64 == 0 ==> spec_processed_timestamp(data) is None
            &&& data.len() < 16 ==> spec_processed_timestamp(data) is None
            &&& (h & 0x2000_0000_0000_0000u64 != 0 && data.len() >= 16)
                ==> spec_processed_timestamp(data) == Some(
                spec_u64_from_le_bytes(data.subrange(8, 16)),
            )
        }),
{
    let h = spec_u64_from_le_bytes(data.subrange(0, 8));
    assert(h & 0x2000_0000_0000_0000u64 == 0 <==> (h >> 61u64) & 0x1u64 != 1) by (bit_vector);
}

/// Packet processor for handling CHDR packets: numbers the packets of one
/// stream and extracts their timestamps.
pub struct PacketProcessor {
    stream_id: u32,
    packet_count: u64,
    last_timestamp: Option<u64>,
}

/// Packet statistics
#[derive(Debug, Clone)]
pub struct PacketStats {
    pub stream_id: u32,
    pub packet_count: u64,
    pub last_timestamp: Option<u64>,
}

impl PacketProcessor {
    /// The stream whose packets this processor numbers.
    pub closed spec fn spec_stream_id(&self) -> u32 {
        self.stream_id
    }

    /// The number of packets processed so far.
    pub closed spec fn spec_packet_count(&self) -> u64 {
        self.packet_count
    }

    /// The timestamp of the last processed packet.
    pub closed spec fn spec_last_timestamp(&self) -> Option<u64> {
        self.last_timestamp
    }

    /// Create a new packet processor
    pub fn new(stream_id: u32) -> (p: Self)
        ensures
            p.spec_stream_id() == stream_id,
            p.spec_packet_count() == 0,
            p.spec_last_timestamp() is None,
    {
        Self { stream_id, packet_count: 0, last_timestamp: None }
    }

    /// Process a raw packet: a packet shorter than its 8-byte header is
    /// refused; otherwise it becomes the next numbered buffer entry of the
    /// stream, with the timestamp that its header announces.
    pub fn process_packet(&mut self, data: &[u8]) -> (r: Result<PacketBuffer, Error>)
        requires
            old(self).spec_packet_count() < u64::MAX,
        ensures
            final(self).spec_stream_id() == old(self).spec_stream_id(),
            data@.len() < 8 ==> r is Err && is_processing_error(r->Err_0, "Packet too small"@)
                && final(self).spec_packet_count() == old(self).spec_packet_count()
                && final(self).spec_last_timestamp() == old(self).spec_last_timestamp(),
            data@.len() >= 8 ==> r is Ok && {
                let p = r->Ok_0;
                &&& p.stream_id == old(self).spec_stream_id()
                &&& p.packet_number == old(self).spec_packet_count()
                &&& p.timestamp == spec_processed_timestamp(data@)
                &&& p.data@ == data@
                &&& final(self).spec_packet_count() == old(self).spec_packet_count() + 1
                &&& final(self).spec_last_timestamp() == spec_processed_timestamp(data@)
            },
    {
        if data.len() < 8 {
            return Err(Error::ProcessingError("Packet too small".to_owned()));
        }
        let header = u64_from_le_bytes(slice_subrange(data, 0, 8));
        let has_timestamp = (header >> 61u64) & 0x1u64 == 1;
        let timestamp = if has_timestamp && data.len() >= 16 {
            Some(u64_from_le_bytes(slice_subrange(data, 8, 16)))
        } else {
            None
        };
        self.last_timestamp = timestamp;
        let packet = PacketBuffer {
            stream_id: self.stream_id,
            packet_number: self.packet_count,
            timestamp,
            data: slice_to_vec(data),
        };
        self.packet_count = self.packet_count + 1;
        Ok(packet)
    }

    /// Get packet statistics
    pub fn get_stats(&self) -> (s: PacketStats)
        ensures
            s.stream_id == self.spec_stream_id(),
            s.packet_count == self.spec_packet_count(),
            s.last_timestamp == self.spec_last_timestamp(),
    {
        PacketStats {
            stream_id: self.stream_id,
            packet_count: self.packet_count,
            last_timestamp: self.last_timestamp,
        }
    }
}

/// Whether `p` is the least power of two that is at least `n` (one for
/// zero), as std's `next_power_of_two` computes it.
pub open spec fn spec_is_next_power_of_two(n: nat, p: nat) -> bool {
    &&& exists|k: nat| p == pow2(k)
    &&& p >= n
    &&& (p == 1 || p / 2 < n)
}

fn next_power_of_two(n: usize) -> (p: usize)
    requires
        n <= usize::MAX / 2,
    ensures
        spec_is_next_power_of_two(n as nat, p as nat),
        p <= 2 * n || p == 1,
{
    let mut p: usize = 1;
    let ghost mut k: nat = 0;
    proof {
        reveal(pow);
    }
    assert(p == pow2(k));
    while p < n
        invariant
            1 <= p,
            n <= usize::MAX / 2,
            p == pow2(k),
            p == 1 || p / 2 < n,
        decreases usize::MAX - p,
    {
        proof {
            lemma_pow2_unfold(k + 1);
            k = k + 1;
        }
        p = p * 2;
    }
    p
}

/// Whether `new_ids`/`new_vals` are `ids`/`vals` without the entry at the
/// first position where `ids` holds `id`.
pub open spec fn spec_removes_first<K, V>(
    ids: Seq<K>,
    vals: Seq<V>,
    new_ids: Seq<K>,
    new_vals: Seq<V>,
    id: K,
) -> bool {
    exists|k: int|
        #![trigger ids.remove(k)]
        {
            &&& 0 <= k < ids.len()
            &&& ids[k] == id
            &&& forall|j: int| 0 <= j < k ==> ids[j] != id
            &&& new_ids == ids.remove(k)
            &&& new_vals == vals.remove(k)
        }
}

/// A capture session started under an id that no active session has, and
/// then stopped by that id, leaves the active sessions as they were.
pub proof fn lemma_session_start_then_stop(
    ids: Seq<u64>,
    streams: Seq<nat>,
    new_ids: Seq<u64>,
    new_streams: Seq<nat>,
    id: u64,
    count: nat,
)
    requires
        !ids.contains(id),
        streams.len() == ids.len(),
        spec_removes_first(ids.push(id), streams.push(count), new_ids, new_streams, id),
    ensures
        new_ids == ids,
        new_streams == streams,
{
    let k = choose|k: int|
        #![trigger ids.push(id).remove(k)]
        {
            &&& 0 <= k < ids.push(id).len()
            &&& ids.push(id)[k] == id
            &&& forall|j: int| 0 <= j < k ==> ids.push(id)[j] != id
            &&& new_ids == ids.push(id).remove(k)
            &&& new_streams == streams.push(count).remove(k)
        };
    if k < ids.len() {
        assert(ids.push(id)[k] == ids[k]);
    }
    assert(new_ids =~= ids);
    assert(new_streams =~= streams);
}

/// The capacity in packets of a stream buffer for a ring buffer of
/// `ring_buffer_size` bytes, counting 8 KiB per packet and rounding up to a
/// power of two.
pub open spec fn spec_is_buffer_capacity(ring_buffer_size: usize, capacity: usize) -> bool {
    spec_is_next_power_of_two((ring_buffer_size / 8192) as nat, capacity as nat)
}

/// Number of packets held by each stream buffer of a capture session.
pub const SESSION_BUFFER_PACKETS: usize = 65536;

struct CaptureSession {
    id: u64,
    buffers: Vec<(StreamBuffer, StreamBuffer)>,
}

/// Capture manager for coordinating stream capture: creates stream buffers
/// and keeps the active capture sessions.
pub struct CaptureManager {
    ring_buffer_size: usize,
    sessions: Vec<CaptureSession>,
    next_session_id: u64,
}

impl CaptureManager {
    /// The ids of the active sessions, oldest first.
    pub closed spec fn spec_session_ids(&self) -> Seq<u64> {
        self.sessions@.map_values(|s: CaptureSession| s.id)
    }

    /// The number of stream buffer pairs of each active session, oldest first.
    pub closed spec fn spec_session_streams(&self) -> Seq<nat> {
        self.sessions@.map_values(|s: CaptureSession| s.buffers@.len())
    }

    /// The id that the next session gets.
    pub closed spec fn spec_next_session_id(&self) -> u64 {
        self.next_session_id
    }

    /// The configured ring buffer size in bytes.
    pub closed spec fn spec_ring_buffer_size(&self) -> usize {
        self.ring_buffer_size
    }

    /// Create a new capture manager for the configured ring buffer size.
    pub fn new(ring_buffer_size: usize) -> (m: Self)
        ensures
            m.spec_ring_buffer_size() == ring_buffer_size,
            m.spec_session_ids() == Seq::<u64>::empty(),
            m.spec_next_session_id() == 0,
    {
        let m = Self { ring_buffer_size, sessions: Vec::new(), next_session_id: 0 };
        assert(m.spec_session_ids() =~= Seq::<u64>::empty());
        m
    }

    /// Stop the capture manager: close every session's writers and drop all
    /// sessions.
    pub fn stop(&mut self) -> (r: Result<(), Error>)
        ensures
            r is Ok,
            final(self).spec_session_ids() == Seq::<u64>::empty(),
            final(self).spec_next_session_id() == old(self).spec_next_session_id(),
            final(self).spec_ring_buffer_size() == old(self).spec_ring_buffer_size(),
    {
        let mut sessions = Vec::new();
        std::mem::swap(&mut sessions, &mut self.sessions);
        let n = sessions.len();
        for i in 0..n
            invariant
                n == sessions.len(),
        {
            close_writers(&mut sessions[i].buffers);
        }
        assert(self.spec_session_ids() =~= Seq::<u64>::empty());
        Ok(())
    }

    /// Create the writer end of a stream buffer sized for the configured ring
    /// buffer.
    pub fn create_stream_buffer(&self, stream_id: usize) -> (r: Result<StreamBuffer, Error>)
        ensures
            r is Ok,
            r->Ok_0.is_writer(),
            r->Ok_0.spec_stream_id() == stream_id,
            spec_is_buffer_capacity(self.spec_ring_buffer_size(), r->Ok_0.spec_capacity()),
            !r->Ok_0.spec_closed(),
            r->Ok_0.spec_fresh_stats(),
    {
        let packets = self.ring_buffer_size / 8192;
        let capacity = next_power_of_two(packets);
        let (writer, _reader) = StreamBuffer::new(stream_id, capacity);
        Ok(writer)
    }

    /// Create both ends of a stream buffer sized for the configured ring
    /// buffer: the writer end, then the reader end.
    pub fn create_stream_buffers(&self, stream_id: usize) -> (r: Result<(StreamBuffer, StreamBuffer), Error>)
        ensures
            r is Ok,
            r->Ok_0.0.is_writer() && !r->Ok_0.0.is_reader(),
            r->Ok_0.1.is_reader() && !r->Ok_0.1.is_writer(),
            r->Ok_0.0.spec_stream_id() == stream_id && r->Ok_0.1.spec_stream_id() == stream_id,
            spec_is_buffer_capacity(self.spec_ring_buffer_size(), r->Ok_0.0.spec_capacity()),
            r->Ok_0.1.spec_capacity() == r->Ok_0.0.spec_capacity(),
            !r->Ok_0.0.spec_closed() && !r->Ok_0.1.spec_closed(),
            r->Ok_0.0.spec_fresh_stats() && r->Ok_0.1.spec_fresh_stats(),
            StreamBuffer::spec_paired(r->Ok_0.0, r->Ok_0.1),
            StreamBuffer::spec_queued(r->Ok_0.0, r->Ok_0.1) == Seq::<PacketBuffer>::empty(),
    {
        let packets = self.ring_buffer_size / 8192;
        let capacity = next_power_of_two(packets);
        Ok(StreamBuffer::new(stream_id, capacity))
    }

    /// Start a capture session with one stream buffer pair per stream; the
    /// session gets the next session id.
    pub fn start_capture(
        &mut self,
        stream_count: usize,
        duration: Option<core::time::Duration>,
        packet_limit: Option<u64>,
    ) -> (r: Result<u64, Error>)
        ensures
            r == Ok::<u64, Error>(old(self).spec_next_session_id()),
            final(self).spec_session_ids() == old(self).spec_session_ids().push(
                old(self).spec_next_session_id(),
            ),
            final(self).spec_session_streams() == old(self).spec_session_streams().push(
                stream_count as nat,
            ),
            final(self).spec_next_session_id() == spec_add_wrapping(
                old(self).spec_next_session_id(),
                1,
            ),
            final(self).spec_ring_buffer_size() == old(self).spec_ring_buffer_size(),
    {
        let session_id = self.next_session_id;
        self.next_session_id = self.next_session_id.wrapping_add(1);
        let mut buffers: Vec<(StreamBuffer, StreamBuffer)> = Vec::new();
        for i in 0..stream_count
            invariant
                buffers@.len() == i,
        {
            buffers.push(StreamBuffer::new(i, SESSION_BUFFER_PACKETS));
        }
        self.sessions.push(CaptureSession { id: session_id, buffers });
        assert(self.spec_session_ids() =~= old(self).spec_session_ids().push(session_id));
        assert(self.spec_session_streams() =~= old(self).spec_session_streams().push(
            stream_count as nat,
        ));
        Ok(session_id)
    }

    /// Stop a capture session: the first session with this id is removed and
    /// its writers closed; an unknown id changes nothing.
    pub fn stop_capture(&mut self, session_id: u64) -> (r: Result<(), Error>)
        ensures
            r is Ok,
            !old(self).spec_session_ids().contains(session_id) ==> {
                &&& final(self).spec_session_ids() == old(self).spec_session_ids()
                &&& final(self).spec_session_streams() == old(self).spec_session_streams()
            },
            old(self).spec_session_ids().contains(session_id) ==> spec_removes_first(
                old(self).spec_session_ids(),
                old(self).spec_session_streams(),
                final(self).spec_session_ids(),
                final(self).spec_session_streams(),
                session_id,
            ),
            final(self).spec_next_session_id() == old(self).spec_next_session_id(),
            final(self).spec_ring_buffer_size() == old(self).spec_ring_buffer_size(),
    {
        let n = self.sessions.len();
        let ghost ids = self.spec_session_ids();
        let mut i: usize = 0;
        while i < n
            invariant
                n == self.sessions.len(),
                self.sessions@ == old(self).sessions@,
                self.next_session_id == old(self).next_session_id,
                self.ring_buffer_size == old(self).ring_buffer_size,
                ids == old(self).spec_session_ids(),
                ids.len() == n,
                i <= n,
                forall|j: int| 0 <= j < i ==> ids[j] != session_id,
            decreases n - i,
        {
            assert(ids[i as int] == self.sessions@[i as int].id);
            if self.sessions[i].id == session_id {
                let mut session = self.sessions.remove(i);
                close_writers(&mut session.buffers);
                assert(self.spec_session_ids() =~= old(self).spec_session_ids().remove(i as int));
                assert(self.spec_session_streams() =~= old(self).spec_session_streams().remove(
                    i as int,
                ));
                assert(ids.remove(i as int) == self.spec_session_ids());
                return Ok(());
            }
            i = i + 1;
        }
        assert(!ids.contains(session_id)) by {
            if ids.contains(session_id) {
                let j = choose|j: int| 0 <= j < ids.len() && ids[j] == session_id;
                assert(ids[j] != session_id);
            }
        }
        Ok(())
    }
}

/// Close the writer end of every buffer pair; the reader ends stay as they
/// are.
fn close_writers(buffers: &mut Vec<(StreamBuffer, StreamBuffer)>)
    ensures
        final(buffers)@.len() == old(buffers)@.len(),
        forall|j: int|
            0 <= j < old(buffers)@.len() ==> (#[trigger] final(buffers)@[j]) == (
            old(buffers)@[j].0.spec_after_close(),
            old(buffers)@[j].1,
        ),
{
    let n = buffers.len();
    for i in 0..n
        invariant
            n == buffers@.len(),
            n == old(buffers)@.len(),
            forall|j: int|
                0 <= j < i ==> (#[trigger] buffers@[j]) == (
                old(buffers)@[j].0.spec_after_close(),
                old(buffers)@[j].1,
            ),
            forall|j: int| i <= j < n ==> (#[trigger] buffers@[j]) == old(buffers)@[j],
    {
        let (mut writer, reader) = buffers.remove(i);
        writer.close();
        buffers.insert(i, (writer, reader));
    }
}

} // verus!
