//! CHDR packet header bit fields and packet framing.

use vstd::prelude::*;
use vstd::bytes::{
    lemma_auto_spec_u64_to_from_le_bytes, spec_u64_from_le_bytes, spec_u64_to_le_bytes,
    u64_from_le_bytes, u64_to_le_bytes,
};
use vstd::slice::{slice_subrange, slice_to_vec};

use crate::error::{Error, is_processing_error};

verus! {

/// CHDR packet types, with their 3-bit wire codes.
#[derive(Debug, Clone, Copy, PartialEq, Eq, Structural)]
pub enum PacketType {
    Management,
    StreamStatus,
    StreamCommand,
    Control,
    DataNoTs,
    DataWithTs,
}

/// The 3-bit wire code of a packet type.
pub open spec fn spec_packet_type_code(t: PacketType) -> u64 {
    match t {
        PacketType::Management => 0x0,
        PacketType::StreamStatus => 0x1,
        PacketType::StreamCommand => 0x2,
        PacketType::Control => 0x4,
        PacketType::DataNoTs => 0x6,
        PacketType::DataWithTs => 0x7,
    }
}

/// The packet type that a 3-bit code decodes to; the unused codes 3 and 5
/// decode as `DataNoTs`.
pub open spec fn spec_packet_type_of_code(code: u64) -> PacketType {
    if code == 0x0 {
        PacketType::Management
    } else if code == 0x1 {
        PacketType::StreamStatus
    } else if code == 0x2 {
        PacketType::StreamCommand
    } else if code == 0x4 {
        PacketType::Control
    } else if code == 0x7 {
        PacketType::DataWithTs
    } else {
        PacketType::DataNoTs
    }
}

/// Bits 53..=55 of a header word.
pub open spec fn spec_type_bits(h: u64) -> u64 {
    (h >> 53u64) & 0x7u64
}

/// Bits 16..=31 of a header word.
pub open spec fn spec_length_bits(h: u64) -> u64 {
    (h >> 16u64) & 0xFFFFu64
}

/// Bits 32..=47 of a header word.
pub open spec fn spec_seq_bits(h: u64) -> u64 {
    (h >> 32u64) & 0xFFFFu64
}

/// Bits 0..=15 of a header word.
pub open spec fn spec_epid_bits(h: u64) -> u64 {
    h & 0xFFFFu64
}

/// Bit 57 of a header word.
pub open spec fn spec_eob_bit(h: u64) -> u64 {
    (h >> 57u64) & 0x1u64
}

/// `h` with bits 53..=55 replaced by the code of `t`.
pub open spec fn spec_with_packet_type(h: u64, t: PacketType) -> u64 {
    (h & !(0x7u64 << 53u64)) | ((spec_packet_type_code(t) & 0x7u64) << 53u64)
}

/// `h` with bits 16..=31 replaced by `length`.
pub open spec fn spec_with_length(h: u64, length: u16) -> u64 {
    (h & !(0xFFFFu64 << 16u64)) | (((length as u64) & 0xFFFFu64) << 16u64)
}

/// `h` with bits 32..=47 replaced by `seq_num`.
pub open spec fn spec_with_seq_num(h: u64, seq_num: u16) -> u64 {
    (h & !(0xFFFFu64 << 32u64)) | (((seq_num as u64) & 0xFFFFu64) << 32u64)
}

/// The 64-bit CHDR header word.
#[derive(Debug, Clone, Copy)]
pub struct ChdrHeader {
    pub header: u64,
}

impl ChdrHeader {
    /// The packet type that this header announces.
    pub open spec fn spec_packet_type(self) -> PacketType {
        spec_packet_type_of_code(spec_type_bits(self.header))
    }

    /// A header with every bit clear.
    pub fn new() -> (h: Self)
        ensures
            h.header == 0,
    {
        Self { header: 0 }
    }

    /// Decode the packet type from bits 53..=55.
    pub fn packet_type(&self) -> (t: PacketType)
        ensures
            t == self.spec_packet_type(),
    {
        let pkt_type: u64 = (self.header >> 53u64) & 0x7u64;
        if pkt_type == 0x0 {
            PacketType::Management
        } else if pkt_type == 0x1 {
            PacketType::StreamStatus
        } else if pkt_type == 0x2 {
            PacketType::StreamCommand
        } else if pkt_type == 0x4 {
            PacketType::Control
        } else if pkt_type == 0x6 {
            PacketType::DataNoTs
        } else if pkt_type == 0x7 {
            PacketType::DataWithTs
        } else {
            PacketType::DataNoTs
        }
    }

    /// Whether the packet type announces a timestamp word.
    pub fn has_timestamp(&self) -> (b: bool)
        ensures
            b == (self.spec_packet_type() == PacketType::DataWithTs),
    {
        self.packet_type() == PacketType::DataWithTs
    }

    /// The packet length field, bits 16..=31.
    pub fn length(&self) -> (l: u16)
        ensures
            l == spec_length_bits(self.header),
    {
        let h = self.header;
        assert(((h >> 16u64) & 0xFFFFu64) < 0x10000u64) by (bit_vector);
        ((h >> 16u64) & 0xFFFFu64) as u16
    }

    /// The sequence number field, bits 32..=47.
    pub fn seq_num(&self) -> (s: u16)
        ensures
            s == spec_seq_bits(self.header),
    {
        let h = self.header;
        assert(((h >> 32u64) & 0xFFFFu64) < 0x10000u64) by (bit_vector);
        ((h >> 32u64) & 0xFFFFu64) as u16
    }

    /// The endpoint id field, bits 0..=15.
    pub fn epid(&self) -> (e: u16)
        ensures
            e == spec_epid_bits(self.header),
    {
        let h = self.header;
        assert((h & 0xFFFFu64) < 0x10000u64) by (bit_vector);
        (h & 0xFFFFu64) as u16
    }

    /// The end-of-burst flag, bit 57.
    pub fn eob(&self) -> (b: bool)
        ensures
            b == (spec_eob_bit(self.header) != 0),
    {
        ((self.header >> 57u64) & 0x1u64) != 0
    }

    /// Replace bits 53..=55 with the code of `pkt_type`.
    pub fn set_packet_type(&mut self, pkt_type: PacketType)
        ensures
            final(self).header == spec_with_packet_type(old(self).header, pkt_type),
    {
        let code = packet_type_code(pkt_type);
        self.header = self.header & !(0x7u64 << 53u64);
        self.header = self.header | ((code & 0x7u64) << 53u64);
    }

    /// Replace bits 16..=31 with `length`.
    pub fn set_length(&mut self, length: u16)
        ensures
            final(self).header == spec_with_length(old(self).header, length),
    {
        self.header = self.header & !(0xFFFFu64 << 16u64);
        self.header = self.header | (((length as u64) & 0xFFFFu64) << 16u64);
    }

    /// Replace bits 32..=47 with `seq_num`.
    pub fn set_seq_num(&mut self, seq_num: u16)
        ensures
            final(self).header == spec_with_seq_num(old(self).header, seq_num),
    {
        self.header = self.header & !(0xFFFFu64 << 32u64);
        self.header = self.header | (((seq_num as u64) & 0xFFFFu64) << 32u64);
    }
}

impl Default for ChdrHeader {
    fn default() -> (h: Self)
        ensures
            h.header == 0,
    {
        Self::new()
    }
}

fn packet_type_code(t: PacketType) -> (c: u64)
    ensures
        c == spec_packet_type_code(t),
{
    match t {
        PacketType::Management => 0x0,
        PacketType::StreamStatus => 0x1,
        PacketType::StreamCommand => 0x2,
        PacketType::Control => 0x4,
        PacketType::DataNoTs => 0x6,
        PacketType::DataWithTs => 0x7,
    }
}

/// A CHDR packet: header word, optional timestamp word and payload bytes.
#[derive(Debug, Clone)]
pub struct ChdrPacket {
    pub header: ChdrHeader,
    pub timestamp: Option<u64>,
    pub payload: Vec<u8>,
}

/// The value of eight bytes read most significant byte first.
pub open spec fn spec_u64_from_be_bytes(s: Seq<u8>) -> u64 {
    spec_u64_from_le_bytes(s.reverse())
}

/// Whether `w` is what eight bytes `b` hold in one of the two byte orders.
pub open spec fn spec_word_in_either_order(w: u64, b: Seq<u8>) -> bool {
    w == spec_u64_from_le_bytes(b) || w == spec_u64_from_be_bytes(b)
}

/// Whether `b` is the memory image of `w` in one of the two byte orders.
pub open spec fn spec_bytes_in_either_order(b: Seq<u8>, w: u64) -> bool {
    b == spec_u64_to_le_bytes(w) || b == spec_u64_to_le_bytes(w).reverse()
}

/// The bytes that a timestamp word occupies on the wire (little endian).
pub open spec fn spec_timestamp_bytes(ts: Option<u64>) -> Seq<u8> {
    match ts {
        Some(t) => spec_u64_to_le_bytes(t),
        None => Seq::empty(),
    }
}

/// A packet on the wire: header bytes, then the timestamp word if any, then the payload.
pub open spec fn spec_frame(header_bytes: Seq<u8>, ts: Option<u64>, payload: Seq<u8>) -> Seq<u8> {
    header_bytes + spec_timestamp_bytes(ts) + payload
}

/// What follows the eight header bytes of `data`, given whether the header
/// announces a timestamp: the timestamp (if announced) and the payload, or
/// `None` when the data is too short for the announced timestamp.
pub open spec fn spec_parse_body(has_ts: bool, data: Seq<u8>) -> Option<(Option<u64>, Seq<u8>)> {
    if has_ts {
        if data.len() < 16 {
            None
        } else {
            Some((Some(spec_u64_from_le_bytes(data.subrange(8, 16))), data.subrange(16, data.len() as int)))
        }
    } else {
        Some((None, data.subrange(8, data.len() as int)))
    }
}

/// zerocopy's `FromBytes::read_from` on `u64`: reads the bytes as a `u64` in
/// the host's byte order when there are exactly eight of them. Which of the
/// two byte orders applies depends on the machine and is not stated.
#[verifier::external_body]
fn read_header_word(bytes: &[u8]) -> (r: Option<u64>)
    ensures
        r is Some <==> bytes@.len() == 8,
        r matches Some(w) ==> spec_word_in_either_order(w, bytes@),
{
    <u64 as zerocopy::FromBytes>::read_from(bytes)
}

/// zerocopy's `AsBytes::as_bytes` on `u64`: the eight bytes of the word in
/// the host's byte order. Which of the two byte orders applies depends on the
/// machine and is not stated.
#[verifier::external_body]
fn header_word_bytes(w: &u64) -> (b: Vec<u8>)
    ensures
        spec_bytes_in_either_order(b@, *w),
{
    zerocopy::AsBytes::as_bytes(w).to_vec()
}

impl ChdrPacket {
    /// An empty packet with a zero header.
    pub fn new() -> (p: Self)
        ensures
            p.header.header == 0,
            p.timestamp is None,
            p.payload@.len() == 0,
    {
        Self { header: ChdrHeader::new(), timestamp: None, payload: Vec::new() }
    }

    /// Parse a packet from bytes: the header word, then the timestamp word if
    /// the header's packet type announces one, then the payload.
    pub fn parse(data: &[u8]) -> (r: Result<Self, Error>)
        ensures
            data@.len() < 8 ==> r is Err && is_processing_error(r->Err_0, "Packet too small"@),
            data@.len() >= 8 ==> match r {
                Ok(p) => spec_word_in_either_order(p.header.header, data@.subrange(0, 8))
                    && spec_parse_body(p.header.spec_packet_type() == PacketType::DataWithTs, data@)
                    == Some((p.timestamp, p.payload@)),
                Err(e) => is_processing_error(e, "Packet too small for timestamp"@) && exists|w: u64|
                    spec_word_in_either_order(w, data@.subrange(0, 8)) && spec_packet_type_of_code(
                        spec_type_bits(w),
                    ) == PacketType::DataWithTs && data@.len() < 16,
            },
    {
        if data.len() < 8 {
            return Err(Error::ProcessingError("Packet too small".to_owned()));
        }
        let header_bytes = slice_subrange(data, 0, 8);
        let word = match read_header_word(header_bytes) {
            Some(w) => w,
            None => {
                return Err(Error::ProcessingError("Invalid header".to_owned()));
            },
        };
        Self::parse_with_header(ChdrHeader { header: word }, data)
    }

    /// Parse what follows the eight header bytes of `data`, for a header word
    /// already read from them.
    pub fn parse_with_header(header: ChdrHeader, data: &[u8]) -> (r: Result<Self, Error>)
        requires
            data@.len() >= 8,
        ensures
            match spec_parse_body(header.spec_packet_type() == PacketType::DataWithTs, data@) {
                Some((ts, payload)) => r is Ok && r->Ok_0.header == header && r->Ok_0.timestamp
                    == ts && r->Ok_0.payload@ == payload,
                None => r is Err && is_processing_error(
                    r->Err_0,
                    "Packet too small for timestamp"@,
                ),
            },
    {
        let mut offset: usize = 8;
        let timestamp = if header.has_timestamp() {
            if data.len() < 16 {
                return Err(Error::ProcessingError("Packet too small for timestamp".to_owned()));
            }
            let ts = u64_from_le_bytes(slice_subrange(data, 8, 16));
            offset = 16;
            Some(ts)
        } else {
            None
        };
        let payload = slice_to_vec(slice_subrange(data, offset, data.len()));
        Ok(Self { header, timestamp, payload })
    }

    /// Serialize: the header word in host byte order, the timestamp word (if
    /// any) little endian, then the payload.
    pub fn to_bytes(&self) -> (b: Vec<u8>)
        ensures
            exists|hb: Seq<u8>|
                spec_bytes_in_either_order(hb, self.header.header) && b@ == spec_frame(
                    hb,
                    self.timestamp,
                    self.payload@,
                ),
    {
        let hb = header_word_bytes(&self.header.header);
        let b = self.to_bytes_with_header(&hb);
        assert(spec_bytes_in_either_order(hb@, self.header.header));
        b
    }

    /// Serialize with the given header bytes in front of the timestamp word
    /// (if any) and the payload.
    pub fn to_bytes_with_header(&self, header_bytes: &[u8]) -> (b: Vec<u8>)
        ensures
            b@ == spec_frame(header_bytes@, self.timestamp, self.payload@),
    {
        let mut bytes: Vec<u8> = Vec::new();
        bytes.extend_from_slice(header_bytes);
        if let Some(ts) = self.timestamp {
            let tb = u64_to_le_bytes(ts);
            bytes.extend_from_slice(tb.as_slice());
        }
        bytes.extend_from_slice(self.payload.as_slice());
        assert(bytes@ =~= spec_frame(header_bytes@, self.timestamp, self.payload@));
        bytes
    }
}

impl Default for ChdrPacket {
    fn default() -> (p: Self)
        ensures
            p.header.header == 0,
            p.timestamp is None,
            p.payload@.len() == 0,
    {
        Self::new()
    }
}

/// Framing a timestamp and payload behind any eight header bytes and parsing
/// the result back gives the same timestamp and payload, provided the
/// timestamp is present exactly when the header announces one.
pub proof fn lemma_frame_then_parse(
    header_bytes: Seq<u8>,
    ts: Option<u64>,
    payload: Seq<u8>,
    has_ts: bool,
)
    requires
        header_bytes.len() == 8,
        ts is Some <==> has_ts,
    ensures
        spec_parse_body(has_ts, spec_frame(header_bytes, ts, payload)) == Some((ts, payload)),
{
    lemma_auto_spec_u64_to_from_le_bytes();
    let f = spec_frame(header_bytes, ts, payload);
    if has_ts {
        let t = ts->0;
        assert(f.subrange(8, 16) =~= spec_u64_to_le_bytes(t));
        assert(f.subrange(16, f.len() as int) =~= payload);
    } else {
        assert(f.subrange(8, f.len() as int) =~= payload);
    }
}

/// Parsing bytes and framing the parts back behind the same eight header
/// bytes gives the bytes that were parsed.
pub proof fn lemma_parse_then_frame(has_ts: bool, data: Seq<u8>)
    requires
        data.len() >= 8,
        spec_parse_body(has_ts, data) is Some,
    ensures
        ({
            let (ts, payload) = spec_parse_body(has_ts, data)->0;
            spec_frame(data.subrange(0, 8), ts, payload) == data
        }),
{
    lemma_auto_spec_u64_to_from_le_bytes();
    let (ts, payload) = spec_parse_body(has_ts, data)->0;
    if has_ts {
        assert(spec_u64_to_le_bytes(spec_u64_from_le_bytes(data.subrange(8, 16))) == data.subrange(
            8,
            16,
        ));
    }
    assert(spec_frame(data.subrange(0, 8), ts, payload) =~= data);
}

/// Whichever byte order the host uses, reading back the memory image of a
/// header word in that order gives the word again.
pub proof fn lemma_header_word_image(w: u64)
    ensures
        spec_u64_from_le_bytes(spec_u64_to_le_bytes(w)) == w,
        spec_u64_from_be_bytes(spec_u64_to_le_bytes(w).reverse()) == w,
{
    lemma_auto_spec_u64_to_from_le_bytes();
    assert(spec_u64_to_le_bytes(w).reverse().reverse() =~= spec_u64_to_le_bytes(w));
}

proof fn lemma_type_field(h: u64, c: u64)
    requires
        c < 8,
    ensures
        ({
            let n = (h & !(0x7u64 << 53u64)) | ((c & 0x7u64) << 53u64);
            &&& (n >> 53u64) & 0x7u64 == c
            &&& (n >> 16u64) & 0xFFFFu64 == (h >> 16u64) & 0xFFFFu64
            &&& (n >> 32u64) & 0xFFFFu64 == (h >> 32u64) & 0xFFFFu64
            &&& n & 0xFFFFu64 == h & 0xFFFFu64
            &&& (n >> 57u64) & 0x1u64 == (h >> 57u64) & 0x1u64
        }),
{
    assert(c < 8 ==> ((((h & !(0x7u64 << 53u64)) | ((c & 0x7u64) << 53u64)) >> 53u64) & 0x7u64
        == c)) by (bit_vector);
    assert(((((h & !(0x7u64 << 53u64)) | ((c & 0x7u64) << 53u64)) >> 16u64) & 0xFFFFu64 == (h
        >> 16u64) & 0xFFFFu64)) by (bit_vector);
    assert(((((h & !(0x7u64 << 53u64)) | ((c & 0x7u64) << 53u64)) >> 32u64) & 0xFFFFu64 == (h
        >> 32u64) & 0xFFFFu64)) by (bit_vector);
    assert((((h & !(0x7u64 << 53u64)) | ((c & 0x7u64) << 53u64)) & 0xFFFFu64 == h & 0xFFFFu64))
        by (bit_vector);
    assert(((((h & !(0x7u64 << 53u64)) | ((c & 0x7u64) << 53u64)) >> 57u64) & 0x1u64 == (h
        >> 57u64) & 0x1u64)) by (bit_vector);
}

/// Writing a packet type and reading it back gives that packet type, and the
/// length, sequence number, endpoint id and end-of-burst fields are untouched.
pub proof fn lemma_set_packet_type_get(h: u64, t: PacketType)
    ensures
        spec_packet_type_of_code(spec_type_bits(spec_with_packet_type(h, t))) == t,
        spec_length_bits(spec_with_packet_type(h, t)) == spec_length_bits(h),
        spec_seq_bits(spec_with_packet_type(h, t)) == spec_seq_bits(h),
        spec_epid_bits(spec_with_packet_type(h, t)) == spec_epid_bits(h),
        spec_eob_bit(spec_with_packet_type(h, t)) == spec_eob_bit(h),
{
    lemma_type_field(h, spec_packet_type_code(t));
}

/// Writing a length and reading it back gives that length, and the other
/// fields are untouched.
pub proof fn lemma_set_length_get(h: u64, length: u16)
    ensures
        spec_length_bits(spec_with_length(h, length)) == length,
        spec_type_bits(spec_with_length(h, length)) == spec_type_bits(h),
        spec_seq_bits(spec_with_length(h, length)) == spec_seq_bits(h),
        spec_epid_bits(spec_with_length(h, length)) == spec_epid_bits(h),
        spec_eob_bit(spec_with_length(h, length)) == spec_eob_bit(h),
{
    let l = length as u64;
    assert(l < 0x10000 ==> ((((h & !(0xFFFFu64 << 16u64)) | ((l & 0xFFFFu64) << 16u64)) >> 16u64)
        & 0xFFFFu64 == l)) by (bit_vector);
    assert(((((h & !(0xFFFFu64 << 16u64)) | ((l & 0xFFFFu64) << 16u64)) >> 53u64) & 0x7u64 == (h
        >> 53u64) & 0x7u64)) by (bit_vector);
    assert(((((h & !(0xFFFFu64 << 16u64)) | ((l & 0xFFFFu64) << 16u64)) >> 32u64) & 0xFFFFu64
        == (h >> 32u64) & 0xFFFFu64)) by (bit_vector);
    assert((((h & !(0xFFFFu64 << 16u64)) | ((l & 0xFFFFu64) << 16u64)) & 0xFFFFu64 == h
        & 0xFFFFu64)) by (bit_vector);
    assert(((((h & !(0xFFFFu64 << 16u64)) | ((l & 0xFFFFu64) << 16u64)) >> 57u64) & 0x1u64 == (h
        >> 57u64) & 0x1u64)) by (bit_vector);
}

/// Writing a sequence number and reading it back gives that number, and the
/// other fields are untouched.
pub proof fn lemma_set_seq_num_get(h: u64, seq_num: u16)
    ensures
        spec_seq_bits(spec_with_seq_num(h, seq_num)) == seq_num,
        spec_type_bits(spec_with_seq_num(h, seq_num)) == spec_type_bits(h),
        spec_length_bits(spec_with_seq_num(h, seq_num)) == spec_length_bits(h),
        spec_epid_bits(spec_with_seq_num(h, seq_num)) == spec_epid_bits(h),
        spec_eob_bit(spec_with_seq_num(h, seq_num)) == spec_eob_bit(h),
{
    let s = seq_num as u64;
    assert(s < 0x10000 ==> ((((h & !(0xFFFFu64 << 32u64)) | ((s & 0xFFFFu64) << 32u64)) >> 32u64)
        & 0xFFFFu64 == s)) by (bit_vector);
    assert(((((h & !(0xFFFFu64 << 32u64)) | ((s & 0xFFFFu64) << 32u64)) >> 53u64) & 0x7u64 == (h
        >> 53u64) & 0x7u64)) by (bit_vector);
    assert(((((h & !(0xFFFFu64 << 32u64)) | ((s & 0xFFFFu64) << 32u64)) >> 16u64) & 0xFFFFu64
        == (h >> 16u64) & 0xFFFFu64)) by (bit_vector);
    assert((((h & !(0xFFFFu64 << 32u64)) | ((s & 0xFFFFu64) << 32u64)) & 0xFFFFu64 == h
        & 0xFFFFu64)) by (bit_vector);
    assert(((((h & !(0xFFFFu64 << 32u64)) | ((s & 0xFFFFu64) << 32u64)) >> 57u64) & 0x1u64 == (h
        >> 57u64) & 0x1u64)) by (bit_vector);
}

/// The CHDR wire codes of the packet types, in both directions: a header
/// whose bits 53..=55 hold 0x0, 0x1, 0x2, 0x4, 0x6 or 0x7 announces
/// Management, StreamStatus, StreamCommand, Control, DataNoTs or DataWithTs,
/// and setting a packet type writes exactly that code into those bits.
pub proof fn lemma_packet_type_wire_codes(h: u64, t: PacketType)
    ensures
        (h >> 53u64) & 0x7u64 == 0x0 ==> (ChdrHeader { header: h }).spec_packet_type()
            == PacketType::Management,
        (h >> 53u64) & 0x7u64 == 0x1 ==> (ChdrHeader { header: h }).spec_packet_type()
            == PacketType::StreamStatus,
        (h >> 53u64) & 0x7u64 == 0x2 ==> (ChdrHeader { header: h }).spec_packet_type()
            == PacketType::StreamCommand,
        (h >> 53u64) & 0x7u64 == 0x4 ==> (ChdrHeader { header: h }).spec_packet_type()
            == PacketType::Control,
        (h >> 53u64) & 0x7u64 == 0x6 ==> (ChdrHeader { header: h }).spec_packet_type()
            == PacketType::DataNoTs,
        (h >> 53u64) & 0x7u64 == 0x7 ==> (ChdrHeader { header: h }).spec_packet_type()
            == PacketType::DataWithTs,
        t == PacketType::Management ==> (spec_with_packet_type(h, t) >> 53u64) & 0x7u64 == 0x0,
        t == PacketType::StreamStatus ==> (spec_with_packet_type(h, t) >> 53u64) & 0x7u64 == 0x1,
        t == PacketType::StreamCommand ==> (spec_with_packet_type(h, t) >> 53u64) & 0x7u64
            == 0x2,
        t == PacketType::Control ==> (spec_with_packet_type(h, t) >> 53u64) & 0x7u64 == 0x4,
        t == PacketType::DataNoTs ==> (spec_with_packet_type(h, t) >> 53u64) & 0x7u64 == 0x6,
        t == PacketType::DataWithTs ==> (spec_with_packet_type(h, t) >> 53u64) & 0x7u64 == 0x7,
{
    let c = spec_packet_type_code(t);
    if c < 8 {
        lemma_type_field(h, c);
    }
}

} // verus!
