//! The record format of capture files: each packet is stored as its length,
//! a little-endian `u32`, followed by its bytes.

use vstd::prelude::*;
use vstd::bytes::{
    lemma_auto_spec_u32_to_from_le_bytes, spec_u32_from_le_bytes, spec_u32_to_le_bytes,
    u32_from_le_bytes, u32_to_le_bytes,
};

verus! {

/// The length prefix of a record holding `len` bytes: `len` truncated to 32
/// bits, little endian.
pub open spec fn spec_record_prefix(len: nat) -> Seq<u8> {
    spec_u32_to_le_bytes((len % 0x1_0000_0000) as u32)
}

/// A stored record: its length prefix, then its bytes.
pub open spec fn spec_record(data: Seq<u8>) -> Seq<u8> {
    spec_record_prefix(data.len()) + data
}

/// The record of a packet's bytes, as the capture file writer stores it.
/// The number of bytes written is the record's length, the data's plus four.
pub fn encode_record(data: &[u8]) -> (r: Vec<u8>)
    ensures
        r@ == spec_record(data@),
        r@.len() == data@.len() + 4,
{
    proof {
        lemma_auto_spec_u32_to_from_le_bytes();
    }
    let size = data.len();
    let prefix = u32_to_le_bytes((size as u64 % 0x1_0000_0000u64) as u32);
    let mut r = prefix;
    r.extend_from_slice(data);
    r
}

/// The payload length that a record's four-byte prefix announces.
pub fn record_payload_len(prefix: &[u8]) -> (n: usize)
    requires
        prefix@.len() == 4,
    ensures
        n == spec_u32_from_le_bytes(prefix@),
{
    u32_from_le_bytes(prefix) as usize
}

/// Reading back the prefix of a stored record gives the length of its data,
/// for data shorter than 2^32 bytes, and the bytes after the prefix are the
/// data.
pub proof fn lemma_record_roundtrip(data: Seq<u8>)
    requires
        data.len() < 0x1_0000_0000,
    ensures
        spec_u32_from_le_bytes(spec_record(data).subrange(0, 4)) == data.len(),
        spec_record(data).subrange(4, spec_record(data).len() as int) == data,
{
    lemma_auto_spec_u32_to_from_le_bytes();
    let r = spec_record(data);
    assert(r.subrange(0, 4) =~= spec_record_prefix(data.len()));
    assert(r.subrange(4, r.len() as int) =~= data);
}

/// Records laid end to end, first payload first.
pub open spec fn spec_records(payloads: Seq<Seq<u8>>) -> Seq<u8>
    decreases payloads.len(),
{
    if payloads.len() == 0 {
        Seq::empty()
    } else {
        spec_record(payloads[0]) + spec_records(payloads.drop_first())
    }
}

/// The payloads that reading records one after another from `bytes` gives:
/// each time a four-byte length prefix, then that many bytes; reading stops
/// where fewer than four bytes, or fewer bytes than announced, are left.
pub open spec fn spec_read_records(bytes: Seq<u8>) -> Seq<Seq<u8>>
    decreases bytes.len(),
{
    if bytes.len() < 4 {
        Seq::empty()
    } else {
        let n = spec_u32_from_le_bytes(bytes.subrange(0, 4)) as int;
        if bytes.len() - 4 < n {
            Seq::empty()
        } else {
            seq![bytes.subrange(4, 4 + n)] + spec_read_records(bytes.subrange(4 + n, bytes.len() as int))
        }
    }
}

/// Reading records back from payloads stored one after another, each shorter
/// than 2^32 bytes, gives the payloads in order, and reading stops at the
/// end of the last record.
pub proof fn lemma_records_roundtrip(payloads: Seq<Seq<u8>>)
    requires
        forall|i: int| 0 <= i < payloads.len() ==> (#[trigger] payloads[i]).len() < 0x1_0000_0000,
    ensures
        spec_read_records(spec_records(payloads)) == payloads,
    decreases payloads.len(),
{
    if payloads.len() == 0 {
        assert(spec_records(payloads).len() == 0);
        assert(spec_read_records(spec_records(payloads)) =~= payloads);
    } else {
        let p = payloads[0];
        let rest = payloads.drop_first();
        assert forall|i: int| 0 <= i < rest.len() implies (#[trigger] rest[i]).len() < 0x1_0000_0000 by {
            assert(rest[i] == payloads[i + 1]);
        }
        lemma_records_roundtrip(rest);
        lemma_record_roundtrip(p);
        lemma_auto_spec_u32_to_from_le_bytes();
        let r = spec_record(p);
        let b = spec_records(payloads);
        assert(b == r + spec_records(rest));
        assert(r.len() == p.len() + 4);
        assert(b.subrange(0, 4) =~= r.subrange(0, 4));
        let n = p.len() as int;
        assert(spec_u32_from_le_bytes(b.subrange(0, 4)) as int == n);
        assert(b.subrange(4, 4 + n) =~= r.subrange(4, r.len() as int));
        assert(b.subrange(4 + n, b.len() as int) =~= spec_records(rest));
        assert(spec_read_records(b) == seq![p] + spec_read_records(spec_records(rest)));
        assert(seq![p] + rest =~= payloads);
    }
}

} // verus!
