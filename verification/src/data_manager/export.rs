//! Export formats and the per-packet computations that the exporters make:
//! format names, file and dataset names, and sample extraction.

use vstd::prelude::*;
use vstd::slice::{slice_subrange, slice_to_vec};

use crate::data_manager::capture::PacketBuffer;
use crate::error::{Error, is_validation_error};
use crate::text::{
    push_decimal, push_str, push_zero_padded, spec_decimal, spec_to_lowercase, spec_zero_pad,
    str_eq, str_to_lowercase,
};

verus! {

/// Export format types
#[derive(Debug, Clone, Copy, PartialEq, Eq, Structural)]
pub enum ExportFormat {
    /// CSV format
    Csv,
    /// MATLAB .mat format (HDF5-based)
    Matlab,
    /// HDF5 format
    Hdf5,
    /// Raw binary
    Raw,
    /// JSON format
    Json,
}

/// The format that a lower-case name denotes, if any.
pub open spec fn spec_format_of_name(name: Seq<char>) -> Option<ExportFormat> {
    if name == "csv"@ {
        Some(ExportFormat::Csv)
    } else if name == "matlab"@ || name == "mat"@ {
        Some(ExportFormat::Matlab)
    } else if name == "hdf5"@ || name == "h5"@ {
        Some(ExportFormat::Hdf5)
    } else if name == "raw"@ || name == "bin"@ {
        Some(ExportFormat::Raw)
    } else if name == "json"@ {
        Some(ExportFormat::Json)
    } else {
        None
    }
}

impl ExportFormat {
    /// Parse a format name, ignoring case: "csv", "matlab" or "mat",
    /// "hdf5" or "h5", "raw" or "bin", "json".
    pub fn parse_name(s: &str) -> (r: Result<Self, Error>)
        ensures
            match spec_format_of_name(spec_to_lowercase(s@)) {
                Some(f) => r == Ok::<ExportFormat, Error>(f),
                None => r is Err && is_validation_error(
                    r->Err_0,
                    "Unknown export format: "@ + s@,
                ),
            },
    {
        let lowered = str_to_lowercase(s);
        Self::parse_lowercase_name(lowered.as_str(), s)
    }

    /// Parse an already lower-cased format name; `input` is the name as the
    /// user gave it, quoted in the error.
    pub fn parse_lowercase_name(name: &str, input: &str) -> (r: Result<Self, Error>)
        ensures
            match spec_format_of_name(name@) {
                Some(f) => r == Ok::<ExportFormat, Error>(f),
                None => r is Err && is_validation_error(
                    r->Err_0,
                    "Unknown export format: "@ + input@,
                ),
            },
    {
        if str_eq(name, "csv") {
            Ok(ExportFormat::Csv)
        } else if str_eq(name, "matlab") || str_eq(name, "mat") {
            Ok(ExportFormat::Matlab)
        } else if str_eq(name, "hdf5") || str_eq(name, "h5") {
            Ok(ExportFormat::Hdf5)
        } else if str_eq(name, "raw") || str_eq(name, "bin") {
            Ok(ExportFormat::Raw)
        } else if str_eq(name, "json") {
            Ok(ExportFormat::Json)
        } else {
            let mut msg = "Unknown export format: ".to_owned();
            push_str(&mut msg, input);
            Err(Error::ValidationError(msg))
        }
    }
}

/// The format that a command-line format name denotes, if any: the
/// command line takes "csv", "matlab" or "mat", "hdf5" or "h5", as written.
pub open spec fn spec_cli_format_of_name(name: Seq<char>) -> Option<ExportFormat> {
    if name == "csv"@ {
        Some(ExportFormat::Csv)
    } else if name == "matlab"@ || name == "mat"@ {
        Some(ExportFormat::Matlab)
    } else if name == "hdf5"@ || name == "h5"@ {
        Some(ExportFormat::Hdf5)
    } else {
        None
    }
}

impl ExportFormat {
    /// The export format named on the command line of the export mode.
    pub fn from_cli_name(format: &str) -> (r: Result<Self, Error>)
        ensures
            match spec_cli_format_of_name(format@) {
                Some(f) => r == Ok::<ExportFormat, Error>(f),
                None => r is Err && is_validation_error(r->Err_0, "Unknown format: "@ + format@),
            },
    {
        if str_eq(format, "csv") {
            Ok(ExportFormat::Csv)
        } else if str_eq(format, "matlab") || str_eq(format, "mat") {
            Ok(ExportFormat::Matlab)
        } else if str_eq(format, "hdf5") || str_eq(format, "h5") {
            Ok(ExportFormat::Hdf5)
        } else {
            let mut msg = "Unknown format: ".to_owned();
            push_str(&mut msg, format);
            Err(Error::ValidationError(msg))
        }
    }
}

impl std::str::FromStr for ExportFormat {
    type Err = Error;

    /// Parse a format name, ignoring case, as `parse_name` does.
    fn from_str(s: &str) -> (r: Result<Self, Error>)
        ensures
            match spec_format_of_name(spec_to_lowercase(s@)) {
                Some(f) => r == Ok::<ExportFormat, Error>(f),
                None => r is Err && is_validation_error(
                    r->Err_0,
                    "Unknown export format: "@ + s@,
                ),
            },
    {
        Self::parse_name(s)
    }
}

/// The letters of the format names.
proof fn lemma_format_name_letters()
    ensures
        "csv"@.len() == 3,
        "csv"@[0] == 'c',
        "csv"@[1] == 's',
        "csv"@[2] == 'v',
        "matlab"@.len() == 6,
        "matlab"@[0] == 'm',
        "matlab"@[1] == 'a',
        "matlab"@[2] == 't',
        "matlab"@[3] == 'l',
        "matlab"@[4] == 'a',
        "matlab"@[5] == 'b',
        "mat"@.len() == 3,
        "mat"@[0] == 'm',
        "mat"@[1] == 'a',
        "mat"@[2] == 't',
        "hdf5"@.len() == 4,
        "hdf5"@[0] == 'h',
        "hdf5"@[1] == 'd',
        "hdf5"@[2] == 'f',
        "hdf5"@[3] == '5',
        "h5"@.len() == 2,
        "h5"@[0] == 'h',
        "h5"@[1] == '5',
        "raw"@.len() == 3,
        "raw"@[0] == 'r',
        "raw"@[1] == 'a',
        "raw"@[2] == 'w',
        "bin"@.len() == 3,
        "bin"@[0] == 'b',
        "bin"@[1] == 'i',
        "bin"@[2] == 'n',
        "json"@.len() == 4,
        "json"@[0] == 'j',
        "json"@[1] == 's',
        "json"@[2] == 'o',
        "json"@[3] == 'n',
{
    reveal_strlit("csv");
    reveal_strlit("matlab");
    reveal_strlit("mat");
    reveal_strlit("hdf5");
    reveal_strlit("h5");
    reveal_strlit("raw");
    reveal_strlit("bin");
    reveal_strlit("json");
}

/// Each export format has its own names and no name denotes two formats:
/// "csv" is CSV, "matlab" and "mat" MATLAB, "hdf5" and "h5" HDF5, "raw" and
/// "bin" raw, "json" JSON.
pub proof fn lemma_format_names(name: Seq<char>)
    ensures
        spec_format_of_name(name) == Some(ExportFormat::Csv) <==> name == "csv"@,
        spec_format_of_name(name) == Some(ExportFormat::Matlab) <==> (name == "matlab"@ || name
            == "mat"@),
        spec_format_of_name(name) == Some(ExportFormat::Hdf5) <==> (name == "hdf5"@ || name
            == "h5"@),
        spec_format_of_name(name) == Some(ExportFormat::Raw) <==> (name == "raw"@ || name
            == "bin"@),
        spec_format_of_name(name) == Some(ExportFormat::Json) <==> name == "json"@,
{
    lemma_format_name_letters();
}

/// The command line names CSV by "csv", MATLAB by "matlab" or "mat" and HDF5
/// by "hdf5" or "h5", and nothing else; each of these names means on the
/// command line what it means to `parse_name`.
pub proof fn lemma_cli_format_names(name: Seq<char>)
    ensures
        spec_cli_format_of_name(name) == Some(ExportFormat::Csv) <==> name == "csv"@,
        spec_cli_format_of_name(name) == Some(ExportFormat::Matlab) <==> (name == "matlab"@
            || name == "mat"@),
        spec_cli_format_of_name(name) == Some(ExportFormat::Hdf5) <==> (name == "hdf5"@ || name
            == "h5"@),
        spec_cli_format_of_name(name) != Some(ExportFormat::Raw),
        spec_cli_format_of_name(name) != Some(ExportFormat::Json),
        spec_cli_format_of_name(name) is Some ==> spec_cli_format_of_name(name)
            == spec_format_of_name(name),
{
    lemma_format_name_letters();
}

/// The value of two bytes read as a little-endian two's-complement `i16`.
pub open spec fn spec_i16_le(lo: u8, hi: u8) -> i16 {
    let v = lo + 256 * hi;
    if v >= 32768 {
        (v - 65536) as i16
    } else {
        v as i16
    }
}

/// The little-endian `i16` of two bytes, as `i16::from_le_bytes` reads it.
fn i16_from_le(lo: u8, hi: u8) -> (v: i16)
    ensures
        v == spec_i16_le(lo, hi),
{
    let v: i32 = lo as i32 + 256 * (hi as i32);
    if v >= 32768 {
        (v - 65536) as i16
    } else {
        v as i16
    }
}

/// The complex sample at index `k` of sc16 data: I then Q, each a
/// little-endian `i16`.
pub open spec fn spec_sc16_sample(data: Seq<u8>, k: int) -> (i16, i16) {
    (spec_i16_le(data[4 * k], data[4 * k + 1]), spec_i16_le(data[4 * k + 2], data[4 * k + 3]))
}

/// The first sc16 sample of the data, or (0, 0) when it holds less than one
/// sample.
pub fn first_sample(data: &[u8]) -> (s: (i16, i16))
    ensures
        data@.len() >= 4 ==> s == spec_sc16_sample(data@, 0),
        data@.len() < 4 ==> s == (0i16, 0i16),
{
    if data.len() >= 4 {
        (i16_from_le(data[0], data[1]), i16_from_le(data[2], data[3]))
    } else {
        (0, 0)
    }
}

/// The sc16 samples of the data, in order, at most `max_samples` of them; a
/// trailing partial sample is ignored.
pub fn sc16_samples(data: &[u8], max_samples: usize) -> (v: Vec<(i16, i16)>)
    ensures
        v@.len() == if data@.len() / 4 < max_samples { (data@.len() / 4) as int } else { max_samples as int },
        forall|k: int| 0 <= k < v@.len() ==> v@[k] == spec_sc16_sample(data@, k),
{
    let n = data.len() / 4;
    let m = if n < max_samples { n } else { max_samples };
    let mut v: Vec<(i16, i16)> = Vec::new();
    let ghost len = data@.len();
    assert(4 * n <= len) by (nonlinear_arith)
        requires
            n == len / 4,
    ;
    for k in 0..m
        invariant
            m <= n,
            n == data@.len() / 4,
            4 * n <= data@.len(),
            data@.len() == data.len(),
            v@.len() == k,
            forall|j: int| 0 <= j < k ==> v@[j] == spec_sc16_sample(data@, j),
    {
        assert(4 * k + 3 < 4 * n);
        let base = 4 * k;
        let i = i16_from_le(data[base], data[base + 1]);
        let q = i16_from_le(data[base + 2], data[base + 3]);
        v.push((i, q));
    }
    v
}

/// The bytes of a captured packet that hold samples: what follows the CHDR
/// header (16 bytes with a timestamp, 8 without), or nothing when the packet
/// is no longer than that.
pub open spec fn spec_raw_samples(packet: PacketBuffer) -> Seq<u8> {
    let start: int = if packet.timestamp is Some { 16 } else { 8 };
    if packet.data@.len() > start {
        packet.data@.subrange(start, packet.data@.len() as int)
    } else {
        Seq::empty()
    }
}

/// The sample bytes of a captured packet, as raw export writes them.
pub fn raw_samples(packet: &PacketBuffer) -> (b: Vec<u8>)
    ensures
        b@ == spec_raw_samples(*packet),
{
    let sample_start: usize = if packet.timestamp.is_some() { 16 } else { 8 };
    if packet.data.len() > sample_start {
        slice_to_vec(slice_subrange(packet.data.as_slice(), sample_start, packet.data.len()))
    } else {
        Vec::new()
    }
}

/// `prefix` followed by the decimal numeral of `n` and `suffix`.
pub open spec fn spec_numbered_name(prefix: Seq<char>, n: nat, suffix: Seq<char>) -> Seq<char> {
    prefix + spec_decimal(n) + suffix
}

/// The capture file of a stream: "stream_<id>.dat".
pub fn stream_file_name(stream_id: usize) -> (s: String)
    ensures
        s@ == spec_numbered_name("stream_"@, stream_id as nat, ".dat"@),
{
    let mut s = "stream_".to_owned();
    push_decimal(&mut s, stream_id as u64);
    push_str(&mut s, ".dat");
    s
}

/// The group of a stream in an HDF5 or MATLAB export: "stream_<id>".
pub fn stream_group_name(stream_id: usize) -> (s: String)
    ensures
        s@ == "stream_"@ + spec_decimal(stream_id as nat),
{
    let mut s = "stream_".to_owned();
    push_decimal(&mut s, stream_id as u64);
    s
}

/// The dataset of a packet in an HDF5 export: "packet_" and the packet index
/// zero-padded to six digits.
pub fn packet_dataset_name(index: usize) -> (s: String)
    ensures
        s@ == "packet_"@ + spec_zero_pad(spec_decimal(index as nat), 6),
{
    let mut digits = String::new();
    push_decimal(&mut digits, index as u64);
    assert(Seq::<char>::empty() + spec_decimal(index as nat) =~= spec_decimal(index as nat));
    let mut s = "packet_".to_owned();
    push_zero_padded(&mut s, digits.as_str(), 6);
    s
}

} // verus!
