//! Argument builders, receive metadata and stream command encoding for the
//! UHD RFNoC API.

pub mod rx_error;
pub mod stream_mode;

use vstd::prelude::*;

use crate::hardware::TimeSpec;
use crate::text::{push_char, push_decimal, push_str, spec_decimal};

verus! {

/// A `key=value` argument list, viewed as its entries in order.
pub type ArgEntries = Seq<(Seq<char>, Seq<char>)>;

/// The entries of an argument vector, as character sequences.
pub open spec fn spec_entries(v: Seq<(String, String)>) -> ArgEntries {
    v.map_values(|e: (String, String)| (e.0@, e.1@))
}

/// No key occurs twice.
pub open spec fn spec_keys_distinct(s: ArgEntries) -> bool {
    forall|i: int, j: int| 0 <= i < j < s.len() ==> s[i].0 != s[j].0
}

/// Whether some entry has key `k`.
pub open spec fn spec_has_key(s: ArgEntries, k: Seq<char>) -> bool {
    exists|i: int| 0 <= i < s.len() && s[i].0 == k
}

/// Set `k` to `v`: the entry with key `k` gets the new value in place, or a
/// new entry goes at the end when there is none.
pub open spec fn spec_insert(s: ArgEntries, k: Seq<char>, v: Seq<char>) -> ArgEntries {
    if spec_has_key(s, k) {
        s.update(choose|i: int| 0 <= i < s.len() && s[i].0 == k, (k, v))
    } else {
        s.push((k, v))
    }
}

/// The text `key=value` of one entry.
pub open spec fn spec_entry_text(e: (Seq<char>, Seq<char>)) -> Seq<char> {
    e.0 + seq!['='] + e.1
}

/// The entries' texts joined with commas.
pub open spec fn spec_join_entries(s: ArgEntries) -> Seq<char>
    decreases s.len(),
{
    if s.len() == 0 {
        Seq::empty()
    } else if s.len() == 1 {
        spec_entry_text(s[0])
    } else {
        spec_join_entries(s.drop_last()) + seq![','] + spec_entry_text(s.last())
    }
}

fn insert_entry(args: &mut Vec<(String, String)>, key: String, value: String)
    requires
        spec_keys_distinct(spec_entries(old(args)@)),
    ensures
        spec_entries(final(args)@) == spec_insert(spec_entries(old(args)@), key@, value@),
        spec_keys_distinct(spec_entries(final(args)@)),
{
    let ghost s = spec_entries(args@);
    let n = args.len();
    let mut i: usize = 0;
    while i < n
        invariant
            n == args.len(),
            args@ == old(args)@,
            s == spec_entries(args@),
            spec_keys_distinct(s),
            i <= n,
            forall|j: int| 0 <= j < i ==> s[j].0 != key@,
        decreases n - i,
    {
        if args[i].0 == key {
            proof {
                let c = choose|c: int| 0 <= c < s.len() && s[c].0 == key@;
                assert(s[i as int].0 == key@);
                assert(c == i);
            }
            args.set(i, (key, value));
            assert(spec_entries(args@) =~= spec_insert(s, key@, value@));
            return;
        }
        i = i + 1;
    }
    args.push((key, value));
    assert(spec_entries(args@) =~= spec_insert(s, key@, value@));
}

fn join_entries(args: &Vec<(String, String)>) -> (r: String)
    ensures
        r@ == spec_join_entries(spec_entries(args@)),
{
    let ghost s = spec_entries(args@);
    let mut r = String::new();
    let n = args.len();
    for i in 0..n
        invariant
            n == args.len(),
            s == spec_entries(args@),
            r@ == spec_join_entries(s.take(i as int)),
    {
        let ghost before = r@;
        if i > 0 {
            push_char(&mut r, ',');
        }
        push_str(&mut r, args[i].0.as_str());
        push_char(&mut r, '=');
        push_str(&mut r, args[i].1.as_str());
        assert(s.take(i + 1).drop_last() =~= s.take(i as int));
        assert(r@ =~= spec_join_entries(s.take(i + 1)));
    }
    assert(s.take(n as int) =~= s);
    r
}

/// Device arguments builder
pub struct DeviceArgs {
    args: Vec<(String, String)>,
}

impl View for DeviceArgs {
    type V = ArgEntries;

    closed spec fn view(&self) -> ArgEntries {
        spec_entries(self.args@)
    }
}

impl DeviceArgs {
    #[verifier::type_invariant]
    spec fn keys_distinct(self) -> bool {
        spec_keys_distinct(self@)
    }

    /// Create new device args
    pub fn new() -> (a: Self)
        ensures
            a@ == Seq::<(Seq<char>, Seq<char>)>::empty(),
    {
        let a = Self { args: Vec::new() };
        assert(a@ =~= Seq::<(Seq<char>, Seq<char>)>::empty());
        a
    }

    /// Set argument `key` to `value`, replacing an earlier value of that key.
    pub fn with_arg(self, key: &str, value: &str) -> (a: Self)
        ensures
            a@ == spec_insert(self@, key@, value@),
    {
        proof {
            use_type_invariant(&self);
        }
        let mut args = self.args;
        insert_entry(&mut args, key.to_owned(), value.to_owned());
        Self { args }
    }

    /// Set device address
    pub fn addr(self, addr: &str) -> (a: Self)
        ensures
            a@ == spec_insert(self@, seq!['a', 'd', 'd', 'r'], addr@),
    {
        let key = "addr";
        proof {
            reveal_strlit("addr");
            assert(key@ =~= seq!['a', 'd', 'd', 'r']);
        }
        self.with_arg(key, addr)
    }

    /// Set device type
    pub fn device_type(self, device_type: &str) -> (a: Self)
        ensures
            a@ == spec_insert(self@, seq!['t', 'y', 'p', 'e'], device_type@),
    {
        let key = "type";
        proof {
            reveal_strlit("type");
            assert(key@ =~= seq!['t', 'y', 'p', 'e']);
        }
        self.with_arg(key, device_type)
    }

    /// Build args string: the `key=value` entries joined with commas.
    pub fn build(&self) -> (s: String)
        ensures
            s@ == spec_join_entries(self@),
    {
        join_entries(&self.args)
    }
}

impl Default for DeviceArgs {
    fn default() -> (a: Self)
        ensures
            a@ == Seq::<(Seq<char>, Seq<char>)>::empty(),
    {
        Self::new()
    }
}

/// Stream arguments builder
pub struct StreamArgs {
    cpu_format: String,
    otw_format: String,
    channels: Vec<usize>,
    args: Vec<(String, String)>,
}

impl StreamArgs {
    #[verifier::type_invariant]
    spec fn keys_distinct(self) -> bool {
        spec_keys_distinct(spec_entries(self.args@))
    }

    /// The host-side sample format.
    pub closed spec fn spec_cpu_format(self) -> Seq<char> {
        self.cpu_format@
    }

    /// The over-the-wire sample format.
    pub closed spec fn spec_otw_format(self) -> Seq<char> {
        self.otw_format@
    }

    /// The channel list.
    pub closed spec fn spec_channels(self) -> Seq<usize> {
        self.channels@
    }

    /// The extra `key=value` arguments.
    pub closed spec fn spec_args(self) -> ArgEntries {
        spec_entries(self.args@)
    }

    /// Create new stream args: over-the-wire format "sc16", channel 0, no
    /// extra arguments.
    pub fn new(cpu_format: &str) -> (a: Self)
        ensures
            a.spec_cpu_format() == cpu_format@,
            a.spec_otw_format() == seq!['s', 'c', '1', '6'],
            a.spec_channels() == seq![0usize],
            a.spec_args() == Seq::<(Seq<char>, Seq<char>)>::empty(),
    {
        let otw = "sc16";
        proof {
            reveal_strlit("sc16");
        }
        let a = Self {
            cpu_format: cpu_format.to_owned(),
            otw_format: otw.to_owned(),
            channels: vec![0],
            args: Vec::new(),
        };
        assert(a.spec_args() =~= Seq::<(Seq<char>, Seq<char>)>::empty());
        a
    }

    /// Set over-the-wire format
    pub fn otw_format(self, format: &str) -> (a: Self)
        ensures
            a.spec_cpu_format() == self.spec_cpu_format(),
            a.spec_otw_format() == format@,
            a.spec_channels() == self.spec_channels(),
            a.spec_args() == self.spec_args(),
    {
        proof {
            use_type_invariant(&self);
        }
        Self {
            cpu_format: self.cpu_format,
            otw_format: format.to_owned(),
            channels: self.channels,
            args: self.args,
        }
    }

    /// Set channels
    pub fn channels(self, channels: Vec<usize>) -> (a: Self)
        ensures
            a.spec_cpu_format() == self.spec_cpu_format(),
            a.spec_otw_format() == self.spec_otw_format(),
            a.spec_channels() == channels@,
            a.spec_args() == self.spec_args(),
    {
        proof {
            use_type_invariant(&self);
        }
        Self {
            cpu_format: self.cpu_format,
            otw_format: self.otw_format,
            channels: channels,
            args: self.args,
        }
    }

    /// Set samples per packet: the argument `spp` with its decimal value.
    pub fn spp(self, spp: usize) -> (a: Self)
        ensures
            a.spec_cpu_format() == self.spec_cpu_format(),
            a.spec_otw_format() == self.spec_otw_format(),
            a.spec_channels() == self.spec_channels(),
            a.spec_args() == spec_insert(
                self.spec_args(),
                seq!['s', 'p', 'p'],
                spec_decimal(spp as nat),
            ),
    {
        proof {
            use_type_invariant(&self);
        }
        let mut value = String::new();
        push_decimal(&mut value, spp as u64);
        assert(Seq::<char>::empty() + spec_decimal(spp as nat) =~= spec_decimal(spp as nat));
        let key = "spp";
        proof {
            reveal_strlit("spp");
            assert(key@ =~= seq!['s', 'p', 'p']);
        }
        let mut args = self.args;
        insert_entry(&mut args, key.to_owned(), value);
        Self {
            cpu_format: self.cpu_format,
            otw_format: self.otw_format,
            channels: self.channels,
            args,
        }
    }

    /// The host-side sample format.
    pub fn cpu_format_str(&self) -> (s: &str)
        ensures
            s@ == self.spec_cpu_format(),
    {
        self.cpu_format.as_str()
    }

    /// The over-the-wire sample format.
    pub fn otw_format_str(&self) -> (s: &str)
        ensures
            s@ == self.spec_otw_format(),
    {
        self.otw_format.as_str()
    }

    /// The channel list.
    pub fn channel_list(&self) -> (c: Vec<usize>)
        ensures
            c@ == self.spec_channels(),
    {
        self.channels.clone()
    }

    /// The extra arguments as the text UHD takes: `key=value` entries joined
    /// with commas.
    pub fn args_string(&self) -> (s: String)
        ensures
            s@ == spec_join_entries(self.spec_args()),
    {
        join_entries(&self.args)
    }
}

/// Graph edge
#[derive(Debug, Clone)]
pub struct GraphEdge {
    pub src_block_id: String,
    pub src_port: usize,
    pub dst_block_id: String,
    pub dst_port: usize,
}

/// RX metadata
#[derive(Debug, Clone)]
pub struct RxMetadata {
    pub has_time_spec: bool,
    pub time_spec: Option<TimeSpec>,
    pub more_fragments: bool,
    pub fragment_offset: usize,
    pub start_of_burst: bool,
    pub end_of_burst: bool,
    pub error_code: u32,
}

/// The description of a receive error code; `None` for no error.
pub open spec fn spec_rx_error_string(code: u32) -> Option<Seq<char>> {
    if code == 0 {
        None
    } else if code == 1 {
        Some("Timeout"@)
    } else if code == 2 {
        Some("Late command"@)
    } else if code == 3 {
        Some("Broken chain"@)
    } else if code == 4 {
        Some("Overflow"@)
    } else if code == 5 {
        Some("Alignment error"@)
    } else if code == 6 {
        Some("Bad packet"@)
    } else {
        Some("Unknown error"@)
    }
}

impl RxMetadata {
    /// Metadata as UHD reports it: the time spec is present exactly when the
    /// `has_time_spec` flag is set.
    pub fn from_raw(
        has_time_spec: bool,
        secs: u64,
        nsecs: u32,
        more_fragments: bool,
        fragment_offset: usize,
        start_of_burst: bool,
        end_of_burst: bool,
        error_code: u32,
    ) -> (m: Self)
        ensures
            m.has_time_spec == has_time_spec,
            has_time_spec ==> m.time_spec == Some(TimeSpec { secs, nsecs }),
            !has_time_spec ==> m.time_spec is None,
            m.more_fragments == more_fragments,
            m.fragment_offset == fragment_offset,
            m.start_of_burst == start_of_burst,
            m.end_of_burst == end_of_burst,
            m.error_code == error_code,
    {
        RxMetadata {
            has_time_spec,
            time_spec: if has_time_spec {
                Some(TimeSpec::new(secs, nsecs))
            } else {
                None
            },
            more_fragments,
            fragment_offset,
            start_of_burst,
            end_of_burst,
            error_code,
        }
    }

    /// Check if there was an error
    pub fn has_error(&self) -> (b: bool)
        ensures
            b == (self.error_code != rx_error::NONE),
    {
        self.error_code != rx_error::NONE
    }

    /// Get error description
    pub fn error_string(&self) -> (s: Option<&'static str>)
        ensures
            s is None <==> spec_rx_error_string(self.error_code) is None,
            s matches Some(t) ==> spec_rx_error_string(self.error_code) == Some(t@),
    {
        proof {
            reveal_strlit("Timeout");
            reveal_strlit("Late command");
            reveal_strlit("Broken chain");
            reveal_strlit("Overflow");
            reveal_strlit("Alignment error");
            reveal_strlit("Bad packet");
            reveal_strlit("Unknown error");
        }
        if self.error_code == rx_error::NONE {
            None
        } else if self.error_code == rx_error::TIMEOUT {
            Some("Timeout")
        } else if self.error_code == rx_error::LATE_COMMAND {
            Some("Late command")
        } else if self.error_code == rx_error::BROKEN_CHAIN {
            Some("Broken chain")
        } else if self.error_code == rx_error::OVERFLOW {
            Some("Overflow")
        } else if self.error_code == rx_error::ALIGNMENT {
            Some("Alignment error")
        } else if self.error_code == rx_error::BAD_PACKET {
            Some("Bad packet")
        } else {
            Some("Unknown error")
        }
    }
}

/// Stream command
#[derive(Debug, Clone)]
pub enum StreamCommand {
    StartContinuous,
    StartNumSamps(u64),
    StopContinuous,
    StartAtTime(u64, TimeSpec),
}

/// What a stream command asks UHD for: stream mode, sample count, start time
/// (absent for an immediate command) and the stream-now flag.
pub struct StreamCmdArgs {
    pub stream_mode: u32,
    pub num_samps: u64,
    pub time: Option<TimeSpec>,
    pub stream_now: bool,
}

impl StreamCommand {
    /// The stream mode, sample count, start time and stream-now flag that
    /// issuing this command hands to UHD.
    pub fn issue_args(&self) -> (a: StreamCmdArgs)
        ensures
            self matches StreamCommand::StartContinuous ==> a.stream_mode
                == stream_mode::START_CONTINUOUS && a.num_samps == 0 && a.time is None
                && a.stream_now,
            self matches StreamCommand::StartNumSamps(n) ==> a.stream_mode
                == stream_mode::NUM_SAMPS_AND_DONE && a.num_samps == n && a.time is None
                && a.stream_now,
            self matches StreamCommand::StopContinuous ==> a.stream_mode
                == stream_mode::STOP_CONTINUOUS && a.num_samps == 0 && a.time is None
                && a.stream_now,
            self matches StreamCommand::StartAtTime(n, t) ==> a.stream_mode
                == stream_mode::NUM_SAMPS_AND_DONE && a.num_samps == n && a.time == Some(*t)
                && !a.stream_now,
    {
        match self {
            StreamCommand::StartContinuous => StreamCmdArgs {
                stream_mode: stream_mode::START_CONTINUOUS,
                num_samps: 0,
                time: None,
                stream_now: true,
            },
            StreamCommand::StartNumSamps(n) => StreamCmdArgs {
                stream_mode: stream_mode::NUM_SAMPS_AND_DONE,
                num_samps: *n,
                time: None,
                stream_now: true,
            },
            StreamCommand::StopContinuous => StreamCmdArgs {
                stream_mode: stream_mode::STOP_CONTINUOUS,
                num_samps: 0,
                time: None,
                stream_now: true,
            },
            StreamCommand::StartAtTime(n, t) => StreamCmdArgs {
                stream_mode: stream_mode::NUM_SAMPS_AND_DONE,
                num_samps: *n,
                time: Some(*t),
                stream_now: false,
            },
        }
    }
}

/// The value of key `k`, if some entry has it.
pub open spec fn spec_lookup(s: ArgEntries, k: Seq<char>) -> Option<Seq<char>> {
    if spec_has_key(s, k) {
        Some(s[choose|i: int| 0 <= i < s.len() && s[i].0 == k].1)
    } else {
        None
    }
}

proof fn lemma_unique_index(s: ArgEntries, k: Seq<char>, i: int)
    requires
        spec_keys_distinct(s),
        0 <= i < s.len(),
        s[i].0 == k,
    ensures
        (choose|j: int| 0 <= j < s.len() && s[j].0 == k) == i,
{
    let j = choose|j: int| 0 <= j < s.len() && s[j].0 == k;
    if j != i {
        if j < i {
            assert(s[j].0 != s[i].0);
        } else {
            assert(s[i].0 != s[j].0);
        }
    }
}

/// Setting an argument keeps every key unique, reading the key back gives
/// the value just set, and every other key keeps its value.
pub proof fn lemma_insert_then_lookup(s: ArgEntries, k: Seq<char>, v: Seq<char>, other: Seq<char>)
    requires
        spec_keys_distinct(s),
    ensures
        spec_keys_distinct(spec_insert(s, k, v)),
        spec_lookup(spec_insert(s, k, v), k) == Some(v),
        other != k ==> spec_lookup(spec_insert(s, k, v), other) == spec_lookup(s, other),
{
    let n = spec_insert(s, k, v);
    if spec_has_key(s, k) {
        let c = choose|i: int| 0 <= i < s.len() && s[i].0 == k;
        assert(n == s.update(c, (k, v)));
        assert forall|i: int, j: int| 0 <= i < j < n.len() implies n[i].0 != n[j].0 by {
            assert(n[i].0 == s[i].0);
            assert(n[j].0 == s[j].0);
        }
        assert(n[c].0 == k);
        lemma_unique_index(n, k, c);
        if other != k && spec_has_key(s, other) {
            let o = choose|i: int| 0 <= i < s.len() && s[i].0 == other;
            assert(n[o].0 == other);
            lemma_unique_index(n, other, o);
        }
        if other != k && spec_has_key(n, other) {
            let o = choose|i: int| 0 <= i < n.len() && n[i].0 == other;
            assert(s[o].0 == other);
        }
    } else {
        assert(n == s.push((k, v)));
        assert forall|i: int, j: int| 0 <= i < j < n.len() implies n[i].0 != n[j].0 by {
            if j == s.len() {
                assert(n[i].0 == s[i].0);
            }
        }
        assert(n[s.len() as int].0 == k);
        lemma_unique_index(n, k, s.len() as int);
        if other != k && spec_has_key(s, other) {
            let o = choose|i: int| 0 <= i < s.len() && s[i].0 == other;
            assert(n[o].0 == other);
            lemma_unique_index(n, other, o);
        }
        if other != k && spec_has_key(n, other) {
            let o = choose|i: int| 0 <= i < n.len() && n[i].0 == other;
            assert(o < s.len());
            assert(s[o].0 == other);
        }
    }
}

/// A receive error code has a description exactly when it reports an error.
pub proof fn lemma_error_string_iff_error(code: u32)
    ensures
        spec_rx_error_string(code) is Some <==> code != rx_error::NONE,
{
}

/// Each receive error code has its own description: 1 "Timeout", 2 "Late
/// command", 3 "Broken chain", 4 "Overflow", 5 "Alignment error", 6 "Bad
/// packet", any other nonzero code "Unknown error"; 0 has none.
pub proof fn lemma_rx_error_descriptions(code: u32)
    ensures
        code == 0 ==> spec_rx_error_string(code) is None,
        code == 1 ==> spec_rx_error_string(code) == Some("Timeout"@),
        code == 2 ==> spec_rx_error_string(code) == Some("Late command"@),
        code == 3 ==> spec_rx_error_string(code) == Some("Broken chain"@),
        code == 4 ==> spec_rx_error_string(code) == Some("Overflow"@),
        code == 5 ==> spec_rx_error_string(code) == Some("Alignment error"@),
        code == 6 ==> spec_rx_error_string(code) == Some("Bad packet"@),
        code > 6 ==> spec_rx_error_string(code) == Some("Unknown error"@),
        rx_error::NONE == 0 && rx_error::TIMEOUT == 1 && rx_error::LATE_COMMAND == 2
            && rx_error::BROKEN_CHAIN == 3 && rx_error::OVERFLOW == 4 && rx_error::ALIGNMENT == 5
            && rx_error::BAD_PACKET == 6,
{
}

} // verus!
