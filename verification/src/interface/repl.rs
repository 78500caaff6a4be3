//! The command language of the interactive REPL: parsing a line into a
//! command, checking that quotes are balanced, and log level names.

use vstd::prelude::*;

use crate::error::{Error, is_validation_error};
use crate::text::{
    join_words_from, parse_unsigned, push_str, spec_join_words, spec_parse_unsigned, spec_strings,
    spec_to_lowercase, spec_tokens, split_whitespace, str_eq, str_to_lowercase, strings_from,
};

verus! {

/// REPL command types
#[derive(Debug, Clone)]
pub enum ReplCommand {
    /// Show help
    Help,
    /// Exit REPL
    Exit,
    /// Clear screen
    Clear,
    /// List devices
    ListDevices,
    /// Show device status
    DeviceStatus(String),
    /// Connect to device
    Connect(String),
    /// Disconnect from device
    Disconnect(String),
    /// Show graph topology
    ShowGraph(String),
    /// List blocks
    ListBlocks(String),
    /// Show block properties
    BlockInfo { device: String, block: String },
    /// Set block property
    SetProperty { device: String, block: String, property: String, value: String },
    /// List stream endpoints
    ListStreams(String),
    /// Start streaming
    StartStream { device: String, endpoints: Vec<String> },
    /// Stop streaming
    StopStream { device: String },
    /// Show stream statistics
    StreamStats,
    /// Start capture; the duration is the word given after the duration
    /// flag, read as seconds where the command runs
    StartCapture { device: String, duration: Option<String>, num_packets: Option<u64> },
    /// Stop capture
    StopCapture,
    /// Export data
    Export { format: String, output: String, streams: Option<Vec<usize>> },
    /// Show system statistics
    SystemStats,
    /// Set log level
    SetLogLevel(String),
    /// Load configuration
    LoadConfig(String),
    /// Save configuration
    SaveConfig(String),
    /// Analyze captured data
    Analyze { file: Option<String> },
    /// Show timing information
    TimingInfo(String),
    /// Show performance metrics
    Performance,
    /// Start profiling
    StartProfiling,
    /// Stop profiling
    StopProfiling,
    /// Raw command (for debugging)
    Raw(String),
}

/// The duration word and packet count that the flags from word `i` on set:
/// "-d"/"--duration" take the next word as the duration, "-n"/"--num-packets"
/// parse the next word as the packet count (absent when it does not parse);
/// a later flag overrides an earlier one, a flag without a next word and any
/// other word are skipped.
pub open spec fn spec_capture_flags(
    t: Seq<Seq<char>>,
    i: int,
    duration: Option<Seq<char>>,
    num: Option<nat>,
) -> (Option<Seq<char>>, Option<nat>)
    decreases t.len() - i,
{
    if i < 0 || i >= t.len() {
        (duration, num)
    } else if t[i] == "-d"@ || t[i] == "--duration"@ {
        if i + 1 < t.len() {
            spec_capture_flags(t, i + 2, Some(t[i + 1]), num)
        } else {
            spec_capture_flags(t, i + 1, duration, num)
        }
    } else if t[i] == "-n"@ || t[i] == "--num-packets"@ {
        if i + 1 < t.len() {
            spec_capture_flags(t, i + 2, duration, spec_parse_unsigned(t[i + 1], u64::MAX as nat))
        } else {
            spec_capture_flags(t, i + 1, duration, num)
        }
    } else {
        spec_capture_flags(t, i + 1, duration, num)
    }
}

/// The values of the words that parse as `usize`, in order; the others are
/// dropped.
pub open spec fn spec_parsed_indices(words: Seq<Seq<char>>) -> Seq<usize>
    decreases words.len(),
{
    if words.len() == 0 {
        Seq::empty()
    } else {
        let prev = spec_parsed_indices(words.drop_last());
        match spec_parse_unsigned(words.last(), usize::MAX as nat) {
            Some(v) => prev.push(v as usize),
            None => prev,
        }
    }
}

/// Whether `r` is `Err` with a validation error carrying `msg`.
pub open spec fn spec_invalid(r: Result<ReplCommand, Error>, msg: Seq<char>) -> bool {
    r is Err && is_validation_error(r->Err_0, msg)
}

/// Whether `r` is a command with one word argument, made by `f`, from the
/// second word of `t`, or the error `msg` when there is no second word.
pub open spec fn spec_one_arg(
    t: Seq<Seq<char>>,
    r: Result<ReplCommand, Error>,
    msg: Seq<char>,
    f: spec_fn(String) -> ReplCommand,
) -> bool {
    if t.len() < 2 {
        spec_invalid(r, msg)
    } else {
        r is Ok && exists|s: String| s@ == t[1] && r->Ok_0 == f(s)
    }
}

/// What parsing the line `input` gives, by its whitespace-separated words.
pub open spec fn spec_parses_to(input: Seq<char>, r: Result<ReplCommand, Error>) -> bool {
    let t = spec_tokens(input);
    if t.len() == 0 {
        spec_invalid(r, "Empty command"@)
    } else {
        let c = t[0];
        if c == "help"@ || c == "?"@ {
            r matches Ok(ReplCommand::Help)
        } else if c == "exit"@ || c == "quit"@ || c == "q"@ {
            r matches Ok(ReplCommand::Exit)
        } else if c == "clear"@ || c == "cls"@ {
            r matches Ok(ReplCommand::Clear)
        } else if c == "devices"@ || c == "ls"@ {
            r matches Ok(ReplCommand::ListDevices)
        } else if c == "status"@ {
            spec_one_arg(t, r, "Device ID required"@, |s: String| ReplCommand::DeviceStatus(s))
        } else if c == "connect"@ {
            spec_one_arg(t, r, "Device ID required"@, |s: String| ReplCommand::Connect(s))
        } else if c == "disconnect"@ {
            spec_one_arg(t, r, "Device ID required"@, |s: String| ReplCommand::Disconnect(s))
        } else if c == "graph"@ {
            spec_one_arg(t, r, "Device ID required"@, |s: String| ReplCommand::ShowGraph(s))
        } else if c == "blocks"@ {
            spec_one_arg(t, r, "Device ID required"@, |s: String| ReplCommand::ListBlocks(s))
        } else if c == "blockinfo"@ {
            if t.len() < 3 {
                spec_invalid(r, "Usage: blockinfo <device> <block>"@)
            } else {
                r matches Ok(ReplCommand::BlockInfo { device, block }) && device@ == t[1] && block@
                    == t[2]
            }
        } else if c == "set"@ {
            if t.len() < 5 {
                spec_invalid(r, "Usage: set <device> <block> <property> <value>"@)
            } else {
                r matches Ok(ReplCommand::SetProperty { device, block, property, value })
                    && device@ == t[1] && block@ == t[2] && property@ == t[3] && value@
                    == spec_join_words(t.subrange(4, t.len() as int))
            }
        } else if c == "streams"@ {
            spec_one_arg(t, r, "Device ID required"@, |s: String| ReplCommand::ListStreams(s))
        } else if c == "start"@ {
            if t.len() < 3 {
                spec_invalid(r, "Usage: start <device> <endpoint1> [endpoint2...]"@)
            } else {
                r matches Ok(ReplCommand::StartStream { device, endpoints }) && device@ == t[1]
                    && spec_strings(endpoints@) == t.subrange(2, t.len() as int)
            }
        } else if c == "stop"@ {
            if t.len() < 2 {
                spec_invalid(r, "Device ID required"@)
            } else {
                r matches Ok(ReplCommand::StopStream { device }) && device@ == t[1]
            }
        } else if c == "streamstats"@ {
            r matches Ok(ReplCommand::StreamStats)
        } else if c == "capture"@ {
            if t.len() < 2 {
                spec_invalid(r, "Device ID required"@)
            } else {
                let (d, n) = spec_capture_flags(t, 2, None, None);
                r matches Ok(ReplCommand::StartCapture { device, duration, num_packets })
                    && device@ == t[1] && (match duration {
                    Some(w) => d == Some(w@),
                    None => d is None,
                }) && (match num_packets {
                    Some(v) => n == Some(v as nat),
                    None => n is None,
                })
            }
        } else if c == "stopcapture"@ {
            r matches Ok(ReplCommand::StopCapture)
        } else if c == "export"@ {
            if t.len() < 3 {
                spec_invalid(r, "Usage: export <format> <output> [streams...]"@)
            } else {
                r matches Ok(ReplCommand::Export { format, output, streams }) && format@ == t[1]
                    && output@ == t[2] && (if t.len() > 3 {
                    streams matches Some(v) && v@ == spec_parsed_indices(
                        t.subrange(3, t.len() as int),
                    )
                } else {
                    streams is None
                })
            }
        } else if c == "stats"@ {
            r matches Ok(ReplCommand::SystemStats)
        } else if c == "loglevel"@ {
            spec_one_arg(t, r, "Log level required"@, |s: String| ReplCommand::SetLogLevel(s))
        } else if c == "load"@ {
            spec_one_arg(t, r, "Config file required"@, |s: String| ReplCommand::LoadConfig(s))
        } else if c == "save"@ {
            spec_one_arg(t, r, "Config file required"@, |s: String| ReplCommand::SaveConfig(s))
        } else if c == "analyze"@ {
            r matches Ok(ReplCommand::Analyze { file }) && (if t.len() > 1 {
                file matches Some(f) && f@ == t[1]
            } else {
                file is None
            })
        } else if c == "timing"@ {
            spec_one_arg(t, r, "Device ID required"@, |s: String| ReplCommand::TimingInfo(s))
        } else if c == "perf"@ {
            r matches Ok(ReplCommand::Performance)
        } else if c == "profile"@ {
            r matches Ok(ReplCommand::StartProfiling)
        } else if c == "stopprofile"@ {
            r matches Ok(ReplCommand::StopProfiling)
        } else {
            r matches Ok(ReplCommand::Raw(s)) && s@ == input
        }
    }
}

fn invalid(msg: &str) -> (r: Result<ReplCommand, Error>)
    ensures
        spec_invalid(r, msg@),
{
    Err(Error::ValidationError(msg.to_owned()))
}

fn parse_capture_flags(t: &Vec<String>) -> (r: (Option<String>, Option<u64>))
    ensures
        ({
            let (d, n) = spec_capture_flags(spec_strings(t@), 2, None, None);
            &&& (match r.0 {
                Some(w) => d == Some(w@),
                None => d is None,
            })
            &&& (match r.1 {
                Some(v) => n == Some(v as nat),
                None => n is None,
            })
        }),
{
    let ghost ts = spec_strings(t@);
    let mut duration: Option<String> = None;
    let mut num_packets: Option<u64> = None;
    let n = t.len();
    let mut i: usize = 2;
    while i < n
        invariant
            n == t@.len(),
            ts == spec_strings(t@),
            2 <= i,
            spec_capture_flags(ts, 2, None, None) == spec_capture_flags(
                ts,
                i as int,
                match duration {
                    Some(w) => Some(w@),
                    None => None,
                },
                match num_packets {
                    Some(v) => Some(v as nat),
                    None => None,
                },
            ),
        decreases n - i,
    {
        let w = t[i].as_str();
        assert(w@ == ts[i as int]);
        if str_eq(w, "-d") || str_eq(w, "--duration") {
            if i + 1 < n {
                duration = Some(t[i + 1].clone());
                i = i + 2;
            } else {
                i = i + 1;
            }
        } else if str_eq(w, "-n") || str_eq(w, "--num-packets") {
            if i + 1 < n {
                num_packets = parse_unsigned(t[i + 1].as_str(), u64::MAX);
                i = i + 2;
            } else {
                i = i + 1;
            }
        } else {
            i = i + 1;
        }
    }
    (duration, num_packets)
}

fn parse_indices(t: &Vec<String>, start: usize) -> (v: Vec<usize>)
    requires
        start <= t@.len(),
    ensures
        v@ == spec_parsed_indices(spec_strings(t@).subrange(start as int, t@.len() as int)),
{
    let ghost ts = spec_strings(t@);
    let mut v: Vec<usize> = Vec::new();
    let n = t.len();
    let mut i = start;
    while i < n
        invariant
            start <= i <= n,
            n == t@.len(),
            ts == spec_strings(t@),
            v@ == spec_parsed_indices(ts.subrange(start as int, i as int)),
        decreases n - i,
    {
        assert(ts.subrange(start as int, i + 1).drop_last() =~= ts.subrange(start as int, i as int));
        assert(ts.subrange(start as int, i + 1).last() == t@[i as int]@);
        match parse_unsigned(t[i].as_str(), usize::MAX as u64) {
            Some(x) => v.push(x as usize),
            None => {},
        }
        i = i + 1;
    }
    v
}

impl ReplCommand {
    /// Parse a command line: its first word names the command, the following
    /// words are its arguments; an unknown first word gives the raw line.
    pub fn parse(input: &str) -> (r: Result<Self, Error>)
        ensures
            spec_parses_to(input@, r),
    {
        let parts = split_whitespace(input);
        let ghost t = spec_strings(parts@);
        if parts.len() == 0 {
            return invalid("Empty command");
        }
        let n = parts.len();
        assert(parts@[0]@ == t[0]);
        let c = parts[0].as_str();
        if str_eq(c, "help") || str_eq(c, "?") {
            Ok(ReplCommand::Help)
        } else if str_eq(c, "exit") || str_eq(c, "quit") || str_eq(c, "q") {
            Ok(ReplCommand::Exit)
        } else if str_eq(c, "clear") || str_eq(c, "cls") {
            Ok(ReplCommand::Clear)
        } else if str_eq(c, "devices") || str_eq(c, "ls") {
            Ok(ReplCommand::ListDevices)
        } else if str_eq(c, "status") {
            if n < 2 {
                invalid("Device ID required")
            } else {
                let s = parts[1].clone();
                Ok(ReplCommand::DeviceStatus(s))
            }
        } else if str_eq(c, "connect") {
            if n < 2 {
                invalid("Device ID required")
            } else {
                let s = parts[1].clone();
                Ok(ReplCommand::Connect(s))
            }
        } else if str_eq(c, "disconnect") {
            if n < 2 {
                invalid("Device ID required")
            } else {
                let s = parts[1].clone();
                Ok(ReplCommand::Disconnect(s))
            }
        } else if str_eq(c, "graph") {
            if n < 2 {
                invalid("Device ID required")
            } else {
                let s = parts[1].clone();
                Ok(ReplCommand::ShowGraph(s))
            }
        } else if str_eq(c, "blocks") {
            if n < 2 {
                invalid("Device ID required")
            } else {
                let s = parts[1].clone();
                Ok(ReplCommand::ListBlocks(s))
            }
        } else if str_eq(c, "blockinfo") {
            if n < 3 {
                invalid("Usage: blockinfo <device> <block>")
            } else {
                Ok(ReplCommand::BlockInfo { device: parts[1].clone(), block: parts[2].clone() })
            }
        } else if str_eq(c, "set") {
            if n < 5 {
                invalid("Usage: set <device> <block> <property> <value>")
            } else {
                Ok(
                    ReplCommand::SetProperty {
                        device: parts[1].clone(),
                        block: parts[2].clone(),
                        property: parts[3].clone(),
                        value: join_words_from(&parts, 4),
                    },
                )
            }
        } else if str_eq(c, "streams") {
            if n < 2 {
                invalid("Device ID required")
            } else {
                let s = parts[1].clone();
                Ok(ReplCommand::ListStreams(s))
            }
        } else if str_eq(c, "start") {
            if n < 3 {
                invalid("Usage: start <device> <endpoint1> [endpoint2...]")
            } else {
                Ok(
                    ReplCommand::StartStream {
                        device: parts[1].clone(),
                        endpoints: strings_from(&parts, 2),
                    },
                )
            }
        } else if str_eq(c, "stop") {
            if n < 2 {
                invalid("Device ID required")
            } else {
                Ok(ReplCommand::StopStream { device: parts[1].clone() })
            }
        } else if str_eq(c, "streamstats") {
            Ok(ReplCommand::StreamStats)
        } else if str_eq(c, "capture") {
            if n < 2 {
                invalid("Device ID required")
            } else {
                let (duration, num_packets) = parse_capture_flags(&parts);
                Ok(ReplCommand::StartCapture { device: parts[1].clone(), duration, num_packets })
            }
        } else if str_eq(c, "stopcapture") {
            Ok(ReplCommand::StopCapture)
        } else if str_eq(c, "export") {
            if n < 3 {
                invalid("Usage: export <format> <output> [streams...]")
            } else {
                let streams = if n > 3 {
                    Some(parse_indices(&parts, 3))
                } else {
                    None
                };
                Ok(
                    ReplCommand::Export {
                        format: parts[1].clone(),
                        output: parts[2].clone(),
                        streams,
                    },
                )
            }
        } else if str_eq(c, "stats") {
            Ok(ReplCommand::SystemStats)
        } else if str_eq(c, "loglevel") {
            if n < 2 {
                invalid("Log level required")
            } else {
                let s = parts[1].clone();
                Ok(ReplCommand::SetLogLevel(s))
            }
        } else if str_eq(c, "load") {
            if n < 2 {
                invalid("Config file required")
            } else {
                let s = parts[1].clone();
                Ok(ReplCommand::LoadConfig(s))
            }
        } else if str_eq(c, "save") {
            if n < 2 {
                invalid("Config file required")
            } else {
                let s = parts[1].clone();
                Ok(ReplCommand::SaveConfig(s))
            }
        } else if str_eq(c, "analyze") {
            let file = if n > 1 {
                Some(parts[1].clone())
            } else {
                None
            };
            Ok(ReplCommand::Analyze { file })
        } else if str_eq(c, "timing") {
            if n < 2 {
                invalid("Device ID required")
            } else {
                let s = parts[1].clone();
                Ok(ReplCommand::TimingInfo(s))
            }
        } else if str_eq(c, "perf") {
            Ok(ReplCommand::Performance)
        } else if str_eq(c, "profile") {
            Ok(ReplCommand::StartProfiling)
        } else if str_eq(c, "stopprofile") {
            Ok(ReplCommand::StopProfiling)
        } else {
            Ok(ReplCommand::Raw(input.to_owned()))
        }
    }
}

/// How many times `c` occurs in `s`.
pub open spec fn spec_count_char(s: Seq<char>, c: char) -> nat
    decreases s.len(),
{
    if s.len() == 0 {
        0
    } else {
        spec_count_char(s.drop_last(), c) + if s.last() == c {
            1nat
        } else {
            0nat
        }
    }
}

/// Whether a line is complete: it holds an even number of double quotes,
/// so no quoted text is left open.
pub fn input_complete(input: &str) -> (b: bool)
    ensures
        b == (spec_count_char(input@, '"') % 2 == 0),
{
    let n = input.unicode_len();
    let mut count: usize = 0;
    for i in 0..n
        invariant
            n == input@.len(),
            count == spec_count_char(input@.take(i as int), '"'),
            count <= i,
    {
        assert(input@.take(i + 1).drop_last() =~= input@.take(i as int));
        if input.get_char(i) == '"' {
            count = count + 1;
        }
    }
    assert(input@.take(n as int) =~= input@);
    count % 2 == 0
}

/// The colour class in which the REPL shows a command word.
#[derive(Debug, Clone, Copy, PartialEq, Eq, Structural)]
pub enum CommandStyle {
    /// help, ?
    Help,
    /// exit, quit, q
    Exit,
    /// connect, disconnect
    Connection,
    /// start, stop, capture
    Streaming,
    /// graph, blocks, streams
    Graph,
    /// any other word
    Plain,
}

/// The colour class of a command word.
pub open spec fn spec_command_style(word: Seq<char>) -> CommandStyle {
    if word == "help"@ || word == "?"@ {
        CommandStyle::Help
    } else if word == "exit"@ || word == "quit"@ || word == "q"@ {
        CommandStyle::Exit
    } else if word == "connect"@ || word == "disconnect"@ {
        CommandStyle::Connection
    } else if word == "start"@ || word == "stop"@ || word == "capture"@ {
        CommandStyle::Streaming
    } else if word == "graph"@ || word == "blocks"@ || word == "streams"@ {
        CommandStyle::Graph
    } else {
        CommandStyle::Plain
    }
}

/// The colour class in which the REPL highlights a command word.
pub fn command_style(word: &str) -> (s: CommandStyle)
    ensures
        s == spec_command_style(word@),
{
    if str_eq(word, "help") || str_eq(word, "?") {
        CommandStyle::Help
    } else if str_eq(word, "exit") || str_eq(word, "quit") || str_eq(word, "q") {
        CommandStyle::Exit
    } else if str_eq(word, "connect") || str_eq(word, "disconnect") {
        CommandStyle::Connection
    } else if str_eq(word, "start") || str_eq(word, "stop") || str_eq(word, "capture") {
        CommandStyle::Streaming
    } else if str_eq(word, "graph") || str_eq(word, "blocks") || str_eq(word, "streams") {
        CommandStyle::Graph
    } else {
        CommandStyle::Plain
    }
}

/// Log levels that the REPL can set.
#[derive(Debug, Clone, Copy, PartialEq, Eq, Structural)]
pub enum LogLevel {
    Trace,
    Debug,
    Info,
    Warn,
    Error,
}

/// The log level that a lower-case name denotes, if any.
pub open spec fn spec_log_level_of_name(name: Seq<char>) -> Option<LogLevel> {
    if name == "trace"@ {
        Some(LogLevel::Trace)
    } else if name == "debug"@ {
        Some(LogLevel::Debug)
    } else if name == "info"@ {
        Some(LogLevel::Info)
    } else if name == "warn"@ || name == "warning"@ {
        Some(LogLevel::Warn)
    } else if name == "error"@ {
        Some(LogLevel::Error)
    } else {
        None
    }
}

impl LogLevel {
    /// Parse a log level name, ignoring case: trace, debug, info, warn or
    /// warning, error.
    pub fn parse_name(level: &str) -> (r: Result<Self, Error>)
        ensures
            match spec_log_level_of_name(spec_to_lowercase(level@)) {
                Some(l) => r == Ok::<LogLevel, Error>(l),
                None => r is Err && is_validation_error(r->Err_0, "Invalid log level: "@ + level@),
            },
    {
        let lowered = str_to_lowercase(level);
        Self::parse_lowercase_name(lowered.as_str(), level)
    }

    /// Parse an already lower-cased log level name; `input` is the name as the
    /// user gave it, quoted in the error.
    pub fn parse_lowercase_name(name: &str, input: &str) -> (r: Result<Self, Error>)
        ensures
            match spec_log_level_of_name(name@) {
                Some(l) => r == Ok::<LogLevel, Error>(l),
                None => r is Err && is_validation_error(r->Err_0, "Invalid log level: "@ + input@),
            },
    {
        if str_eq(name, "trace") {
            Ok(LogLevel::Trace)
        } else if str_eq(name, "debug") {
            Ok(LogLevel::Debug)
        } else if str_eq(name, "info") {
            Ok(LogLevel::Info)
        } else if str_eq(name, "warn") || str_eq(name, "warning") {
            Ok(LogLevel::Warn)
        } else if str_eq(name, "error") {
            Ok(LogLevel::Error)
        } else {
            let mut msg = "Invalid log level: ".to_owned();
            push_str(&mut msg, input);
            Err(Error::ValidationError(msg))
        }
    }
}

/// The letters of the command words.
proof fn lemma_command_word_letters()
    ensures
        "help"@.len() == 4,
        "help"@[0] == 'h',
        "help"@[1] == 'e',
        "help"@[2] == 'l',
        "help"@[3] == 'p',
        "?"@.len() == 1,
        "?"@[0] == '?',
        "exit"@.len() == 4,
        "exit"@[0] == 'e',
        "exit"@[1] == 'x',
        "exit"@[2] == 'i',
        "exit"@[3] == 't',
        "quit"@.len() == 4,
        "quit"@[0] == 'q',
        "quit"@[1] == 'u',
        "quit"@[2] == 'i',
        "quit"@[3] == 't',
        "q"@.len() == 1,
        "q"@[0] == 'q',
        "clear"@.len() == 5,
        "clear"@[0] == 'c',
        "clear"@[1] == 'l',
        "clear"@[2] == 'e',
        "clear"@[3] == 'a',
        "clear"@[4] == 'r',
        "cls"@.len() == 3,
        "cls"@[0] == 'c',
        "cls"@[1] == 'l',
        "cls"@[2] == 's',
        "devices"@.len() == 7,
        "devices"@[0] == 'd',
        "devices"@[1] == 'e',
        "devices"@[2] == 'v',
        "devices"@[3] == 'i',
        "devices"@[4] == 'c',
        "devices"@[5] == 'e',
        "devices"@[6] == 's',
        "ls"@.len() == 2,
        "ls"@[0] == 'l',
        "ls"@[1] == 's',
        "status"@.len() == 6,
        "status"@[0] == 's',
        "status"@[1] == 't',
        "status"@[2] == 'a',
        "status"@[3] == 't',
        "status"@[4] == 'u',
        "status"@[5] == 's',
        "connect"@.len() == 7,
        "connect"@[0] == 'c',
        "connect"@[1] == 'o',
        "connect"@[2] == 'n',
        "connect"@[3] == 'n',
        "connect"@[4] == 'e',
        "connect"@[5] == 'c',
        "connect"@[6] == 't',
        "disconnect"@.len() == 10,
        "disconnect"@[0] == 'd',
        "disconnect"@[1] == 'i',
        "disconnect"@[2] == 's',
        "disconnect"@[3] == 'c',
        "disconnect"@[4] == 'o',
        "disconnect"@[5] == 'n',
        "disconnect"@[6] == 'n',
        "disconnect"@[7] == 'e',
        "disconnect"@[8] == 'c',
        "disconnect"@[9] == 't',
        "graph"@.len() == 5,
        "graph"@[0] == 'g',
        "graph"@[1] == 'r',
        "graph"@[2] == 'a',
        "graph"@[3] == 'p',
        "graph"@[4] == 'h',
        "blocks"@.len() == 6,
        "blocks"@[0] == 'b',
        "blocks"@[1] == 'l',
        "blocks"@[2] == 'o',
        "blocks"@[3] == 'c',
        "blocks"@[4] == 'k',
        "blocks"@[5] == 's',
        "blockinfo"@.len() == 9,
        "blockinfo"@[0] == 'b',
        "blockinfo"@[1] == 'l',
        "blockinfo"@[2] == 'o',
        "blockinfo"@[3] == 'c',
        "blockinfo"@[4] == 'k',
        "blockinfo"@[5] == 'i',
        "blockinfo"@[6] == 'n',
        "blockinfo"@[7] == 'f',
        "blockinfo"@[8] == 'o',
        "set"@.len() == 3,
        "set"@[0] == 's',
        "set"@[1] == 'e',
        "set"@[2] == 't',
        "streams"@.len() == 7,
        "streams"@[0] == 's',
        "streams"@[1] == 't',
        "streams"@[2] == 'r',
        "streams"@[3] == 'e',
        "streams"@[4] == 'a',
        "streams"@[5] == 'm',
        "streams"@[6] == 's',
        "start"@.len() == 5,
        "start"@[0] == 's',
        "start"@[1] == 't',
        "start"@[2] == 'a',
        "start"@[3] == 'r',
        "start"@[4] == 't',
        "stop"@.len() == 4,
        "stop"@[0] == 's',
        "stop"@[1] == 't',
        "stop"@[2] == 'o',
        "stop"@[3] == 'p',
        "streamstats"@.len() == 11,
        "streamstats"@[0] == 's',
        "streamstats"@[1] == 't',
        "streamstats"@[2] == 'r',
        "streamstats"@[3] == 'e',
        "streamstats"@[4] == 'a',
        "streamstats"@[5] == 'm',
        "streamstats"@[6] == 's',
        "streamstats"@[7] == 't',
        "streamstats"@[8] == 'a',
        "streamstats"@[9] == 't',
        "streamstats"@[10] == 's',
        "capture"@.len() == 7,
        "capture"@[0] == 'c',
        "capture"@[1] == 'a',
        "capture"@[2] == 'p',
        "capture"@[3] == 't',
        "capture"@[4] == 'u',
        "capture"@[5] == 'r',
        "capture"@[6] == 'e',
        "stopcapture"@.len() == 11,
        "stopcapture"@[0] == 's',
        "stopcapture"@[1] == 't',
        "stopcapture"@[2] == 'o',
        "stopcapture"@[3] == 'p',
        "stopcapture"@[4] == 'c',
        "stopcapture"@[5] == 'a',
        "stopcapture"@[6] == 'p',
        "stopcapture"@[7] == 't',
        "stopcapture"@[8] == 'u',
        "stopcapture"@[9] == 'r',
        "stopcapture"@[10] == 'e',
        "export"@.len() == 6,
        "export"@[0] == 'e',
        "export"@[1] == 'x',
        "export"@[2] == 'p',
        "export"@[3] == 'o',
        "export"@[4] == 'r',
        "export"@[5] == 't',
        "stats"@.len() == 5,
        "stats"@[0] == 's',
        "stats"@[1] == 't',
        "stats"@[2] == 'a',
        "stats"@[3] == 't',
        "stats"@[4] == 's',
        "loglevel"@.len() == 8,
        "loglevel"@[0] == 'l',
        "loglevel"@[1] == 'o',
        "loglevel"@[2] == 'g',
        "loglevel"@[3] == 'l',
        "loglevel"@[4] == 'e',
        "loglevel"@[5] == 'v',
        "loglevel"@[6] == 'e',
        "loglevel"@[7] == 'l',
        "load"@.len() == 4,
        "load"@[0] == 'l',
        "load"@[1] == 'o',
        "load"@[2] == 'a',
        "load"@[3] == 'd',
        "save"@.len() == 4,
        "save"@[0] == 's',
        "save"@[1] == 'a',
        "save"@[2] == 'v',
        "save"@[3] == 'e',
        "analyze"@.len() == 7,
        "analyze"@[0] == 'a',
        "analyze"@[1] == 'n',
        "analyze"@[2] == 'a',
        "analyze"@[3] == 'l',
        "analyze"@[4] == 'y',
        "analyze"@[5] == 'z',
        "analyze"@[6] == 'e',
        "timing"@.len() == 6,
        "timing"@[0] == 't',
        "timing"@[1] == 'i',
        "timing"@[2] == 'm',
        "timing"@[3] == 'i',
        "timing"@[4] == 'n',
        "timing"@[5] == 'g',
        "perf"@.len() == 4,
        "perf"@[0] == 'p',
        "perf"@[1] == 'e',
        "perf"@[2] == 'r',
        "perf"@[3] == 'f',
        "profile"@.len() == 7,
        "profile"@[0] == 'p',
        "profile"@[1] == 'r',
        "profile"@[2] == 'o',
        "profile"@[3] == 'f',
        "profile"@[4] == 'i',
        "profile"@[5] == 'l',
        "profile"@[6] == 'e',
        "stopprofile"@.len() == 11,
        "stopprofile"@[0] == 's',
        "stopprofile"@[1] == 't',
        "stopprofile"@[2] == 'o',
        "stopprofile"@[3] == 'p',
        "stopprofile"@[4] == 'p',
        "stopprofile"@[5] == 'r',
        "stopprofile"@[6] == 'o',
        "stopprofile"@[7] == 'f',
        "stopprofile"@[8] == 'i',
        "stopprofile"@[9] == 'l',
        "stopprofile"@[10] == 'e',
{
    reveal_strlit("help");
    reveal_strlit("?");
    reveal_strlit("exit");
    reveal_strlit("quit");
    reveal_strlit("q");
    reveal_strlit("clear");
    reveal_strlit("cls");
    reveal_strlit("devices");
    reveal_strlit("ls");
    reveal_strlit("status");
    reveal_strlit("connect");
    reveal_strlit("disconnect");
    reveal_strlit("graph");
    reveal_strlit("blocks");
    reveal_strlit("blockinfo");
    reveal_strlit("set");
    reveal_strlit("streams");
    reveal_strlit("start");
    reveal_strlit("stop");
    reveal_strlit("streamstats");
    reveal_strlit("capture");
    reveal_strlit("stopcapture");
    reveal_strlit("export");
    reveal_strlit("stats");
    reveal_strlit("loglevel");
    reveal_strlit("load");
    reveal_strlit("save");
    reveal_strlit("analyze");
    reveal_strlit("timing");
    reveal_strlit("perf");
    reveal_strlit("profile");
    reveal_strlit("stopprofile");
}

/// The letters of the log level names.
proof fn lemma_log_level_letters()
    ensures
        "trace"@.len() == 5,
        "trace"@[0] == 't',
        "trace"@[1] == 'r',
        "trace"@[2] == 'a',
        "trace"@[3] == 'c',
        "trace"@[4] == 'e',
        "debug"@.len() == 5,
        "debug"@[0] == 'd',
        "debug"@[1] == 'e',
        "debug"@[2] == 'b',
        "debug"@[3] == 'u',
        "debug"@[4] == 'g',
        "info"@.len() == 4,
        "info"@[0] == 'i',
        "info"@[1] == 'n',
        "info"@[2] == 'f',
        "info"@[3] == 'o',
        "warn"@.len() == 4,
        "warn"@[0] == 'w',
        "warn"@[1] == 'a',
        "warn"@[2] == 'r',
        "warn"@[3] == 'n',
        "warning"@.len() == 7,
        "warning"@[0] == 'w',
        "warning"@[1] == 'a',
        "warning"@[2] == 'r',
        "warning"@[3] == 'n',
        "warning"@[4] == 'i',
        "warning"@[5] == 'n',
        "warning"@[6] == 'g',
        "error"@.len() == 5,
        "error"@[0] == 'e',
        "error"@[1] == 'r',
        "error"@[2] == 'r',
        "error"@[3] == 'o',
        "error"@[4] == 'r',
{
    reveal_strlit("trace");
    reveal_strlit("debug");
    reveal_strlit("info");
    reveal_strlit("warn");
    reveal_strlit("warning");
    reveal_strlit("error");
}

/// Each command word gives its own command: a word taking one argument
/// gives that command carrying the second word of the line, and a word
/// taking none gives its command whatever follows.
pub proof fn lemma_command_words(input: Seq<char>, r: Result<ReplCommand, Error>)
    requires
        spec_parses_to(input, r),
        spec_tokens(input).len() >= 2,
    ensures
        ({
            let t = spec_tokens(input);
            let w = t[0];
            &&& (w == "help"@ || w == "?"@) ==> (r matches Ok(ReplCommand::Help))
            &&& (w == "exit"@ || w == "quit"@ || w == "q"@) ==> (r matches Ok(ReplCommand::Exit))
            &&& (w == "clear"@ || w == "cls"@) ==> (r matches Ok(ReplCommand::Clear))
            &&& (w == "devices"@ || w == "ls"@) ==> (r matches Ok(ReplCommand::ListDevices))
            &&& w == "status"@ ==> (r matches Ok(ReplCommand::DeviceStatus(d)) && d@ == t[1])
            &&& w == "connect"@ ==> (r matches Ok(ReplCommand::Connect(d)) && d@ == t[1])
            &&& w == "disconnect"@ ==> (r matches Ok(ReplCommand::Disconnect(d)) && d@ == t[1])
            &&& w == "graph"@ ==> (r matches Ok(ReplCommand::ShowGraph(d)) && d@ == t[1])
            &&& w == "blocks"@ ==> (r matches Ok(ReplCommand::ListBlocks(d)) && d@ == t[1])
            &&& w == "streams"@ ==> (r matches Ok(ReplCommand::ListStreams(d)) && d@ == t[1])
            &&& w == "stop"@ ==> (r matches Ok(ReplCommand::StopStream { device }) && device@ == t[1])
            &&& w == "streamstats"@ ==> (r matches Ok(ReplCommand::StreamStats))
            &&& w == "stopcapture"@ ==> (r matches Ok(ReplCommand::StopCapture))
            &&& w == "stats"@ ==> (r matches Ok(ReplCommand::SystemStats))
            &&& w == "loglevel"@ ==> (r matches Ok(ReplCommand::SetLogLevel(l)) && l@ == t[1])
            &&& w == "load"@ ==> (r matches Ok(ReplCommand::LoadConfig(f)) && f@ == t[1])
            &&& w == "save"@ ==> (r matches Ok(ReplCommand::SaveConfig(f)) && f@ == t[1])
            &&& w == "analyze"@ ==> (r matches Ok(ReplCommand::Analyze { file }) && file
                matches Some(f) && f@ == t[1])
            &&& w == "timing"@ ==> (r matches Ok(ReplCommand::TimingInfo(d)) && d@ == t[1])
            &&& w == "perf"@ ==> (r matches Ok(ReplCommand::Performance))
            &&& w == "profile"@ ==> (r matches Ok(ReplCommand::StartProfiling))
            &&& w == "stopprofile"@ ==> (r matches Ok(ReplCommand::StopProfiling))
        }),
{
    lemma_command_word_letters();
}

/// A command word that needs an argument, given alone, is refused with a
/// validation error, and an empty line is refused too.
pub proof fn lemma_missing_argument(input: Seq<char>, r: Result<ReplCommand, Error>)
    requires
        spec_parses_to(input, r),
        spec_tokens(input).len() <= 1,
    ensures
        spec_tokens(input).len() == 0 ==> r is Err,
        ({
            let w = spec_tokens(input)[0];
            spec_tokens(input).len() == 1 && (w == "status"@ || w == "connect"@ || w
                == "disconnect"@ || w == "graph"@ || w == "blocks"@ || w == "blockinfo"@ || w
                == "set"@ || w == "streams"@ || w == "start"@ || w == "stop"@ || w == "capture"@
                || w == "export"@ || w == "loglevel"@ || w == "load"@ || w == "save"@ || w
                == "timing"@) ==> r is Err
        }),
{
    lemma_command_word_letters();
}

/// Each log level has its own names and no name denotes two levels: "trace"
/// is Trace, "debug" Debug, "info" Info, "warn" and "warning" Warn, "error"
/// Error, and nothing else is a level.
pub proof fn lemma_log_level_names(name: Seq<char>)
    ensures
        spec_log_level_of_name(name) == Some(LogLevel::Trace) <==> name == "trace"@,
        spec_log_level_of_name(name) == Some(LogLevel::Debug) <==> name == "debug"@,
        spec_log_level_of_name(name) == Some(LogLevel::Info) <==> name == "info"@,
        spec_log_level_of_name(name) == Some(LogLevel::Warn) <==> (name == "warn"@ || name
            == "warning"@),
        spec_log_level_of_name(name) == Some(LogLevel::Error) <==> name == "error"@,
{
    lemma_log_level_letters();
}

/// The highlight class of each command word: help and ? are help; exit,
/// quit and q exit; connect and disconnect connection; start, stop and
/// capture streaming; graph, blocks and streams graph; every other word is
/// plain.
pub proof fn lemma_command_style_classes(word: Seq<char>)
    ensures
        spec_command_style(word) == CommandStyle::Help <==> (word == "help"@ || word == "?"@),
        spec_command_style(word) == CommandStyle::Exit <==> (word == "exit"@ || word == "quit"@
            || word == "q"@),
        spec_command_style(word) == CommandStyle::Connection <==> (word == "connect"@ || word
            == "disconnect"@),
        spec_command_style(word) == CommandStyle::Streaming <==> (word == "start"@ || word
            == "stop"@ || word == "capture"@),
        spec_command_style(word) == CommandStyle::Graph <==> (word == "graph"@ || word
            == "blocks"@ || word == "streams"@),
{
    lemma_command_word_letters();
}

} // verus!
