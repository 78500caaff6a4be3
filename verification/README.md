# rfnoc_tool

A streaming and analysis tool for USRP devices and RFNoC graphs. The core of
the tool is a library verified with Verus; the program around it is ordinary
Rust.

## Layout

- `src/` — the verified library.
  - `hardware/` — CHDR packet headers and packets (parsing and framing, with
    their round-trip laws), device and stream arguments, receive metadata,
    stream command encoding, data formats and time specs.
  - `data_manager/` — stream ring buffers and their statistics, packet
    processing, capture sessions, the bookkeeping of active streams, the
    on-disk packet record, and the naming and sample extraction used by the
    exports.
  - `config/` — configuration defaults and validation rules.
  - `interface/` — the REPL command grammar, input completeness, highlight
    classes, log level names, and byte-count formatting.
  - `processing/` — stream lifecycle messages, graph topology, and the
    endpoint, target and stop decisions of the capture and benchmark modes.
  - `text.rs` — string helpers with exact specifications (decimal numerals,
    whitespace tokens, joining, unsigned parsing).
- `tests/` — tests of the library.
- `app/` — the command-line program: argument handling, UHD calls through
  the C++ bridge, files, exports, the async subsystems and the interactive
  REPL. It calls the library to parse, check, frame, count and name the data it
  handles; the rest of its work is I/O, waiting and floating-point rates.

Calls into outside crates from the library (zerocopy, rtrb, and a few std
functions) go through small trusted wrappers whose contracts are stated next
to them; the error types of async-channel and crossbeam are declared so that
the library can convert them.
