use rfnoc_tool::error::ChannelErrorExt;
use rfnoc_tool::hardware::{GraphEdge, StreamDirection, DataFormat};
use rfnoc_tool::interface::utils::format_bytes;
use rfnoc_tool::interface::repl::{command_style, input_complete, CommandStyle, LogLevel, ReplCommand};
use rfnoc_tool::processing::graph::{default_stream_endpoints, GraphTopology};
use rfnoc_tool::Error;

fn parse_err(s: &str) -> String {
    match ReplCommand::parse(s) {
        Err(Error::ValidationError(m)) => m,
        other => panic!("expected a validation error, got {:?}", other),
    }
}

#[test]
fn repl_simple_commands() {
    assert!(matches!(ReplCommand::parse("help"), Ok(ReplCommand::Help)));
    assert!(matches!(ReplCommand::parse("  ?  "), Ok(ReplCommand::Help)));
    assert!(matches!(ReplCommand::parse("q"), Ok(ReplCommand::Exit)));
    assert!(matches!(ReplCommand::parse("cls"), Ok(ReplCommand::Clear)));
    assert!(matches!(ReplCommand::parse("ls"), Ok(ReplCommand::ListDevices)));
    assert!(matches!(ReplCommand::parse("streamstats"), Ok(ReplCommand::StreamStats)));
    assert!(matches!(ReplCommand::parse("stopcapture"), Ok(ReplCommand::StopCapture)));
    assert!(matches!(ReplCommand::parse("stats"), Ok(ReplCommand::SystemStats)));
    assert!(matches!(ReplCommand::parse("perf"), Ok(ReplCommand::Performance)));
    assert!(matches!(ReplCommand::parse("profile"), Ok(ReplCommand::StartProfiling)));
    assert!(matches!(ReplCommand::parse("stopprofile"), Ok(ReplCommand::StopProfiling)));
    assert_eq!(parse_err("   \t "), "Empty command");
}

#[test]
fn repl_commands_with_arguments() {
    match ReplCommand::parse("status\tusrp0 extra") {
        Ok(ReplCommand::DeviceStatus(d)) => assert_eq!(d, "usrp0"),
        _ => panic!(),
    }
    assert_eq!(parse_err("connect"), "Device ID required");
    assert_eq!(parse_err("timing"), "Device ID required");
    match ReplCommand::parse("blockinfo dev 0/Radio#0") {
        Ok(ReplCommand::BlockInfo { device, block }) => assert_eq!((device.as_str(), block.as_str()), ("dev", "0/Radio#0")),
        _ => panic!(),
    }
    assert_eq!(parse_err("blockinfo dev"), "Usage: blockinfo <device> <block>");
    match ReplCommand::parse("set dev blk freq  1 2   3") {
        Ok(ReplCommand::SetProperty { device, block, property, value }) => {
            assert_eq!((device.as_str(), block.as_str(), property.as_str(), value.as_str()), ("dev", "blk", "freq", "1 2 3"))
        }
        _ => panic!(),
    }
    assert_eq!(parse_err("set a b c"), "Usage: set <device> <block> <property> <value>");
    match ReplCommand::parse("start dev ep1 ep2") {
        Ok(ReplCommand::StartStream { device, endpoints }) => {
            assert_eq!(device, "dev");
            assert_eq!(endpoints, vec!["ep1".to_string(), "ep2".to_string()]);
        }
        _ => panic!(),
    }
    assert_eq!(parse_err("start dev"), "Usage: start <device> <endpoint1> [endpoint2...]");
    assert_eq!(parse_err("loglevel"), "Log level required");
    assert_eq!(parse_err("save"), "Config file required");
    match ReplCommand::parse("analyze") {
        Ok(ReplCommand::Analyze { file }) => assert_eq!(file, None),
        _ => panic!(),
    }
    match ReplCommand::parse("analyze cap.dat") {
        Ok(ReplCommand::Analyze { file }) => assert_eq!(file.as_deref(), Some("cap.dat")),
        _ => panic!(),
    }
    match ReplCommand::parse("frobnicate  now ") {
        Ok(ReplCommand::Raw(s)) => assert_eq!(s, "frobnicate  now "),
        _ => panic!(),
    }
}

#[test]
fn repl_capture_flags() {
    match ReplCommand::parse("capture dev -d 2.5 -n 100 --bogus") {
        Ok(ReplCommand::StartCapture { device, duration, num_packets }) => {
            assert_eq!(device, "dev");
            assert_eq!(duration.as_deref(), Some("2.5"));
            assert_eq!(num_packets, Some(100));
        }
        _ => panic!(),
    }
    match ReplCommand::parse("capture dev --num-packets 5 -n x -d") {
        Ok(ReplCommand::StartCapture { duration, num_packets, .. }) => {
            assert_eq!(duration, None);
            assert_eq!(num_packets, None);
        }
        _ => panic!(),
    }
    match ReplCommand::parse("capture dev -n +18446744073709551615") {
        Ok(ReplCommand::StartCapture { num_packets, .. }) => assert_eq!(num_packets, Some(u64::MAX)),
        _ => panic!(),
    }
    match ReplCommand::parse("capture dev -n 18446744073709551616") {
        Ok(ReplCommand::StartCapture { num_packets, .. }) => assert_eq!(num_packets, None),
        _ => panic!(),
    }
    assert_eq!(parse_err("capture"), "Device ID required");
}

#[test]
fn repl_export_streams() {
    match ReplCommand::parse("export csv out.csv 0 x 2 -1 +3") {
        Ok(ReplCommand::Export { format, output, streams }) => {
            assert_eq!((format.as_str(), output.as_str()), ("csv", "out.csv"));
            assert_eq!(streams, Some(vec![0, 2, 3]));
        }
        _ => panic!(),
    }
    match ReplCommand::parse("export csv out.csv") {
        Ok(ReplCommand::Export { streams, .. }) => assert_eq!(streams, None),
        _ => panic!(),
    }
    assert_eq!(parse_err("export csv"), "Usage: export <format> <output> [streams...]");
}

#[test]
fn repl_helpers() {
    assert!(input_complete("say \"hi\""));
    assert!(!input_complete("say \"hi"));
    assert!(input_complete(""));
    assert_eq!(command_style("?"), CommandStyle::Help);
    assert_eq!(command_style("quit"), CommandStyle::Exit);
    assert_eq!(command_style("disconnect"), CommandStyle::Connection);
    assert_eq!(command_style("capture"), CommandStyle::Streaming);
    assert_eq!(command_style("streams"), CommandStyle::Graph);
    assert_eq!(command_style("stats"), CommandStyle::Plain);
    assert_eq!(LogLevel::parse_name("WARNING").unwrap(), LogLevel::Warn);
    assert_eq!(LogLevel::parse_name("Trace").unwrap(), LogLevel::Trace);
    match LogLevel::parse_name("Loud") {
        Err(Error::ValidationError(m)) => assert_eq!(m, "Invalid log level: Loud"),
        _ => panic!(),
    }
}

#[test]
fn channel_errors_map_to_channel_error() {
    let ok: Result<u8, async_channel::SendError<u8>> = Ok(3);
    assert_eq!(ok.map_channel_err().unwrap(), 3);
    let err: Result<u8, async_channel::SendError<u8>> = Err(async_channel::SendError(3));
    match err.map_channel_err() {
        Err(Error::ChannelError(m)) => assert_eq!(m, "Channel send failed"),
        _ => panic!(),
    }
    let err: Result<u8, async_channel::RecvError> = Err(async_channel::RecvError);
    match err.map_channel_err() {
        Err(Error::ChannelError(m)) => assert_eq!(m, "Channel receive failed"),
        _ => panic!(),
    }
    let err: Result<u8, crossbeam::channel::SendError<String>> = Err(crossbeam::channel::SendError(String::new()));
    match err.map_channel_err() {
        Err(Error::ChannelError(m)) => assert_eq!(m, "Crossbeam channel send failed"),
        _ => panic!(),
    }
    let err: Result<u8, crossbeam::channel::RecvError> = Err(crossbeam::channel::RecvError);
    match err.map_channel_err() {
        Err(Error::ChannelError(m)) => assert_eq!(m, "Crossbeam channel receive failed"),
        _ => panic!(),
    }
}

#[test]
fn topology_from_discovery() {
    let edge = GraphEdge { src_block_id: "a".into(), src_port: 0, dst_block_id: "b".into(), dst_port: 1 };
    let t = GraphTopology::from_discovery(vec!["0/Radio#0".into(), "0/DDC#0".into()], vec![edge]);
    assert_eq!(t.blocks.len(), 2);
    assert_eq!(t.blocks[1].block_id, "0/DDC#0");
    assert_eq!(t.blocks[0].block_type, "Unknown");
    assert_eq!(t.edges.len(), 1);
    let e = default_stream_endpoints();
    assert_eq!(e.len(), 1);
    assert_eq!((e[0].block_id.as_str(), e[0].port, e[0].direction, e[0].format, e[0].active), ("0/DDC#0", 0, StreamDirection::Rx, DataFormat::Sc16, false));
}

#[test]
fn test_format_bytes() {
    assert_eq!(format_bytes(0), "0 B");
    assert_eq!(format_bytes(1023), "1023 B");
    assert_eq!(format_bytes(1024), "1.00 KB");
    assert_eq!(format_bytes(1536), "1.50 KB");
    assert_eq!(format_bytes(1048576), "1.00 MB");
    assert_eq!(format_bytes(1073741824), "1.00 GB");
}

#[test]
fn format_bytes_rounds_halves_to_even() {
    // 1152 / 1024 = 1.125 and 1408 / 1024 = 1.375 lie halfway between two
    // hundredths.
    assert_eq!(format_bytes(1152), "1.12 KB");
    assert_eq!(format_bytes(1408), "1.38 KB");
    assert_eq!(format_bytes(1025), "1.00 KB");
    assert_eq!(format_bytes(2047), "2.00 KB");
}

#[test]
fn format_bytes_matches_float_formatting() {
    let values: [u64; 14] = [
        1,
        1152,
        1408,
        999,
        1024 * 1024 - 1,
        5 * 1024 * 1024 + 12345,
        3 * 1024 * 1024 * 1024 + 7,
        1 << 40,
        (1 << 40) * 1500 + 123_456_789,
        (1 << 53) + 1,
        (1 << 53) + 3,
        u64::MAX / 3,
        u64::MAX - 1,
        u64::MAX,
    ];
    const UNITS: [&str; 5] = ["B", "KB", "MB", "GB", "TB"];
    for &bytes in values.iter() {
        let mut size = bytes as f64;
        let mut unit = 0;
        while size >= 1024.0 && unit < UNITS.len() - 1 {
            size /= 1024.0;
            unit += 1;
        }
        let expected = if unit == 0 {
            format!("{} {}", bytes, UNITS[unit])
        } else {
            format!("{:.2} {}", size, UNITS[unit])
        };
        assert_eq!(format_bytes(bytes), expected, "bytes = {}", bytes);
    }
    assert_eq!(format_bytes(u64::MAX), "16777216.00 TB");
}
