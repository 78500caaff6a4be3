use rfnoc_tool::processing::graph::default_stream_endpoints;
use rfnoc_tool::processing::plan::{
    analysis_csv_path, benchmark_endpoints, capture_endpoints, capture_finished, capture_target,
};
use rfnoc_tool::hardware::chdr_packets::{ChdrHeader, ChdrPacket, PacketType};
use rfnoc_tool::hardware::uhd_bindings::{
    rx_error, stream_mode, DeviceArgs, RxMetadata, StreamArgs, StreamCommand,
};
use rfnoc_tool::hardware::{DataFormat, TimeSpec};
use rfnoc_tool::Error;

#[test]
fn header_fields_read_their_bits() {
    let h = ChdrHeader { header: (0x7u64 << 53) | (1u64 << 57) | (0xBEEFu64 << 32) | (0x1234u64 << 16) | 0x00AB };
    assert_eq!(h.packet_type(), PacketType::DataWithTs);
    assert!(h.has_timestamp());
    assert!(h.eob());
    assert_eq!(h.seq_num(), 0xBEEF);
    assert_eq!(h.length(), 0x1234);
    assert_eq!(h.epid(), 0x00AB);
}

#[test]
fn unused_type_codes_decode_as_data_without_timestamp() {
    let h3 = ChdrHeader { header: 0x3u64 << 53 };
    let h5 = ChdrHeader { header: 0x5u64 << 53 };
    assert_eq!(h3.packet_type(), PacketType::DataNoTs);
    assert_eq!(h5.packet_type(), PacketType::DataNoTs);
    assert!(!h3.has_timestamp());
}

#[test]
fn header_setters_roundtrip_and_leave_other_fields() {
    let mut h = ChdrHeader::new();
    h.header = u64::MAX;
    h.set_packet_type(PacketType::Control);
    assert_eq!(h.packet_type(), PacketType::Control);
    h.set_length(0x0102);
    h.set_seq_num(0xA0B0);
    assert_eq!(h.length(), 0x0102);
    assert_eq!(h.seq_num(), 0xA0B0);
    assert_eq!(h.packet_type(), PacketType::Control);
    assert_eq!(h.epid(), 0xFFFF);
    assert!(h.eob());
    assert_eq!(h.header, 0xFF9F_A0B0_0102_FFFF);
    assert_eq!(ChdrHeader::default().header, 0);
}

#[test]
fn packet_parse_errors() {
    match ChdrPacket::parse(&[0u8; 7]) {
        Err(Error::ProcessingError(m)) => assert_eq!(m, "Packet too small"),
        _ => panic!("expected an error"),
    }
    let mut h = ChdrHeader::new();
    h.set_packet_type(PacketType::DataWithTs);
    let mut bytes = h.header.to_ne_bytes().to_vec();
    bytes.extend_from_slice(&[1, 2, 3]);
    match ChdrPacket::parse(&bytes) {
        Err(Error::ProcessingError(m)) => assert_eq!(m, "Packet too small for timestamp"),
        _ => panic!("expected an error"),
    }
}

#[test]
fn packet_roundtrip_with_timestamp() {
    let mut p = ChdrPacket::new();
    p.header.set_packet_type(PacketType::DataWithTs);
    p.header.set_length(20);
    p.timestamp = Some(0x0102_0304_0506_0708);
    p.payload = vec![9, 8, 7, 6];
    let bytes = p.to_bytes();
    assert_eq!(bytes.len(), 20);
    assert_eq!(&bytes[8..16], &[8, 7, 6, 5, 4, 3, 2, 1]);
    let q = ChdrPacket::parse(&bytes).unwrap();
    assert_eq!(q.header.header, p.header.header);
    assert_eq!(q.timestamp, p.timestamp);
    assert_eq!(q.payload, p.payload);
    assert_eq!(q.to_bytes(), bytes);
}

#[test]
fn packet_without_timestamp_keeps_all_bytes_as_payload() {
    let mut bytes = vec![0u8; 8];
    bytes.extend_from_slice(&[1, 2, 3, 4, 5, 6, 7, 8, 9]);
    let p = ChdrPacket::parse(&bytes).unwrap();
    assert_eq!(p.timestamp, None);
    assert_eq!(p.payload, vec![1, 2, 3, 4, 5, 6, 7, 8, 9]);
    let q = ChdrPacket::parse_with_header(ChdrHeader::new(), &bytes).unwrap();
    assert_eq!(q.payload, p.payload);
    assert_eq!(p.to_bytes_with_header(&[0xAA; 8])[0], 0xAA);
    assert_eq!(ChdrPacket::default().payload.len(), 0);
}

#[test]
fn device_args_build_and_replace() {
    let a = DeviceArgs::new().addr("192.168.10.2").device_type("x300").addr("10.0.0.1");
    assert_eq!(a.build(), "addr=10.0.0.1,type=x300");
    let b = DeviceArgs::default().with_arg("master_clock_rate", "200000000");
    assert_eq!(b.build(), "master_clock_rate=200000000");
    assert_eq!(DeviceArgs::new().build(), "");
}

#[test]
fn stream_args_defaults_and_spp() {
    let s = StreamArgs::new("fc32");
    assert_eq!(s.cpu_format_str(), "fc32");
    assert_eq!(s.otw_format_str(), "sc16");
    assert_eq!(s.channel_list(), vec![0]);
    assert_eq!(s.args_string(), "");
    let s = s.otw_format("sc8").channels(vec![0, 1]).spp(2000).spp(1024);
    assert_eq!(s.otw_format_str(), "sc8");
    assert_eq!(s.channel_list(), vec![0, 1]);
    assert_eq!(s.args_string(), "spp=1024");
    assert_eq!(StreamArgs::new("sc16").spp(0).args_string(), "spp=0");
}

#[test]
fn rx_metadata_errors() {
    let ok = RxMetadata::from_raw(true, 5, 6, false, 0, true, false, rx_error::NONE);
    assert!(!ok.has_error());
    assert_eq!(ok.error_string(), None);
    assert_eq!(ok.time_spec.unwrap().secs, 5);
    assert_eq!(ok.time_spec.unwrap().nsecs, 6);
    let no_time = RxMetadata::from_raw(false, 5, 6, false, 0, false, false, rx_error::OVERFLOW);
    assert!(no_time.time_spec.is_none());
    assert!(no_time.has_error());
    assert_eq!(no_time.error_string(), Some("Overflow"));
    let names = [
        (rx_error::TIMEOUT, "Timeout"),
        (rx_error::LATE_COMMAND, "Late command"),
        (rx_error::BROKEN_CHAIN, "Broken chain"),
        (rx_error::ALIGNMENT, "Alignment error"),
        (rx_error::BAD_PACKET, "Bad packet"),
        (99, "Unknown error"),
    ];
    for (code, name) in names {
        let m = RxMetadata::from_raw(false, 0, 0, false, 0, false, false, code);
        assert_eq!(m.error_string(), Some(name));
    }
}

#[test]
fn stream_command_encoding() {
    let a = StreamCommand::StartContinuous.issue_args();
    assert_eq!((a.stream_mode, a.num_samps, a.stream_now), (stream_mode::START_CONTINUOUS, 0, true));
    let a = StreamCommand::StartNumSamps(500).issue_args();
    assert_eq!((a.stream_mode, a.num_samps, a.stream_now), (stream_mode::NUM_SAMPS_AND_DONE, 500, true));
    let a = StreamCommand::StopContinuous.issue_args();
    assert_eq!((a.stream_mode, a.num_samps, a.stream_now), (stream_mode::STOP_CONTINUOUS, 0, true));
    let a = StreamCommand::StartAtTime(7, TimeSpec::new(3, 4)).issue_args();
    assert_eq!((a.stream_mode, a.num_samps, a.stream_now), (stream_mode::NUM_SAMPS_AND_DONE, 7, false));
    assert_eq!(a.time.unwrap().secs, 3);
    assert_eq!(a.time.unwrap().nsecs, 4);
    assert_eq!(stream_mode::NUM_SAMPS_AND_MORE, 3);
}

#[test]
fn data_format_strings() {
    assert_eq!(DataFormat::Fc32.to_uhd_string(), "fc32");
    assert_eq!(DataFormat::Fc64.to_uhd_string(), "fc64");
}

#[test]
fn time_spec_new_and_now() {
    let t = TimeSpec::new(100, 500_000_000);
    assert_eq!(t.secs, 100);
    assert_eq!(t.nsecs, 500_000_000);
    let now = TimeSpec::now().unwrap();
    assert!(now.nsecs < 1_000_000_000);
    assert!(now.secs > 1_600_000_000);
}

#[test]
fn capture_and_benchmark_plans() {
    let two = {
        let mut v = default_stream_endpoints();
        v.extend(default_stream_endpoints());
        v[1].port = 1;
        v
    };
    assert_eq!(capture_endpoints(two.clone(), true).len(), 2);
    let one = capture_endpoints(two.clone(), false);
    assert_eq!((one.len(), one[0].port), (1, 0));
    assert_eq!(capture_endpoints(Vec::new(), false).len(), 0);
    assert_eq!(capture_target(1000, 2), 2000);
    assert!(!capture_finished(1000, 1999, 2000, false));
    assert!(capture_finished(1000, 2000, 2000, false));
    assert!(capture_finished(1000, 0, 2000, true));
    assert!(!capture_finished(0, 5000, 0, false));
    assert!(capture_finished(0, 0, 0, true));
    assert_eq!(analysis_csv_path("capture"), "capture_analysis.csv");
    assert_eq!(benchmark_endpoints(two.clone(), 1).unwrap().len(), 1);
    match benchmark_endpoints(two, 3) {
        Err(rfnoc_tool::Error::ValidationError(m)) => assert_eq!(m, "Requested 3 streams but only 2 available"),
        other => panic!("unexpected {:?}", other.map(|v| v.len())),
    }
}
