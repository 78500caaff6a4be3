use rfnoc_tool::config::stream_config::{
    default_batch_write_size, default_file_prefix, default_ring_buffer_size, default_true,
};
use rfnoc_tool::config::validation::validate_config_values;
use rfnoc_tool::config::{
    AutoConnectConfig, BufferConfig, GraphConfig, LoggingConfig, MultiStreamConfig,
    PerformanceConfig,
};
use rfnoc_tool::data_manager::capture::{
    wait_step, BufferError, BufferStats, CaptureManager, PacketBuffer, PacketProcessor,
    StreamBuffer, WaitStep,
};
use rfnoc_tool::data_manager::export::{
    first_sample, packet_dataset_name, raw_samples, sc16_samples, stream_file_name,
    stream_group_name, ExportFormat,
};
use rfnoc_tool::data_manager::storage::{encode_record, record_payload_len};
use rfnoc_tool::data_manager::{writer_step, DataManagerState, StreamAction, WriterStep};
use rfnoc_tool::processing::StreamDataMessage;
use rfnoc_tool::Error;

fn packet(n: u64, len: usize) -> PacketBuffer {
    PacketBuffer { stream_id: 1, packet_number: n, timestamp: None, data: vec![7; len] }
}

#[test]
fn config_defaults() {
    let b = BufferConfig::default();
    assert_eq!(b.ring_buffer_size, 16 * 1024 * 1024);
    assert_eq!(b.batch_write_size, 100);
    let m = MultiStreamConfig::default();
    assert!(!m.enable && m.sync_streams && !m.separate_files);
    assert_eq!(m.file_prefix, "stream");
    let g = GraphConfig::default();
    assert!(g.connections.is_empty() && g.block_properties.is_empty());
    let a = AutoConnectConfig::default();
    assert!(!a.radio_to_ddc && a.find_stream_endpoint);
    let p = PerformanceConfig::default();
    assert_eq!(p.worker_threads, 4);
    assert!(p.cpu_affinity.is_empty() && p.realtime_priority.is_none());
    let l = LoggingConfig::default();
    assert_eq!((l.level.as_str(), l.format.as_str()), ("info", "pretty"));
    assert!(default_true());
    assert_eq!(default_file_prefix(), "stream");
    assert_eq!(default_ring_buffer_size(), 16777216);
    assert_eq!(default_batch_write_size(), 100);
}

fn validation_message(r: Result<(), Error>) -> String {
    match r {
        Err(Error::ValidationError(m)) => m,
        _ => panic!("expected a validation error"),
    }
}

#[test]
fn validation_rules_in_order() {
    assert!(validate_config_values("addr=1", true, 1024, true, true).is_ok());
    assert!(validate_config_values("addr=1", true, 1024, false, false).is_ok());
    assert_eq!(validation_message(validate_config_values("", false, 0, true, false)), "Device args cannot be empty");
    assert_eq!(validation_message(validate_config_values("a", false, 0, true, false)), "Tick rate must be positive");
    assert_eq!(validation_message(validate_config_values("a", true, 1023, true, false)), "Ring buffer size too small");
    assert_eq!(validation_message(validate_config_values("a", true, 4096, true, false)), "PPS wait time must be positive");
}

#[test]
fn closed_writer_refuses_and_counts_nothing() {
    let (mut w, mut r) = StreamBuffer::new(3, 4);
    assert!(!w.is_closed());
    w.close();
    assert!(w.is_closed());
    assert_eq!(w.write_packet(packet(0, 5)), Err(BufferError::Closed));
    assert_eq!(w.get_packet_count(), 0);
    assert_eq!(w.get_overflow_count(), 0);
    assert!(matches!(r.read_packet(), Err(BufferError::Timeout)));
    r.close();
    assert!(matches!(r.read_packet(), Err(BufferError::Closed)));
}

#[test]
fn reads_come_out_in_order_and_free_slots() {
    let (mut w, mut r) = StreamBuffer::new(0, 4);
    assert_eq!(w.usage_slots(), (4, 4));
    for i in 0..3 {
        w.write_packet(packet(i, i as usize + 1)).unwrap();
    }
    assert_eq!(w.usage_slots(), (1, 4));
    assert_eq!(w.get_bytes_written(), 6);
    for i in 0..3 {
        assert_eq!(r.read_packet().unwrap().packet_number, i);
    }
    assert_eq!(w.usage_slots(), (4, 4));
    let s = BufferStats::default();
    assert_eq!(s.packets_written + s.overflows + s.max_usage, 0);
}

#[test]
fn wait_and_writer_steps() {
    assert_eq!(wait_step(&Ok(packet(0, 1)), true), WaitStep::Return);
    assert_eq!(wait_step(&Err(BufferError::Timeout), false), WaitStep::Retry);
    assert_eq!(wait_step(&Err(BufferError::Timeout), true), WaitStep::GiveUp);
    assert_eq!(wait_step(&Err(BufferError::Closed), false), WaitStep::Return);
    assert_eq!(writer_step(&Ok(packet(0, 1)), true), WriterStep::Store);
    assert_eq!(writer_step(&Err(BufferError::Timeout), false), WriterStep::Continue);
    assert_eq!(writer_step(&Err(BufferError::Timeout), true), WriterStep::Finish);
    assert_eq!(writer_step(&Err(BufferError::Overflow), false), WriterStep::CountOverflow);
    assert_eq!(writer_step(&Err(BufferError::Closed), false), WriterStep::Finish);
}

#[test]
fn packet_processor_numbers_packets_and_reads_timestamps() {
    let mut p = PacketProcessor::new(9);
    assert!(matches!(p.process_packet(&[0; 7]), Err(Error::ProcessingError(_))));
    let mut with_ts = (1u64 << 61).to_le_bytes().to_vec();
    with_ts.extend_from_slice(&42u64.to_le_bytes());
    let a = p.process_packet(&with_ts).unwrap();
    assert_eq!((a.stream_id, a.packet_number, a.timestamp), (9, 0, Some(42)));
    assert_eq!(a.data, with_ts);
    let short = (1u64 << 61).to_le_bytes().to_vec();
    let b = p.process_packet(&short).unwrap();
    assert_eq!((b.packet_number, b.timestamp), (1, None));
    let s = p.get_stats();
    assert_eq!((s.stream_id, s.packet_count, s.last_timestamp), (9, 2, None));
}

#[test]
fn capture_sessions() {
    let mut m = CaptureManager::new(16 * 1024 * 1024);
    let w = m.create_stream_buffer(5).unwrap();
    let (free, cap) = w.usage_slots();
    assert_eq!((free, cap), (2048, 2048));
    let small = CaptureManager::new(3 * 8192).create_stream_buffer(0).unwrap();
    assert_eq!(small.usage_slots().1, 4);
    let tiny = CaptureManager::new(100).create_stream_buffer(0).unwrap();
    assert_eq!(tiny.usage_slots().1, 1);
    assert_eq!(m.start_capture(2, None, None).unwrap(), 0);
    assert_eq!(m.start_capture(1, None, Some(10)).unwrap(), 1);
    assert!(m.stop_capture(0).is_ok());
    assert!(m.stop_capture(0).is_ok());
    assert_eq!(m.start_capture(0, None, None).unwrap(), 2);
    assert!(m.stop().is_ok());
}

#[test]
fn export_format_names() {
    assert_eq!(ExportFormat::parse_name("CSV").unwrap(), ExportFormat::Csv);
    assert_eq!(ExportFormat::parse_name("H5").unwrap(), ExportFormat::Hdf5);
    assert_eq!(ExportFormat::parse_name("bin").unwrap(), ExportFormat::Raw);
    match ExportFormat::parse_name("Xls") {
        Err(Error::ValidationError(m)) => assert_eq!(m, "Unknown export format: Xls"),
        _ => panic!("expected an error"),
    }
    assert_eq!(ExportFormat::from_cli_name("mat").unwrap(), ExportFormat::Matlab);
    match ExportFormat::from_cli_name("json") {
        Err(Error::ValidationError(m)) => assert_eq!(m, "Unknown format: json"),
        _ => panic!("expected an error"),
    }
    assert!(ExportFormat::from_cli_name("CSV").is_err());
}

#[test]
fn sample_extraction() {
    let data = [0x01, 0x00, 0xFF, 0xFF, 0x00, 0x80, 0xFF, 0x7F, 0x05];
    assert_eq!(first_sample(&data), (1, -1));
    assert_eq!(first_sample(&data[..3]), (0, 0));
    assert_eq!(sc16_samples(&data, 10), vec![(1, -1), (-32768, 32767)]);
    assert_eq!(sc16_samples(&data, 1), vec![(1, -1)]);
    let p = PacketBuffer { stream_id: 0, packet_number: 0, timestamp: Some(1), data: (0..20).collect() };
    assert_eq!(raw_samples(&p), vec![16, 17, 18, 19]);
    let q = PacketBuffer { stream_id: 0, packet_number: 0, timestamp: None, data: (0..8).collect() };
    assert!(raw_samples(&q).is_empty());
}

#[test]
fn export_names() {
    assert_eq!(stream_file_name(3), "stream_3.dat");
    assert_eq!(stream_group_name(12), "stream_12");
    assert_eq!(packet_dataset_name(42), "packet_000042");
    assert_eq!(packet_dataset_name(1234567), "packet_1234567");
}

#[test]
fn record_format_roundtrip() {
    let r = encode_record(&[9, 8, 7]);
    assert_eq!(r, vec![3, 0, 0, 0, 9, 8, 7]);
    assert_eq!(record_payload_len(&r[..4]), 3);
    assert_eq!(&r[4..], &[9, 8, 7]);
    assert_eq!(encode_record(&[]), vec![0, 0, 0, 0]);
}

#[test]
fn data_manager_stream_lifecycle() {
    let mut d = DataManagerState::new(1 << 20);
    let start = |id: usize| StreamDataMessage::StreamStarted { stream_id: id, block_id: "0/DDC#0".to_string(), port: 0 };
    assert_eq!(d.handle_stream_data(start(1)).unwrap(), StreamAction::StartWriter(1));
    assert_eq!(d.handle_stream_data(start(2)).unwrap(), StreamAction::StartWriter(2));
    assert_eq!(d.handle_stream_data(start(1)).unwrap(), StreamAction::StartWriter(1));
    assert_eq!(d.get_active_stream_count(), 2);
    let ids: Vec<usize> = d.stream_counters().iter().map(|c| c.stream_id).collect();
    assert_eq!(ids, vec![2, 1]);
    assert_eq!(
        d.handle_stream_data(StreamDataMessage::DataAvailable { stream_id: 2, num_samples: 10 }).unwrap(),
        StreamAction::Nothing
    );
    assert_eq!(d.get_total_packet_count(), 1);
    assert_eq!(d.handle_stream_data(StreamDataMessage::StreamStopped { stream_id: 2 }).unwrap(), StreamAction::CancelWriter(2));
    assert_eq!(d.handle_stream_data(StreamDataMessage::StreamStopped { stream_id: 2 }).unwrap(), StreamAction::Nothing);
    assert_eq!(d.get_active_stream_count(), 1);
    assert!(matches!(d.read_stream(1), Some(Err(BufferError::Timeout))));
    assert!(d.read_stream(2).is_none());
    assert_eq!(d.stream_closed(1), Some(false));
    assert_eq!(d.stream_closed(2), None);
    d.record_bytes_written(100);
    d.record_buffer_overflow();
    assert_eq!((d.get_total_bytes_written(), d.get_buffer_overflows()), (100, 1));
    let c = &d.stream_counters()[0];
    assert_eq!((c.stream_id, c.block_id.as_str(), c.capacity, c.free_slots), (1, "0/DDC#0", 128, 128));
}

#[test]
fn paired_ends_queue_in_order_and_overflow_when_full() {
    let (mut w, mut r) = StreamBuffer::new(0, 2);
    assert_eq!(w.write_packet_paired(&r, packet(0, 3)), Ok(()));
    assert_eq!(w.write_packet_paired(&r, packet(1, 4)), Ok(()));
    assert_eq!(w.write_packet_paired(&r, packet(2, 5)), Err(BufferError::Overflow));
    assert_eq!((w.get_packet_count(), w.get_bytes_written(), w.get_overflow_count()), (2, 7, 1));
    let first = r.read_packet_paired(&w).unwrap();
    assert_eq!((first.packet_number, first.data.len()), (0, 3));
    assert_eq!(w.write_packet_paired(&r, packet(3, 6)), Ok(()));
    assert_eq!(r.read_packet_paired(&w).unwrap().packet_number, 1);
    assert_eq!(r.read_packet_paired(&w).unwrap().packet_number, 3);
    assert!(matches!(r.read_packet_paired(&w), Err(BufferError::Timeout)));
    w.close();
    assert_eq!(w.write_packet_paired(&r, packet(4, 1)), Err(BufferError::Closed));
    assert!(matches!(r.read_packet_paired(&w), Err(BufferError::Timeout)));
}

#[test]
fn records_read_back_in_order() {
    let payloads: Vec<Vec<u8>> = vec![vec![1, 2, 3], vec![], vec![9; 300]];
    let mut bytes = Vec::new();
    for p in &payloads {
        bytes.extend(encode_record(p));
    }
    let mut read = Vec::new();
    let mut at = 0;
    while bytes.len() - at >= 4 {
        let n = record_payload_len(&bytes[at..at + 4]);
        read.push(bytes[at + 4..at + 4 + n].to_vec());
        at += 4 + n;
    }
    assert_eq!(at, bytes.len());
    assert_eq!(read, payloads);
}

#[test]
fn active_count_is_number_of_active_ids() {
    let mut d = DataManagerState::new(1 << 20);
    let start = |id: usize| StreamDataMessage::StreamStarted { stream_id: id, block_id: "b".to_string(), port: 0 };
    let stop = |id: usize| StreamDataMessage::StreamStopped { stream_id: id };
    for m in [start(1), start(1), start(2), stop(3), start(3), stop(1), start(1), stop(2)] {
        d.handle_stream_data(m).unwrap();
    }
    // Active: 3 and 1.
    assert_eq!(d.get_active_stream_count(), 2);
}
