use rfnoc_tool::data_manager::capture::{BufferError, PacketBuffer, StreamBuffer};
use rfnoc_tool::data_manager::export::ExportFormat;
use rfnoc_tool::hardware::DataFormat;

#[test]
fn test_stream_buffer() {
    let (mut writer, mut reader) = StreamBuffer::new(0, 16);

    // Write a packet
    let packet = PacketBuffer {
        stream_id: 0,
        packet_number: 1,
        timestamp: Some(1000),
        data: vec![0; 100],
    };

    assert!(writer.write_packet(packet.clone()).is_ok());
    assert_eq!(writer.get_packet_count(), 1);
    assert_eq!(writer.get_bytes_written(), 100);

    // Read the packet
    let read_packet = reader.read_packet().unwrap();
    assert_eq!(read_packet.packet_number, packet.packet_number);
    assert_eq!(read_packet.data.len(), packet.data.len());
}

#[test]
fn test_buffer_overflow() {
    let (mut writer, _reader) = StreamBuffer::new(0, 2); // Very small buffer

    // Fill the buffer
    for i in 0..3 {
        let packet = PacketBuffer {
            stream_id: 0,
            packet_number: i,
            timestamp: None,
            data: vec![0; 10],
        };

        if i < 2 {
            assert!(writer.write_packet(packet).is_ok());
        } else {
            // Should overflow
            assert!(matches!(writer.write_packet(packet), Err(BufferError::Overflow)));
            assert_eq!(writer.get_overflow_count(), 1);
        }
    }
}

#[test]
fn test_export_format_parsing() {
    assert_eq!("csv".parse::<ExportFormat>().unwrap(), ExportFormat::Csv);
    assert_eq!("matlab".parse::<ExportFormat>().unwrap(), ExportFormat::Matlab);
    assert_eq!("mat".parse::<ExportFormat>().unwrap(), ExportFormat::Matlab);
    assert_eq!("hdf5".parse::<ExportFormat>().unwrap(), ExportFormat::Hdf5);
    assert_eq!("raw".parse::<ExportFormat>().unwrap(), ExportFormat::Raw);
    assert_eq!("json".parse::<ExportFormat>().unwrap(), ExportFormat::Json);

    assert!("unknown".parse::<ExportFormat>().is_err());
}

#[test]
fn test_data_format() {
    assert_eq!(DataFormat::Sc16.bytes_per_sample(), 4);
    assert_eq!(DataFormat::Fc32.bytes_per_sample(), 8);
    assert_eq!(DataFormat::Fc64.bytes_per_sample(), 16);

    assert_eq!(DataFormat::Sc16.to_uhd_string(), "sc16");
}
