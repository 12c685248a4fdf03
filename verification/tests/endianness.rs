use rxserver::protocol::endianness::{EndianReader, EndianWriter};
use rxserver::protocol::types::ByteOrder;

#[test]
fn endianness_test_endian_writer_little_endian() {
    let mut writer = EndianWriter::new(Vec::new(), ByteOrder::LittleEndian);
    writer.write_u16(0x1234);
    assert_eq!(writer.into_buffer(), vec![0x34, 0x12]);

    let mut writer = EndianWriter::new(Vec::new(), ByteOrder::LittleEndian);
    writer.write_u32(0x12345678);
    assert_eq!(writer.into_buffer(), vec![0x78, 0x56, 0x34, 0x12]);
}

#[test]
fn endianness_test_endian_writer_big_endian() {
    let mut writer = EndianWriter::new(Vec::new(), ByteOrder::BigEndian);
    writer.write_u16(0x1234);
    assert_eq!(writer.into_buffer(), vec![0x12, 0x34]);

    let mut writer = EndianWriter::new(Vec::new(), ByteOrder::BigEndian);
    writer.write_u32(0x12345678);
    assert_eq!(writer.into_buffer(), vec![0x12, 0x34, 0x56, 0x78]);
}

#[test]
fn endianness_test_string_padding() {
    let mut writer = EndianWriter::new(Vec::new(), ByteOrder::LittleEndian);
    writer.write_string_with_padding("ab");
    assert_eq!(writer.into_buffer(), vec![b'a', b'b', 0, 0]);

    let mut writer = EndianWriter::new(Vec::new(), ByteOrder::LittleEndian);
    writer.write_string_with_padding("abcd");
    assert_eq!(writer.into_buffer(), vec![b'a', b'b', b'c', b'd']);
}

#[test]
fn test_endian_reader_little_endian() {
    let data = vec![0x34, 0x12, 0x78, 0x56, 0x34, 0x12];
    let mut reader = EndianReader::new(&data, ByteOrder::LittleEndian);

    assert_eq!(reader.read_u16().unwrap(), 0x1234);
    assert_eq!(reader.read_u32().unwrap(), 0x12345678);
}

#[test]
fn test_endian_reader_big_endian() {
    let data = vec![0x12, 0x34, 0x12, 0x34, 0x56, 0x78];
    let mut reader = EndianReader::new(&data, ByteOrder::BigEndian);

    assert_eq!(reader.read_u16().unwrap(), 0x1234);
    assert_eq!(reader.read_u32().unwrap(), 0x12345678);
}

#[test]
fn test_reader_bounds_checking() {
    let data = vec![0x12];
    let mut reader = EndianReader::new(&data, ByteOrder::LittleEndian);

    assert!(reader.read_u8().is_ok());
    assert!(reader.read_u8().is_err());

    assert!(reader.read_u16().is_err());
}

#[test]
fn test_reader_string_handling() {
    let data = b"hello\0\0\0";
    let mut reader = EndianReader::new(data, ByteOrder::LittleEndian);

    let result = reader.read_string(8).unwrap();
    assert_eq!(result, "hello");
}

#[test]
fn test_string_reading() {
    let data = vec![b'a', b'b', 0, 0, b'c', b'd', b'e', b'f'];
    let mut reader = EndianReader::new(&data, ByteOrder::LittleEndian);

    assert_eq!(reader.read_string(2).unwrap(), "ab");
    reader.skip_padding(4).unwrap();
    assert_eq!(reader.read_string(4).unwrap(), "cdef");
}

#[test]
fn reader_reports_offset_and_remaining() {
    let data = vec![1u8, 2, 3, 4, 5];
    let mut reader = EndianReader::new(&data, ByteOrder::BigEndian);
    assert_eq!(reader.remaining(), 5);
    assert_eq!(reader.peek_u8().unwrap(), 1);
    assert_eq!(reader.read_bytes(3).unwrap(), &[1u8, 2, 3][..]);
    assert_eq!(reader.offset(), 3);
    assert_eq!(reader.remaining(), 2);
    assert!(reader.has_remaining());
    assert!(reader.read_bytes(3).is_err());
    assert_eq!(reader.read_i16().unwrap(), 0x0405);
    assert!(!reader.has_remaining());
    assert!(reader.peek_u8().is_err());
}

#[test]
fn writer_padded_string_with_custom_alignment() {
    let mut writer = EndianWriter::new(vec![9u8], ByteOrder::BigEndian);
    writer.write_padded_string("abc", 8);
    assert_eq!(writer.len(), 9);
    assert!(!writer.is_empty());
    assert_eq!(writer.byte_order(), ByteOrder::BigEndian);
    assert_eq!(writer.into_buffer(), vec![9, b'a', b'b', b'c', 0, 0, 0, 0, 0]);
}

#[test]
fn reader_reads_back_what_the_writer_wrote() {
    for order in [ByteOrder::LittleEndian, ByteOrder::BigEndian] {
        let mut writer = EndianWriter::new(Vec::new(), order);
        writer.write_u16(0xbeef);
        writer.write_u32(0xdead_0001);
        writer.write_u8(7);
        let bytes = writer.into_buffer();
        let mut reader = EndianReader::new(&bytes, order);
        assert_eq!(reader.read_u16().unwrap(), 0xbeef);
        assert_eq!(reader.read_u32().unwrap(), 0xdead_0001);
        assert_eq!(reader.read_u8().unwrap(), 7);
        assert!(!reader.has_remaining());
    }
}
