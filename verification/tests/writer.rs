use rxserver::protocol::types::ByteOrder;
use rxserver::protocol::writer::EndianWriter;

#[test]
fn writer_test_endian_writer_little_endian() {
    let mut writer = EndianWriter::new(Vec::new(), ByteOrder::LittleEndian);
    writer.write_u16(0x1234);
    assert_eq!(writer.into_buffer(), vec![0x34, 0x12]);

    let mut writer = EndianWriter::new(Vec::new(), ByteOrder::LittleEndian);
    writer.write_u32(0x12345678);
    assert_eq!(writer.into_buffer(), vec![0x78, 0x56, 0x34, 0x12]);
}

#[test]
fn writer_test_endian_writer_big_endian() {
    let mut writer = EndianWriter::new(Vec::new(), ByteOrder::BigEndian);
    writer.write_u16(0x1234);
    assert_eq!(writer.into_buffer(), vec![0x12, 0x34]);

    let mut writer = EndianWriter::new(Vec::new(), ByteOrder::BigEndian);
    writer.write_u32(0x12345678);
    assert_eq!(writer.into_buffer(), vec![0x12, 0x34, 0x56, 0x78]);
}

#[test]
fn writer_test_string_padding() {
    let mut writer = EndianWriter::new(Vec::new(), ByteOrder::LittleEndian);
    writer.write_string_with_padding("ab");
    assert_eq!(writer.into_buffer(), vec![b'a', b'b', 0, 0]);

    let mut writer = EndianWriter::new(Vec::new(), ByteOrder::LittleEndian);
    writer.write_string_with_padding("abcd");
    assert_eq!(writer.into_buffer(), vec![b'a', b'b', b'c', b'd']);
}
