use rxserver::protocol::response::{GetGeometryResponse, RawResponse, Response, ResponseKind};
use rxserver::protocol::serializer::{ResponseSerializer, X11ResponseSerializer};
use rxserver::protocol::types::ByteOrder;

#[test]
fn test_get_geometry_response_serialization() {
    let response = GetGeometryResponse::new(1234, 24, 100, 10, 20, 800, 600, 2);

    let dummy_response = Response::default();
    let serialized = response.serialize(&dummy_response).unwrap().unwrap();

    assert_eq!(serialized.len(), 32);
    assert_eq!(serialized[0], 1);
    assert_eq!(serialized[1], 24);

    let seq_bytes = u16::from_le_bytes([serialized[2], serialized[3]]);
    assert_eq!(seq_bytes, 1234);

    let x_bytes = i16::from_le_bytes([serialized[12], serialized[13]]);
    let y_bytes = i16::from_le_bytes([serialized[14], serialized[15]]);
    let width_bytes = u16::from_le_bytes([serialized[16], serialized[17]]);
    let height_bytes = u16::from_le_bytes([serialized[18], serialized[19]]);

    assert_eq!(x_bytes, 10);
    assert_eq!(y_bytes, 20);
    assert_eq!(width_bytes, 800);
    assert_eq!(height_bytes, 600);
}

#[test]
fn serializer_test_get_geometry_response_size() {
    let response = GetGeometryResponse::new(0, 0, 0, 0, 0, 0, 0, 0);
    assert_eq!(response.serialized_size(), 32);
}

#[test]
fn test_x11_response_serializer_get_geometry() {
    let geo_response = GetGeometryResponse::new(100, 24, 1, 0, 0, 640, 480, 1);
    let response = Response {
        kind: ResponseKind::GetGeometry(geo_response),
        sequence_number: 100,
        byte_order: ByteOrder::LittleEndian,
    };

    let serializer = X11ResponseSerializer;
    let result = serializer.serialize(&response).unwrap().unwrap();
    assert_eq!(result.len(), 32);
}

#[test]
fn get_geometry_serialization_is_exact() {
    let response = GetGeometryResponse::new(0x0102, 8, 0x0a0b0c0d, -2, 3, 0x0304, 0x0506, 7);
    let bytes = response.serialize(&Response::default()).unwrap().unwrap();
    let mut expected = vec![1u8, 8, 0x02, 0x01, 0, 0, 0, 0, 0x0d, 0x0c, 0x0b, 0x0a];
    expected.extend_from_slice(&[0xfe, 0xff, 3, 0, 0x04, 0x03, 0x06, 0x05, 7, 0]);
    expected.extend_from_slice(&[0u8; 10]);
    assert_eq!(bytes, expected);
}

#[test]
fn envelope_serializer_passes_raw_data_and_empties_bare_replies() {
    let serializer = X11ResponseSerializer;
    let data = [1u8, 2, 3];
    let raw = Response {
        kind: ResponseKind::Raw(RawResponse { data: &data }),
        sequence_number: 1,
        byte_order: ByteOrder::BigEndian,
    };
    assert_eq!(serializer.serialize(&raw).unwrap().unwrap(), vec![1, 2, 3]);
    assert_eq!(serializer.serialize(&Response::default()).unwrap().unwrap(), Vec::<u8>::new());
}
