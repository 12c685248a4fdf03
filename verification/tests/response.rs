use rxserver::protocol::response::{
    byte_order, connection_status, GetGeometryResponse, ScreenDepthVisualRaw, VisualClass,
};

#[test]
fn test_get_geometry_response_creation() {
    let response = GetGeometryResponse::new(42, 32, 1, 100, 200, 1024, 768, 5);

    assert_eq!(response.response_type, 1);
    assert_eq!(response.depth, 32);
    assert_eq!(response.sequence_number, 42);
    assert_eq!(response.length, 0);
    assert_eq!(response.root, 1);
    assert_eq!(response.x, 100);
    assert_eq!(response.y, 200);
    assert_eq!(response.width, 1024);
    assert_eq!(response.height, 768);
    assert_eq!(response.border_width, 5);
    assert_eq!(response.unused, [0; 10]);
}

#[test]
fn response_test_get_geometry_response_size() {
    assert_eq!(std::mem::size_of::<GetGeometryResponse>(), 32);
}

#[test]
fn visual_class_numbers_round_trip() {
    for v in 0u8..=5 {
        let class = VisualClass::try_from(v).unwrap();
        assert_eq!(class.to_u8(), v);
        assert_eq!(u8::from(class), v);
    }
    assert_eq!(VisualClass::try_from(4), Ok(VisualClass::TrueColor));
    assert_eq!(VisualClass::try_from(6), Err(6));
    assert_eq!(VisualClass::try_from(255), Err(255));
}

#[test]
fn visual_reports_its_class() {
    let mut visual = ScreenDepthVisualRaw {
        id: 0x21,
        class: 4,
        bits_per_rgb_value: 8,
        colormap_entries: 256,
        red_mask: 0xff0000,
        green_mask: 0x00ff00,
        blue_mask: 0x0000ff,
    };
    assert_eq!(visual.class(), Ok(VisualClass::TrueColor));
    visual.class = 9;
    assert_eq!(visual.class(), Err(9));
}

#[test]
fn protocol_constants() {
    assert_eq!(byte_order::MSB_FIRST, b'B');
    assert_eq!(byte_order::LSB_FIRST, b'l');
    assert_eq!(connection_status::FAILED, 0);
    assert_eq!(connection_status::SUCCESS, 1);
    assert_eq!(connection_status::AUTHENTICATE, 2);
}
