use rxserver::protocol::requests::{Request, RequestParser};
use rxserver::protocol::types::{WindowClass, X11Error};

fn protocol_message(r: Result<Request, X11Error>) -> String {
    match r {
        Err(X11Error::Protocol(m)) => m,
        other => panic!("expected a protocol error, got {:?}", other),
    }
}

#[test]
fn short_and_incomplete_requests_are_refused() {
    assert_eq!(protocol_message(RequestParser::parse(&[1, 2])), "Request too short");
    let ne_len = u16::from_ne_bytes([3, 0]) as usize * 4;
    let r = RequestParser::parse(&[8, 0, 3, 0, 0, 0, 0, 1]);
    assert_eq!(
        protocol_message(r),
        format!("Incomplete request: expected {} bytes, got 8", ne_len)
    );
}

#[test]
fn map_and_unmap_read_big_endian_windows() {
    let r = RequestParser::parse_with_length(&[8, 0, 2, 0, 0, 0, 1, 2], 2).unwrap();
    match r {
        Request::MapWindow(m) => assert_eq!(m.window, 0x0102),
        _ => panic!(),
    }
    assert_eq!(
        protocol_message(RequestParser::parse_with_length(&[10, 0, 2, 0, 0, 0, 1, 2], 2)),
        "UnmapWindow request too short"
    );
    let r = RequestParser::parse_with_length(&[10, 0, 3, 0, 0, 0, 1, 2, 9, 9, 9, 9], 3).unwrap();
    match r {
        Request::UnmapWindow(m) => assert_eq!(m.window, 0x0102),
        _ => panic!(),
    }
    assert_eq!(r_describe(&[8, 0, 2, 0, 0, 0, 0, 5]), "MapWindow(5)");
}

fn r_describe(data: &[u8]) -> String {
    RequestParser::parse_with_length(data, (data.len() / 4) as u16).unwrap().describe()
}

#[test]
fn intern_atom_and_open_font() {
    let mut data = vec![16u8, 1, 3, 0, 4, 0, 0, 0];
    data.extend_from_slice(b"WM_X");
    let r = RequestParser::parse_with_length(&data, 3).unwrap();
    match &r {
        Request::InternAtom(a) => {
            assert!(a.only_if_exists);
            assert_eq!(a.name, "WM_X");
        }
        _ => panic!(),
    }
    assert_eq!(r.describe(), "InternAtom(name='WM_X', only_if_exists=true)");
    let short = vec![16u8, 0, 2, 0, 9, 0, 0, 0];
    assert_eq!(
        protocol_message(RequestParser::parse_with_length(&short, 2)),
        "InternAtom request name truncated: need 17 bytes, have 8"
    );
    let bad = vec![16u8, 0, 3, 0, 2, 0, 0, 0, 0xff, 0xfe, 0, 0];
    assert_eq!(
        protocol_message(RequestParser::parse_with_length(&bad, 3)),
        "Invalid UTF-8 in atom name"
    );
    let mut font = vec![45u8, 0, 4, 0, 7, 0, 0, 0, 5, 0, 0, 0];
    font.extend_from_slice(b"fixed");
    let r = RequestParser::parse_with_length(&font, 4).unwrap();
    assert_eq!(r.describe(), "OpenFont(fid=7, name='fixed')");
    assert_eq!(
        protocol_message(RequestParser::parse_with_length(&font[..10], 2)),
        "OpenFont request too short"
    );
}

#[test]
fn create_window_reads_after_the_header() {
    let mut data = vec![1u8, 24, 9, 0];
    data.push(24);
    data.extend_from_slice(&0x00200001u32.to_be_bytes());
    data.extend_from_slice(&0x00000100u32.to_be_bytes());
    data.extend_from_slice(&(-5i16).to_be_bytes());
    data.extend_from_slice(&7i16.to_be_bytes());
    data.extend_from_slice(&640u16.to_be_bytes());
    data.extend_from_slice(&480u16.to_be_bytes());
    data.extend_from_slice(&1u16.to_be_bytes());
    data.extend_from_slice(&1u16.to_be_bytes());
    data.extend_from_slice(&0x21u32.to_be_bytes());
    data.extend_from_slice(&0xffffu32.to_be_bytes());
    data.extend_from_slice(&[0, 0, 0]);
    let r = RequestParser::parse_with_length(&data, 9).unwrap();
    match &r {
        Request::CreateWindow(c) => {
            assert_eq!(c.depth, 24);
            assert_eq!(c.wid, 0x00200001);
            assert_eq!(c.parent, 0x100);
            assert_eq!(c.x, -5);
            assert_eq!(c.width, 640);
            assert_eq!(c.class, WindowClass::InputOutput);
            assert_eq!(c.visual, 0x21);
            assert_eq!(c.value_mask.bits, 0x7fff);
        }
        _ => panic!(),
    }
    assert_eq!(r.describe(), "CreateWindow(wid=2097153, parent=256, 640x480+-5+7)");
    let mut bad = data.clone();
    bad[24] = 7;
    assert_eq!(protocol_message(RequestParser::parse_with_length(&bad, 9)), "Invalid window class");
}

#[test]
fn clear_area_glyph_cursor_grab_pointer_and_unknown() {
    let mut ca = vec![61u8, 0, 6, 0, 0, 1, 0, 0, 0, 0, 0, 9];
    ca.extend_from_slice(&[0, 1, 0, 2, 0, 3, 0, 4, 0, 0, 0, 0]);
    let r = RequestParser::parse_with_length(&ca, 6).unwrap();
    match &r {
        Request::ClearArea(c) => {
            assert!(c.exposures);
            assert_eq!((c.window, c.x, c.y, c.width, c.height), (9, 1, 2, 3, 4));
        }
        _ => panic!(),
    }
    assert_eq!(r.describe(), "ClearArea(window=9, 3x4+1+2)");
    let mut gc = vec![94u8, 0, 8, 0];
    for v in [1u32, 2, 3] {
        gc.extend_from_slice(&v.to_le_bytes());
    }
    for v in [4u16, 5, 6, 7, 8, 9, 10, 11] {
        gc.extend_from_slice(&v.to_le_bytes());
    }
    let r = RequestParser::parse_with_length(&gc, 8).unwrap();
    assert_eq!(
        r.describe(),
        "CreateGlyphCursor(cid=1, source_font=2, mask_font=3, source_char=4, mask_char=5)"
    );
    let mut gp = vec![26u8, 1, 6, 0, 5, 0, 0, 0, 4, 0, 1, 0];
    gp.extend_from_slice(&[0u8; 12]);
    match RequestParser::parse_with_length(&gp, 6).unwrap() {
        Request::GrabPointer(g) => {
            assert!(g.owner_events);
            assert_eq!((g.grab_window, g.event_mask, g.pointer_mode, g.keyboard_mode), (5, 4, 1, 0));
        }
        _ => panic!(),
    }
    match RequestParser::parse_with_length(&[99, 0, 1, 0], 1).unwrap() {
        Request::Unknown { opcode, data } => {
            assert_eq!(opcode, 99);
            assert_eq!(&data[..], &[99u8, 0, 1, 0]);
        }
        _ => panic!(),
    }
}
