use rxserver::protocol::handler::RequestHandler;
use rxserver::protocol::types::X11Error;
use rxserver::protocol::request::QueryExtensionParser;
use rxserver::protocol::handlers::QueryExtensionHandler;
use rxserver::protocol::extension_registry::ExtensionRegistry;
use rxserver::protocol::handler::create_standard_handler_registry;
use rxserver::protocol::handlers::{
    DestroyWindowHandler, GetGeometryHandler, GetInputFocusHandler, InternAtomHandler,
    MapWindowHandler, WindowGeometry,
};
use rxserver::protocol::request::{RequestKind, X11RequestParser};
use rxserver::protocol::types::ByteOrder;

fn get_geometry(drawable: u32) -> Vec<u8> {
    let mut b = vec![14u8, 0, 2, 0];
    b.extend_from_slice(&drawable.to_le_bytes());
    b
}

#[test]
fn parses_core_requests() {
    let r = X11RequestParser::parse(&get_geometry(0x200001)).unwrap();
    match r.kind {
        RequestKind::GetGeometry(g) => assert_eq!(g.drawable, 0x200001),
        _ => panic!(),
    }
    assert!(X11RequestParser::parse(&[]).is_err());
    assert!(X11RequestParser::parse(&get_geometry(1)[..6]).is_err());
    let mut atom = vec![16u8, 1, 3, 0, 4, 0, 0, 0];
    atom.extend_from_slice(b"ATOM");
    let r = X11RequestParser::parse(&atom).unwrap();
    match &r.kind {
        RequestKind::InternAtom(a) => {
            assert_eq!(a.atom_name, "ATOM");
            assert_eq!(a.only_if_exists, 1);
        }
        _ => panic!(),
    }
    assert!(X11RequestParser::validate(&r).is_ok());
}

#[test]
fn get_geometry_reply() {
    let r = X11RequestParser::parse(&get_geometry(0x200001)).unwrap();
    let geometry = WindowGeometry { depth: 24, x: -1, y: 2, width: 300, height: 200, border_width: 1 };
    let reply = GetGeometryHandler
        .handle_request(&r, Some(geometry), 0x100, ByteOrder::LittleEndian)
        .unwrap()
        .unwrap();
    assert_eq!(reply.len(), 32);
    assert_eq!(&reply[..2], &[1, 24]);
    assert_eq!(&reply[8..12], &0x100u32.to_le_bytes());
    assert_eq!(&reply[12..14], &[0xff, 0xff]);
    assert_eq!(&reply[16..18], &300u16.to_le_bytes());
    assert!(GetGeometryHandler.handle_request(&r, None, 0x100, ByteOrder::LittleEndian).is_err());
}

#[test]
fn intern_atom_and_input_focus_replies() {
    let mut atom = vec![16u8, 0, 3, 0, 4, 0, 0, 0];
    atom.extend_from_slice(b"ATOM");
    let r = X11RequestParser::parse(&atom).unwrap();
    let reply = InternAtomHandler.handle_request(&r, Some(77), ByteOrder::BigEndian).unwrap().unwrap();
    assert_eq!(&reply[8..12], &77u32.to_be_bytes());
    let focus = X11RequestParser::parse(&[43, 0, 1, 0]).unwrap();
    let reply = GetInputFocusHandler.handle_request(&focus, 0x100, ByteOrder::LittleEndian).unwrap().unwrap();
    assert_eq!(reply[1], 1);
    assert!(InternAtomHandler.handle_request(&focus, Some(1), ByteOrder::LittleEndian).is_err());
}

#[test]
fn window_requests_need_the_owner() {
    let mut map = vec![8u8, 0, 2, 0];
    map.extend_from_slice(&5u32.to_le_bytes());
    let r = X11RequestParser::parse(&map).unwrap();
    assert!(MapWindowHandler.handle_request(&r, Some(Some(3)), 3).unwrap().is_none());
    assert!(MapWindowHandler.handle_request(&r, Some(Some(4)), 3).is_err());
    assert!(MapWindowHandler.handle_request(&r, None, 3).is_err());
    assert!(DestroyWindowHandler.handle_request(&r, Some(Some(3)), 3).is_err());
}

fn protocol_text(r: Result<Option<Vec<u8>>, X11Error>) -> String {
    match r {
        Err(X11Error::Protocol(m)) => m,
        _ => panic!("expected a protocol error"),
    }
}

#[test]
fn handler_errors_name_the_resources() {
    let mut map = vec![8u8, 0, 2, 0];
    map.extend_from_slice(&5u32.to_le_bytes());
    let r = X11RequestParser::parse(&map).unwrap();
    assert_eq!(protocol_text(MapWindowHandler.handle_request(&r, Some(Some(4)), 3)), "Client 3 does not own window 5");
    assert_eq!(protocol_text(MapWindowHandler.handle_request(&r, None, 3)), "Window 5 does not exist");
    let g = X11RequestParser::parse(&get_geometry(0x200001)).unwrap();
    assert_eq!(
        protocol_text(GetGeometryHandler.handle_request(&g, None, 0x100, ByteOrder::LittleEndian)),
        "GetGeometry: drawable 2097153 does not exist"
    );
}

#[test]
fn standard_registry_routes_core_opcodes() {
    let extensions = ExtensionRegistry::new();
    let registry = create_standard_handler_registry(&extensions);
    assert!(registry.handler_count() > 0);
    assert!(registry.handler_for(14, None).is_some());
    assert!(registry.handler_for(1, None).is_some());
    assert!(registry.handler_for(127, None).is_none());
}

#[test]
fn standard_registry_holds_exactly_the_standard_handlers() {
    let extensions = ExtensionRegistry::new();
    let registry = create_standard_handler_registry(&extensions);
    assert_eq!(registry.handler_count(), 33);
    let keys = registry.registered_opcodes();
    for key in [(1, None), (14, None), (98, None), (128, None), (129, Some(0)), (133, Some(0)), (133, Some(33))] {
        assert!(keys.contains(&key));
    }
    for (major, _) in keys {
        if major >= 128 {
            let name = extensions.extension_for_opcode(major);
            assert!(matches!(name, Some("BIG-REQUESTS") | Some("RANDR") | Some("RENDER")));
        }
    }
    assert!(registry.handler_for(130, None).is_none());
}

#[test]
fn query_extension_drops_trailing_nuls() {
    let extensions = ExtensionRegistry::new();
    let mut bytes = vec![98u8, 0, 5, 0, 14, 0, 0, 0];
    bytes.extend_from_slice(b"BIG-REQUESTS\0\0");
    bytes.extend_from_slice(&[0, 0]);
    let request = QueryExtensionParser::parse(&bytes).unwrap();
    let reply = QueryExtensionHandler.handle_request(&request, &extensions).unwrap().unwrap();
    assert_eq!(reply[8], 1);
    assert_eq!(Some(reply[9]), extensions.major_opcode("BIG-REQUESTS"));
}

fn query_extension(name: &str, extensions: &ExtensionRegistry) -> Vec<u8> {
    let n = name.len();
    let mut bytes = vec![98u8, 0, 0, 0, n as u8, (n >> 8) as u8, 0, 0];
    bytes.extend_from_slice(name.as_bytes());
    while bytes.len() % 4 != 0 {
        bytes.push(0);
    }
    let units = bytes.len() / 4;
    bytes[2] = units as u8;
    bytes[3] = (units >> 8) as u8;
    let request = QueryExtensionParser::parse(&bytes).unwrap();
    QueryExtensionHandler.handle_request(&request, extensions).unwrap().unwrap()
}

#[test]
fn query_extension_reports_only_implemented_extensions() {
    let extensions = ExtensionRegistry::new();
    let shm = query_extension("MIT-SHM", &extensions);
    assert_eq!(shm.len(), 32);
    assert_eq!(shm[0], 1);
    assert_eq!(shm[8], 0);
    assert_eq!(Some(shm[9]), extensions.major_opcode("MIT-SHM"));
    let randr = query_extension("RANDR", &extensions);
    assert_eq!(randr[8], 1);
    assert_eq!(randr[9], 129);
    let unknown = query_extension("NO-SUCH-EXTENSION", &extensions);
    assert_eq!(unknown[8], 0);
    assert_eq!(unknown[9], 0);
}

#[test]
fn handlers_name_themselves_in_wrong_kind_errors() {
    let mut map = vec![8u8, 0, 2, 0];
    map.extend_from_slice(&5u32.to_le_bytes());
    let r = X11RequestParser::parse(&map).unwrap();
    match GetGeometryHandler.handle_request(&r, None, 0x100, ByteOrder::LittleEndian) {
        Err(X11Error::Protocol(m)) => assert!(m.starts_with("Invalid request type for GetGeometry: ")),
        _ => panic!("expected a protocol error"),
    }
    assert_eq!(GetGeometryHandler.name(), "GetGeometry");
    assert_eq!(MapWindowHandler.name(), "MapWindow");
}
