use rxserver::protocol::error::{ProtocolError, ServerError};
use rxserver::protocol::handler::default::DefaultProtocolHandler;
use rxserver::protocol::handler::extension::ExtensionHandler;
use rxserver::protocol::handler::headless::HeadlessProtocolHandler;
use rxserver::protocol::handler::native_display::NativeDisplayProtocolHandler;
use rxserver::protocol::handler::other_handler::{CoreProtocolHandler, NONE};
use rxserver::protocol::handler::property::{
    GetPropertyParams, PropertyAction, PropertyProtocolHandler, StoredProperty,
};
use rxserver::protocol::handler::registry::{bytes_after_request, ProtocolHandlerRegistry};
use rxserver::protocol::handler::surface::SurfaceProtocolHandler;
use rxserver::protocol::handler::virtual_display::{
    DisplayMessage, DisplayWindowState, MessageOutcome, ResizeOutcome,
    VirtualDisplayProtocolHandler,
};
use rxserver::protocol::handler::window::WindowProtocolHandler;
use rxserver::protocol::handshake::DisplayConfig;
use rxserver::protocol::types::Opcode;
use rxserver::protocol::wire::{WireRequest, WireResponse};

fn request(opcode: Opcode, data: Vec<u8>) -> WireRequest {
    WireRequest::new_with_header(opcode, 7, data)
}

fn unimplemented(r: &Result<Option<WireResponse>, ServerError>, op: Opcode) -> bool {
    matches!(r, Err(ServerError::ProtocolError(ProtocolError::UnimplementedOpcode(o))) if *o == op)
}

#[test]
fn default_handler_needs_the_window_manager() {
    let h = DefaultProtocolHandler::new().unwrap();
    let r = h.handle_request(1, &request(Opcode::Core(1), vec![]), true).unwrap().unwrap();
    assert_eq!(r.response_type, 1);
    assert_eq!(r.data, vec![0u8; 32]);
    match h.handle_request(1, &request(Opcode::Core(4), vec![]), false) {
        Err(ServerError::PluginError(m)) => assert_eq!(m, "WindowManager plugin not found"),
        _ => panic!("expected a plugin error"),
    }
    assert!(unimplemented(&h.handle_request(1, &request(Opcode::Core(8), vec![]), true), Opcode::Core(8)));
    assert_eq!(
        h.supported_opcodes(),
        vec![Opcode::Core(1), Opcode::Core(4), Opcode::Core(8), Opcode::Core(10)]
    );
}

#[test]
fn stub_handlers_refuse_everything() {
    let w = WindowProtocolHandler::new();
    assert!(unimplemented(&w.handle_request(1, &request(Opcode::Core(1), vec![])), Opcode::Core(1)));
    assert_eq!(w.supported_opcodes().len(), 6);
    let h = HeadlessProtocolHandler::new().unwrap();
    assert!(unimplemented(&h.handle_request(1, &request(Opcode::Core(55), vec![])), Opcode::Core(55)));
    assert_eq!(h.supported_opcodes().len(), 16);
    let s = SurfaceProtocolHandler::new(640, 480, 24);
    assert!(unimplemented(&s.handle_request(1, Opcode::Core(56)), Opcode::Core(56)));
    assert_eq!(s.supported_opcodes()[5], Opcode::Core(59));
    let c = CoreProtocolHandler::new();
    match c.handle_request(1, &request(Opcode::Core(16), vec![])) {
        Err(ServerError::ProtocolError(ProtocolError::UnsupportedOpcode(o))) => {
            assert_eq!(o, Opcode::Core(16))
        }
        _ => panic!("expected unsupported"),
    }
    assert_eq!(c.supported_opcodes().len(), 17);
    assert_eq!(NONE, 0);
}

#[test]
fn native_display_answers_window_requests() {
    let h = NativeDisplayProtocolHandler::new(800, 600).unwrap();
    let r = h.handle_request(1, Opcode::Core(1)).unwrap().unwrap();
    let mut expected = vec![0x01u8, 0x00, 0x00, 0x01];
    expected.extend_from_slice(&[0u8; 28]);
    assert_eq!(r.data, expected);
    assert_eq!(h.handle_request(1, Opcode::Core(8)).unwrap().unwrap().data, vec![0u8; 32]);
    assert!(h.handle_request(1, Opcode::Core(55)).unwrap().is_none());
    assert!(unimplemented(&h.handle_request(1, Opcode::Core(64)), Opcode::Core(64)));
    assert_eq!(h.supported_opcodes().len(), 24);
}

#[test]
fn get_property_request_parses_little_endian_fields() {
    let mut data = vec![20u8, 1, 6, 0];
    data.extend_from_slice(&0x00400001u32.to_le_bytes());
    data.extend_from_slice(&39u32.to_le_bytes());
    data.extend_from_slice(&31u32.to_le_bytes());
    data.extend_from_slice(&0u32.to_le_bytes());
    data.extend_from_slice(&100u32.to_le_bytes());
    let p = PropertyProtocolHandler::parse_get_property_request(&data).unwrap();
    assert_eq!(
        p,
        GetPropertyParams {
            delete: true,
            window: 0x00400001,
            property: 39,
            property_type: 31,
            long_offset: 0,
            long_length: 100
        }
    );
    match PropertyProtocolHandler::parse_get_property_request(&data[..23]) {
        Err(ServerError::ProtocolError(ProtocolError::InvalidMessage(m))) => {
            assert_eq!(m, "GetProperty request too short")
        }
        _ => panic!("expected an error"),
    }
    let h = PropertyProtocolHandler::new();
    match h.handle_request(1, &request(Opcode::Core(20), data.clone())).unwrap() {
        PropertyAction::LookUp(q) => assert_eq!(q, p),
        _ => panic!("expected a lookup"),
    }
    match h.handle_request(1, &request(Opcode::Core(18), vec![])).unwrap() {
        PropertyAction::Reply(r) => assert_eq!(r.data, vec![0u8; 32]),
        _ => panic!("expected a reply"),
    }
    assert!(h.handle_request(1, &request(Opcode::Core(21), vec![])).is_err());
    assert_eq!(h.supported_opcodes(), vec![Opcode::Core(20), Opcode::Core(18), Opcode::Core(19)]);
}

#[test]
fn get_property_reply_layout() {
    let r = PropertyProtocolHandler::create_get_property_response(3, 31, 8, 0, b"hello".to_vec())
        .unwrap();
    assert_eq!(r.response_type, 1);
    let mut expected = vec![1u8, 8, 3, 0, 2, 0, 0, 0, 31, 0, 0, 0, 0, 0, 0, 0, 5, 0, 0, 0];
    expected.extend_from_slice(&[0u8; 12]);
    expected.extend_from_slice(b"hello");
    expected.extend_from_slice(&[0u8; 3]);
    assert_eq!(r.data, expected);
    let r32 = PropertyProtocolHandler::create_get_property_response(3, 6, 32, 0, vec![0u8; 8])
        .unwrap();
    assert_eq!(&r32.data[16..20], &[2u8, 0, 0, 0]);
    match PropertyProtocolHandler::create_get_property_response(3, 6, 7, 0, vec![]) {
        Err(ServerError::ProtocolError(ProtocolError::InvalidMessage(m))) => {
            assert_eq!(m, "Invalid property format: 7")
        }
        _ => panic!("expected an error"),
    }
}

#[test]
fn get_property_reply_follows_the_lookups() {
    let params = GetPropertyParams {
        delete: true,
        window: 1,
        property: 39,
        property_type: 31,
        long_offset: 0,
        long_length: 100,
    };
    let prop = StoredProperty { type_atom: 31, format: 8, data: b"abc".to_vec() };
    let (r, delete) =
        PropertyProtocolHandler::get_property_reply(9, params, Some((prop.clone(), 0)), None).unwrap();
    assert!(delete);
    assert_eq!(&r.data[32..35], b"abc");
    let (r, delete) =
        PropertyProtocolHandler::get_property_reply(9, params, Some((prop.clone(), 4)), None).unwrap();
    assert!(!delete);
    assert_eq!(&r.data[12..16], &[4u8, 0, 0, 0]);
    let (r, delete) =
        PropertyProtocolHandler::get_property_reply(9, params, None, Some(prop)).unwrap();
    assert!(!delete);
    assert_eq!(r.data.len(), 32);
    assert_eq!(&r.data[8..16], &[31u8, 0, 0, 0, 3, 0, 0, 0]);
    let (r, _) = PropertyProtocolHandler::get_property_reply(9, params, None, None).unwrap();
    assert_eq!(r.data[1], 0);
    assert_eq!(&r.data[8..12], &[0u8; 4]);
}

fn query_extension(name: &str) -> Vec<u8> {
    let mut data = vec![98u8, 0];
    data.extend_from_slice(&(name.len() as u16).to_be_bytes());
    data.extend_from_slice(name.as_bytes());
    for _ in 0..(4 - name.len() % 4) % 4 {
        data.push(0);
    }
    data
}

#[test]
fn extension_handler_queries_and_lists() {
    let h = ExtensionHandler::new();
    let r = h.handle_request(1, &request(Opcode::Core(98), query_extension("BIG-REQUESTS")))
        .unwrap()
        .unwrap();
    assert_eq!(r.data.len(), 32);
    assert_eq!(&r.data[..11], &[1u8, 1, 0, 0, 0, 0, 0, 0, 132, 0, 0]);
    let r = h.handle_request(1, &request(Opcode::Core(98), query_extension("XC-MISC")))
        .unwrap()
        .unwrap();
    assert_eq!(r.data[8], 133);
    let r = h.handle_request(1, &request(Opcode::Core(98), query_extension("RANDR")))
        .unwrap()
        .unwrap();
    assert_eq!(&r.data[..11], &[1u8, 0, 0, 0, 0, 0, 0, 0, 0, 0, 0]);
    let r = h.handle_request(1, &request(Opcode::Core(98), vec![98, 0]))
        .unwrap()
        .unwrap();
    assert_eq!(r.data[1], 0);
    let list = h.handle_request(1, &request(Opcode::Core(99), vec![])).unwrap().unwrap();
    let mut expected = vec![1u8, 2, 0, 0, 6, 0, 0, 0, 12];
    expected.extend_from_slice(b"BIG-REQUESTS");
    expected.push(7);
    expected.extend_from_slice(b"XC-MISC");
    expected.extend_from_slice(&[0, 0, 0]);
    assert_eq!(list.data, expected);
    let big = h.handle_request(1, &request(Opcode::Extension(132, 0), vec![])).unwrap().unwrap();
    assert_eq!(&big.data[8..12], &0x3FFFFFFFu32.to_le_bytes());
    assert!(unimplemented(
        &h.handle_request(1, &request(Opcode::Extension(133, 1), vec![])),
        Opcode::Extension(133, 1)
    ));
    assert_eq!(h.clone().supported_opcodes().len(), 3);
}

#[test]
fn registry_routes_and_refuses_taken_opcodes() {
    let mut reg = ProtocolHandlerRegistry::new();
    assert_eq!(reg.register_handler(&[Opcode::Core(1), Opcode::Core(4)]).unwrap(), 0);
    assert_eq!(reg.register_handler(&[]).unwrap(), 1);
    match reg.register_handler(&[Opcode::Core(8), Opcode::Core(4), Opcode::Core(1)]) {
        Err(ServerError::ProtocolError(ProtocolError::OpcodeAlreadyRegistered(o))) => {
            assert_eq!(o, Opcode::Core(4))
        }
        _ => panic!("expected a conflict"),
    }
    assert!(reg.handler_for(Opcode::Core(8)).is_err());
    assert_eq!(reg.register_handler(&[Opcode::Extension(132, 0)]).unwrap(), 2);
    assert_eq!(reg.handler_for(Opcode::Core(4)).unwrap(), 0);
    assert_eq!(reg.handler_for(Opcode::Extension(132, 0)).unwrap(), 2);
    match reg.handler_for(Opcode::Extension(132, 1)) {
        Err(ServerError::ProtocolError(ProtocolError::UnimplementedOpcode(o))) => {
            assert_eq!(o, Opcode::Extension(132, 1))
        }
        _ => panic!("expected unimplemented"),
    }
    assert_eq!(reg.handlers_to_shut_down(), vec![0, 2]);
    assert!(reg.display_config().is_none());
    let config = DisplayConfig { width: 640, height: 480, width_mm: 169, height_mm: 127, depth: 24 };
    reg.set_display_config(config);
    assert_eq!(reg.display_config().unwrap().width, 640);
    assert_eq!(ProtocolHandlerRegistry::with_display_config(config).display_config().unwrap().depth, 24);
}

#[test]
fn connection_replies_after_each_request() {
    let ok: Result<Option<WireResponse>, ServerError> =
        Ok(Some(WireResponse { response_type: 1, data: vec![5, 6, 7, 8] }));
    assert_eq!(bytes_after_request(&ok, 0x0102).unwrap(), vec![1, 5, 2, 1, 8]);
    assert!(bytes_after_request(&Ok(None), 3).is_none());
    let err: Result<Option<WireResponse>, ServerError> =
        Err(ServerError::NetworkError("x".to_string()));
    assert_eq!(bytes_after_request(&err, 3).unwrap(), vec![0, 1, 3, 0, 0, 0, 0, 0]);
}

#[test]
fn virtual_display_window_state() {
    let mut s = DisplayWindowState::new(2, 2);
    assert_eq!(s.framebuffer, vec![0u32; 4]);
    assert_eq!(s.on_resized(0, 5, 100), ResizeOutcome::Ignored);
    assert_eq!(s.on_resized(2, 2, 100), ResizeOutcome::Ignored);
    assert_eq!(s.on_resized(3, 2, 10), ResizeOutcome::Deferred);
    assert_eq!(s.current_width, 3);
    assert_eq!(s.framebuffer.len(), 4);
    assert_eq!(s.on_resized(3, 2, 10), ResizeOutcome::Ignored);
    assert_eq!(s.on_resized(3, 3, 50), ResizeOutcome::Applied(3, 3));
    assert_eq!(s.framebuffer.len(), 9);
    assert_eq!(s.on_message(DisplayMessage::UpdateFramebuffer(vec![7, 8])), MessageOutcome::Redraw);
    assert_eq!(&s.framebuffer[..3], &[7, 8, 0]);
    assert_eq!(s.on_message(DisplayMessage::Refresh), MessageOutcome::Redraw);
    assert_eq!(s.on_message(DisplayMessage::Shutdown), MessageOutcome::Exit);
    assert_eq!(s.present_len(4), 4);
    assert_eq!(s.present_len(100), 9);
}

#[test]
fn virtual_display_protocol_actions() {
    let h = VirtualDisplayProtocolHandler::new().unwrap();
    let a = h.handle_request(1, Opcode::Core(1)).unwrap();
    assert!(a.refresh);
    assert_eq!(&a.reply.unwrap().data[..4], &[1u8, 0, 0, 1]);
    let a = h.handle_request(1, Opcode::Core(8)).unwrap();
    assert!(a.refresh && a.reply.is_none());
    let a = h.handle_request(1, Opcode::Core(70)).unwrap();
    assert!(a.refresh && a.reply.is_none());
    let a = h.handle_request(1, Opcode::Core(55)).unwrap();
    assert!(!a.refresh && a.reply.is_none());
    assert!(h.handle_request(1, Opcode::Core(56)).is_err());
    assert!(VirtualDisplayProtocolHandler::accepts_resize(1, 1));
    assert!(!VirtualDisplayProtocolHandler::accepts_resize(0, 1));
    assert_eq!(h.supported_opcodes().len(), 20);
}
