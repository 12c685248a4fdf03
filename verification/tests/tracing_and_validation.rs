use rxserver::protocol::builder::ResponseBuilder;
use rxserver::protocol::message::Response;
use rxserver::protocol::request::{DestroyWindowRequest, Request, RequestKind};
use rxserver::protocol::trace_decode::describe_outgoing;
use rxserver::protocol::types::{ByteOrder, X11Error};
use rxserver::protocol::validator::{RequestValidator, X11RequestValidator};
use rxserver::protocol::wire::{legacy_response_bytes, WireResponse};

#[test]
fn describes_outgoing_messages() {
    assert_eq!(describe_outgoing(&[1, 2], ByteOrder::LittleEndian), "<2 bytes, too short to decode>");
    assert_eq!(
        describe_outgoing(&[0, 3, 5, 0], ByteOrder::LittleEndian),
        "Error(code=3, sequence=5)"
    );
    assert_eq!(
        describe_outgoing(&[1, 0, 0, 5, 0, 0, 0, 2], ByteOrder::BigEndian),
        "Reply(sequence=5, extra_length_words=2, total_bytes=40)"
    );
    assert_eq!(
        describe_outgoing(&[1, 0, 5, 0, 9], ByteOrder::LittleEndian),
        "Reply(sequence=5, extra_length_words=0, total_bytes=32)"
    );
    assert_eq!(
        describe_outgoing(&[12, 0, 1, 1], ByteOrder::LittleEndian),
        "Event(code=12, detail=0, sequence=257)"
    );
}

#[test]
fn validator_refuses_zero_window_ids() {
    let req = Request {
        kind: RequestKind::DestroyWindow(DestroyWindowRequest { opcode: 4, unused: 0, length: 2, window: 0 }),
        sequence_number: 1,
        opcode: 4,
        minor_opcode: None,
    };
    match X11RequestValidator::validate(&req) {
        Err(X11Error::DetailedValue(m)) => assert_eq!(m, "DestroyWindow: window id must be non-zero"),
        _ => panic!("expected a refusal"),
    }
    let ok = Request {
        kind: RequestKind::DestroyWindow(DestroyWindowRequest { opcode: 4, unused: 0, length: 2, window: 9 }),
        sequence_number: 1,
        opcode: 4,
        minor_opcode: None,
    };
    assert!(X11RequestValidator::validate(&ok).is_ok());
}

#[test]
fn builder_makes_responses() {
    match ResponseBuilder::error(3, 7, 0x42, 0, 8) {
        Response::Error(e) => {
            assert_eq!((e.error_code, e.sequence_number, e.bad_value, e.major_opcode), (3, 7, 0x42, 8))
        }
        _ => panic!(),
    }
    let bytes = ResponseBuilder::serialize(&ResponseBuilder::intern_atom_reply(5)).unwrap();
    assert_eq!(bytes.len(), 32);
    assert_eq!(bytes[0], 1);
    let ev = ResponseBuilder::serialize(&ResponseBuilder::expose_event(1, 2, 3, 4, 5, 0)).unwrap();
    assert_eq!(ev[0], 12);
    assert!(matches!(ResponseBuilder::success(), Response::Reply(_)));
}

#[test]
fn legacy_writer_sends_type_then_data() {
    let r = WireResponse { response_type: 1, data: vec![9, 8, 7] };
    assert_eq!(legacy_response_bytes(&r), vec![1, 9, 8, 7]);
}
