use rxserver::protocol::error::{ProtocolError, ServerError};
use rxserver::protocol::types::Opcode;
use rxserver::protocol::wire::{encode_response, parse_request_from_buffer, parse_request_header, WireResponse};
use rxserver::protocol::wire::utils::{padded_length, padding_for_length, validate_buffer_length};

#[test]
fn request_headers() {
    let (op, rest) = parse_request_header([14, 0, 2, 0]).unwrap();
    assert_eq!(op, Opcode::Core(14));
    assert_eq!(rest, 4);
    let (op, _) = parse_request_header([140, 3, 1, 0]).unwrap();
    assert_eq!(op, Opcode::Extension(140, 3));
    assert!(parse_request_header([14, 0, 0, 0]).is_err());
}

#[test]
fn requests_from_a_buffer_take_sequence_numbers() {
    let mut seq = 0xffffu16;
    let buf = [8u8, 0, 2, 0, 1, 0, 0, 0, 99];
    let r = parse_request_from_buffer(&buf, &mut seq).unwrap().unwrap();
    assert_eq!(seq, 0);
    assert_eq!(r.sequence_number, 0);
    assert_eq!(r.data, vec![8, 0, 2, 0, 1, 0, 0, 0]);
    assert!(parse_request_from_buffer(&buf[..6], &mut seq).unwrap().is_none());
    assert_eq!(seq, 0);
    assert!(parse_request_from_buffer(&[8, 0, 0, 0], &mut seq).is_err());
    assert!(parse_request_from_buffer(&[8, 0, 2], &mut seq).unwrap().is_none());
    assert_eq!(seq, 0);
}

#[test]
fn responses_carry_the_sequence_number() {
    let r = WireResponse { response_type: 1, data: vec![0, 9, 9, 4, 5] };
    assert_eq!(encode_response(&r, 0x0203), vec![1, 0, 3, 2, 4, 5]);
    let short = WireResponse { response_type: 0, data: vec![1] };
    let bytes = encode_response(&short, 9);
    assert_eq!(bytes.len(), 32);
    assert_eq!(&bytes[..2], &[0, 1]);
}

#[test]
fn padding_helpers() {
    assert_eq!(padding_for_length(5), 3);
    assert_eq!(padding_for_length(8), 0);
    assert_eq!(padded_length(5), 8);
    assert!(validate_buffer_length(&[0u8; 4], 4).is_ok());
    assert!(validate_buffer_length(&[0u8; 3], 4).is_err());
}

#[test]
fn short_buffer_message_names_both_lengths() {
    match validate_buffer_length(&[0u8; 3], 10) {
        Err(ServerError::ProtocolError(ProtocolError::InvalidMessage(m))) => {
            assert_eq!(m, "Buffer too short: expected 10, got 3")
        }
        _ => panic!("expected an error"),
    }
}
