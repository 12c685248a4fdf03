use rxserver::protocol::error::{ProtocolError, ServerError};
use rxserver::protocol::connection::{
    ConnectionHandler, ConnectionSetupStatus, MitMagicCookieProtocol,
};
use rxserver::protocol::handshake::{
    process_handshake, ConnectionSetupResponse, DisplayConfig, HandshakeOutcome,
};

fn setup_request(order: u8, major: u16, name: &str, data: &[u8]) -> Vec<u8> {
    let enc = |v: u16| if order == b'l' { v.to_le_bytes() } else { v.to_be_bytes() };
    let mut b = vec![order, 0];
    b.extend_from_slice(&enc(major));
    b.extend_from_slice(&enc(0));
    b.extend_from_slice(&enc(name.len() as u16));
    b.extend_from_slice(&enc(data.len() as u16));
    b.extend_from_slice(&[0, 0]);
    b.extend_from_slice(name.as_bytes());
    while b.len() % 4 != 0 {
        b.push(0);
    }
    b.extend_from_slice(data);
    while b.len() % 4 != 0 {
        b.push(0);
    }
    b
}

const COOKIE: [u8; 16] = [7u8; 16];

#[test]
fn accepts_the_right_cookie() {
    let handler = ConnectionHandler::new(Some(vec![COOKIE.to_vec()]), None);
    let bytes = setup_request(b'l', 11, "MIT-MAGIC-COOKIE-1", &COOKIE);
    let request = ConnectionHandler::parse_setup_request(&bytes).unwrap();
    assert_eq!(request.protocol_major_version, 11);
    assert_eq!(request.authorization_protocol_name, "MIT-MAGIC-COOKIE-1");
    let response = handler.handle_connection_setup(request).unwrap();
    assert_eq!(response.status, ConnectionSetupStatus::Success);
    let wire = handler.serialize_setup_response(&response).unwrap();
    assert_eq!(wire[0], 1);
    assert_eq!(wire.len(), 8 + 4 * response.additional_data_length as usize);
    let visual = &wire[wire.len() - 24..];
    assert_eq!(&visual[..4], &0x21u32.to_le_bytes());
    assert_eq!(visual[4], 4);
    assert_eq!(visual[5], 8);
    assert_eq!(&visual[8..12], &0x00ff0000u32.to_le_bytes());
    assert_eq!(&visual[12..16], &0x0000ff00u32.to_le_bytes());
    assert_eq!(&visual[16..20], &0x000000ffu32.to_le_bytes());
}

#[test]
fn refuses_a_wrong_or_short_cookie_and_unknown_protocols() {
    let handler = ConnectionHandler::new(Some(vec![COOKIE.to_vec()]), None);
    let wrong = setup_request(b'B', 11, "MIT-MAGIC-COOKIE-1", &[1u8; 16]);
    let r = handler
        .handle_connection_setup(ConnectionHandler::parse_setup_request(&wrong).unwrap())
        .unwrap();
    assert_eq!(r.status, ConnectionSetupStatus::Failed);
    assert_eq!(r.reason, "Invalid cookie");
    let short = setup_request(b'l', 11, "MIT-MAGIC-COOKIE-1", &[1u8; 4]);
    let r = handler
        .handle_connection_setup(ConnectionHandler::parse_setup_request(&short).unwrap())
        .unwrap();
    assert_eq!(r.reason, "MIT-MAGIC-COOKIE-1 requires 16-byte cookie");
    let other = setup_request(b'l', 11, "XDM-AUTHORIZATION-1", &[1u8; 8]);
    let r = handler
        .handle_connection_setup(ConnectionHandler::parse_setup_request(&other).unwrap())
        .unwrap();
    assert_eq!(r.reason, "Unknown authentication protocol");
    let none = setup_request(b'l', 11, "", &[]);
    let r = handler
        .handle_connection_setup(ConnectionHandler::parse_setup_request(&none).unwrap())
        .unwrap();
    assert_eq!(r.status, ConnectionSetupStatus::Success);
    let old = setup_request(b'l', 10, "", &[]);
    let r = handler
        .handle_connection_setup(ConnectionHandler::parse_setup_request(&old).unwrap())
        .unwrap();
    assert_eq!(r.status, ConnectionSetupStatus::Failed);
    assert_eq!(r.reason, "Unsupported protocol version");
    assert_eq!(r.reason_length, 28);
    assert_eq!(r.additional_data_length, 7);
    let wire = handler.serialize_setup_response(&r).unwrap();
    assert_eq!(wire.len(), 8 + 4 * r.additional_data_length as usize);
    assert_eq!(wire[1], 28);
    assert_eq!(&wire[8..36], b"Unsupported protocol version");
    let wrong = setup_request(b'l', 11, "MIT-MAGIC-COOKIE-1", &[1u8; 16]);
    let r = handler
        .handle_connection_setup(ConnectionHandler::parse_setup_request(&wrong).unwrap())
        .unwrap();
    assert_eq!(r.reason_length, 14);
    assert_eq!(r.additional_data_length, 4);
}

#[test]
fn failed_setup_reply_puts_the_reason_after_the_header() {
    assert_eq!(ConnectionSetupResponse::failed("ab").data, vec![2, b'a', b'b', 0]);
    assert_eq!(ConnectionSetupResponse::failed("abc").data, vec![3, b'a', b'b', b'c']);
    let reply = ConnectionSetupResponse::failed("ab").serialize();
    assert_eq!(reply, vec![0, 2, 11, 0, 0, 0, 1, 0, b'a', b'b', 0, 0]);
    let reply = ConnectionSetupResponse::failed("abcd").serialize();
    assert_eq!(reply, vec![0, 4, 11, 0, 0, 0, 1, 0, b'a', b'b', b'c', b'd']);
    let reply = ConnectionSetupResponse::failed("abc").serialize();
    assert_eq!(reply, vec![0, 3, 11, 0, 0, 0, 1, 0, b'a', b'b', b'c', 0]);
}

#[test]
fn setup_requests_must_be_complete() {
    assert!(ConnectionHandler::parse_setup_request(&[b'l', 0, 11, 0]).is_err());
    let mut bytes = setup_request(b'l', 11, "MIT-MAGIC-COOKIE-1", &COOKIE);
    bytes.truncate(40);
    assert!(ConnectionHandler::parse_setup_request(&bytes).is_err());
    let mut odd = setup_request(b'l', 11, "", &[]);
    odd[0] = b'x';
    assert!(ConnectionHandler::parse_setup_request(&odd).is_err());
}

#[test]
fn xauthority_entries_give_their_cookies() {
    let mut data = vec![1u8, 0, 0, 4];
    data.extend_from_slice(b"host");
    data.extend_from_slice(&[0, 1, b'0', 0, 18]);
    data.extend_from_slice(b"MIT-MAGIC-COOKIE-1");
    data.extend_from_slice(&[0, 16]);
    data.extend_from_slice(&COOKIE);
    let cookies = MitMagicCookieProtocol::parse_xauthority_data(&data).unwrap();
    assert_eq!(cookies, vec![COOKIE.to_vec()]);
    assert!(MitMagicCookieProtocol::parse_xauthority_data(&data[..20]).is_none());
}

#[test]
fn temporary_cookie_layout() {
    let c = MitMagicCookieProtocol::cookie_from_timestamp(0x0000000100000002);
    assert_eq!(c.len(), 16);
    assert_eq!(&c[..8], &[2, 0, 0, 0, 1, 0, 0, 0]);
    assert_eq!(&c[8..12], &0x42525853u32.to_le_bytes());
    assert_eq!(&c[12..], &0xDEADBEEFu32.to_le_bytes());
}

#[test]
fn handshake_accepts_version_eleven_and_refuses_others() {
    let config = DisplayConfig { width: 800, height: 600, width_mm: 211, height_mm: 158, depth: 24 };
    let ok = setup_request(b'l', 11, "", &[]);
    match process_handshake(&ok, Some(&config)).unwrap() {
        HandshakeOutcome::Accepted { request, reply } => {
            assert_eq!(request.protocol_major_version, 11);
            assert_eq!(reply[0], 1);
            let extra = u16::from_le_bytes([reply[6], reply[7]]) as usize;
            assert_eq!(reply.len(), 8 + 4 * extra);
        }
        _ => panic!("expected acceptance"),
    }
    let old = setup_request(b'l', 10, "", &[]);
    match process_handshake(&old, None).unwrap() {
        HandshakeOutcome::Refused { reply, .. } => assert_eq!(reply[0], 0),
        _ => panic!("expected refusal"),
    }
    assert!(process_handshake(&[b'l', 0, 11], None).is_err());
}

#[test]
fn too_short_setup_names_its_length() {
    match process_handshake(&[b'l', 0, 11, 0, 0], None) {
        Err(ServerError::ProtocolError(ProtocolError::InvalidMessage(m))) => {
            assert_eq!(m, "Connection setup request too short: 5 bytes")
        }
        _ => panic!("expected an error"),
    }
    let old = setup_request(b'l', 10, "", &[]);
    match process_handshake(&old, None).unwrap() {
        HandshakeOutcome::Refused { reply, error } => {
            let reason_len = reply[1] as usize;
            assert_eq!(&reply[8..8 + reason_len], b"Unsupported protocol version 10.0");
            assert_eq!(reply.len(), 8 + 4 * u16::from_le_bytes([reply[6], reply[7]]) as usize);
            assert!(matches!(
                error,
                ServerError::ProtocolError(ProtocolError::UnsupportedProtocolVersion(10, 0))
            ));
        }
        _ => panic!("expected refusal"),
    }
}
