use bytes::BytesMut;
use rxserver::protocol::extension_registry::ExtensionRegistry;
use rxserver::protocol::message::events::Event;
use rxserver::protocol::message::replies::{GetAtomNameReply, QueryTreeReply, Reply};
use rxserver::protocol::request::X11RequestParser;
use rxserver::protocol::serialization::events::serialize_event;
use rxserver::protocol::serialization::replies::serialize_reply;
use rxserver::protocol::wire::{X11BufExt, X11BufMutExt};

#[test]
fn a_written_string_reads_back_whole() {
    for text in ["", "a", "abcd", "héllo wörld", "BIG-REQUESTS"] {
        let mut m = BytesMut::new();
        m.put_x11_string(text);
        let mut b = m.freeze();
        assert_eq!(b.get_x11_string().unwrap(), text);
        assert_eq!(b.len(), 0);
    }
}

#[test]
fn every_event_is_thirty_two_bytes() {
    let mut buf = BytesMut::new();
    let ev = Event::Expose { window: 7, x: 1, y: 2, width: 3, height: 4, count: 0 };
    serialize_event(&ev, &mut buf);
    assert_eq!(buf.len(), 32);
    assert_eq!(&buf[..8], &[12, 0, 0, 0, 0, 0, 0, 7]);
    assert_eq!(&buf[16..18], &[0, 0]);
    assert_eq!(&buf[18..32], &[0u8; 14]);
}

fn reply_length_holds(bytes: &[u8]) {
    assert!(bytes.len() >= 32);
    let units = u32::from_be_bytes([bytes[4], bytes[5], bytes[6], bytes[7]]) as usize;
    assert_eq!(bytes.len(), 32 + 4 * units);
}

#[test]
fn replies_count_the_units_after_their_header() {
    let mut buf = BytesMut::new();
    serialize_reply(&Reply::GetAtomName(GetAtomNameReply { name: "WM_NAME".to_string() }), 9, &mut buf);
    reply_length_holds(&buf);
    assert_eq!(buf.len(), 40);
    assert_eq!(&buf[8..10], &[0, 7]);
    assert_eq!(&buf[32..39], b"WM_NAME");
    let mut buf = BytesMut::new();
    serialize_reply(&Reply::QueryTree(QueryTreeReply { root: 1, parent: 0, children: vec![5, 6] }), 9, &mut buf);
    reply_length_holds(&buf);
    assert_eq!(buf.len(), 40);
    assert_eq!(&buf[16..18], &[0, 2]);
    assert_eq!(&buf[32..36], &[0, 0, 0, 5]);
}

#[test]
fn core_requests_parse_alike_with_or_without_extensions() {
    let extensions = ExtensionRegistry::new();
    let mut map = vec![8u8, 0, 2, 0];
    map.extend_from_slice(&5u32.to_le_bytes());
    let a = X11RequestParser::parse(&map).unwrap();
    let b = X11RequestParser::parse_dynamic(&map, &extensions).unwrap();
    assert_eq!(format!("{:?}", a), format!("{:?}", b));
    assert!(X11RequestParser::parse(&[250, 0, 1, 0]).is_err());
    assert!(X11RequestParser::parse_dynamic(&[250, 0, 1, 0], &extensions).is_err());
    assert!(X11RequestParser::parse_dynamic(&[130, 0, 1, 0], &extensions).is_err());
}
