use ping_tunnel::meta::{bool_entry_meta, empty_meta, meta_bool, meta_str, str_entry_meta, MetaValue};
use ping_tunnel::packet::{FrameError, TunnelCommand, TunnelCommandPacket};

fn frame(command: TunnelCommand, meta: &[u8]) -> Vec<u8> {
    TunnelCommandPacket::new(command, meta.to_vec()).unwrap().to_bytes()
}

#[test]
fn command_tags_are_stable() {
    let all = [
        (TunnelCommand::Ping, 0u8),
        (TunnelCommand::Pong, 1),
        (TunnelCommand::Auth, 2),
        (TunnelCommand::AuthResult, 3),
        (TunnelCommand::Forward, 4),
        (TunnelCommand::SetSessionMeta, 5),
    ];
    for (c, t) in all {
        assert_eq!(c.tag(), t);
        assert_eq!(TunnelCommand::from_tag(t), Some(c));
    }
    assert_eq!(TunnelCommand::from_tag(6), None);
    assert_eq!(TunnelCommand::from_tag(255), None);
}

#[test]
fn pong_frame_bytes() {
    assert_eq!(frame(TunnelCommand::Pong, b"{}"), vec![1, 0, 0, 0, 2, b'{', b'}']);
}

#[test]
fn header_length_is_big_endian() {
    let meta = format!("{{\"k\":\"{}\"}}", "x".repeat(300));
    let bytes = frame(TunnelCommand::Forward, meta.as_bytes());
    assert_eq!(&bytes[..5], &[4, 0, 0, 1, 52]);
    assert_eq!(bytes.len(), 5 + 308);
}

#[test]
fn round_trip_of_auth_frame() {
    let meta = str_entry_meta("X-Tunnel-Token", "t1");
    let bytes = frame(TunnelCommand::Auth, &meta);
    let (p, n) = TunnelCommandPacket::decode(&bytes).unwrap();
    assert_eq!(p.command, TunnelCommand::Auth);
    assert_eq!(p.meta, meta);
    assert_eq!(p.length as usize, meta.len());
    assert_eq!(n, bytes.len());
}

#[test]
fn decode_consumes_exactly_one_frame() {
    let mut bytes = frame(TunnelCommand::Ping, b"{\"a\":1}");
    bytes.extend_from_slice(b"trailing relay bytes");
    let (p, n) = TunnelCommandPacket::decode(&bytes).unwrap();
    assert_eq!(n, 5 + 7);
    assert_eq!(p.length, 7);
    assert_eq!(p.meta, b"{\"a\":1}".to_vec());
}

#[test]
fn decode_rejects_short_header() {
    assert_eq!(TunnelCommandPacket::decode(&[2, 0, 0]).unwrap_err(), FrameError::ShortRead);
    assert_eq!(TunnelCommandPacket::decode(&[]).unwrap_err(), FrameError::ShortRead);
}

#[test]
fn decode_rejects_short_meta() {
    assert_eq!(
        TunnelCommandPacket::decode(&[2, 0, 0, 0, 5, b'{', b'}']).unwrap_err(),
        FrameError::ShortRead
    );
}

#[test]
fn decode_rejects_unknown_command() {
    assert_eq!(
        TunnelCommandPacket::decode(&[9, 0, 0, 0, 2, b'{', b'}']).unwrap_err(),
        FrameError::UnknownCommand
    );
}

#[test]
fn decode_rejects_oversized_meta() {
    let mut bytes = vec![0u8, 0, 0, 4, 1];
    bytes.extend(std::iter::repeat(b' ').take(1025));
    assert_eq!(TunnelCommandPacket::decode(&bytes).unwrap_err(), FrameError::OversizedMeta);
}

#[test]
fn decode_accepts_largest_meta() {
    let meta = format!("{{\"k\":\"{}\"}}", "x".repeat(1016));
    assert_eq!(meta.len(), 1024);
    let bytes = frame(TunnelCommand::Forward, meta.as_bytes());
    let (p, n) = TunnelCommandPacket::decode(&bytes).unwrap();
    assert_eq!(p.length, 1024);
    assert_eq!(n, 1029);
}

#[test]
fn decode_rejects_malformed_json() {
    assert_eq!(
        TunnelCommandPacket::decode(&[0, 0, 0, 0, 3, b'{', b'x', b'}']).unwrap_err(),
        FrameError::MalformedJson
    );
    assert_eq!(
        TunnelCommandPacket::decode(&[0, 0, 0, 0, 3, b'[', b'1', b']']).unwrap_err(),
        FrameError::MalformedJson
    );
}

#[test]
fn new_rejects_oversized_meta() {
    let meta = vec![b' '; 1025];
    assert_eq!(
        TunnelCommandPacket::new(TunnelCommand::Ping, meta).unwrap_err(),
        FrameError::OversizedMeta
    );
}

#[test]
fn header_then_meta() {
    let (c, len) = TunnelCommandPacket::parse_header(&[3, 0, 0, 0, 15]).unwrap();
    assert_eq!(c, TunnelCommand::AuthResult);
    assert_eq!(len, 15);
    let p = TunnelCommandPacket::from_parts(c, len, b"{\"result\":true}".to_vec()).unwrap();
    assert_eq!(meta_bool(&p.meta, "result"), Some(true));
    assert_eq!(
        TunnelCommandPacket::from_parts(c, len, b"{}".to_vec()).unwrap_err(),
        FrameError::ShortRead
    );
}

#[test]
fn meta_encodings() {
    assert_eq!(str_entry_meta("X-Tunnel-Token", "t1"), b"{\"X-Tunnel-Token\":\"t1\"}".to_vec());
    assert_eq!(str_entry_meta("k", "a\"b"), b"{\"k\":\"a\\\"b\"}".to_vec());
    assert_eq!(bool_entry_meta("result", true), b"{\"result\":true}".to_vec());
    assert_eq!(bool_entry_meta("result", false), b"{\"result\":false}".to_vec());
    assert_eq!(empty_meta(), b"{}".to_vec());
}

#[test]
fn meta_lookups() {
    let meta = b"{\"X-Tunnel-Token\":\"t1\",\"result\":true,\"n\":3}";
    assert_eq!(meta_str(meta, "X-Tunnel-Token"), Some("t1".to_string()));
    assert_eq!(meta_str(meta, "result"), None);
    assert_eq!(meta_str(meta, "missing"), None);
    assert_eq!(meta_bool(meta, "result"), Some(true));
    assert_eq!(meta_bool(meta, "X-Tunnel-Token"), None);
    assert_eq!(meta_str(b"not json", "X-Tunnel-Token"), None);
}

#[test]
fn decode_meta_lists_entries() {
    let es = TunnelCommandPacket::decode_meta(b"{\"a\":\"x\",\"b\":false,\"c\":[1]}").unwrap();
    assert_eq!(es.len(), 3);
    assert_eq!(es[0].0, "a");
    assert!(matches!(&es[0].1, MetaValue::Str(s) if s == "x"));
    assert!(matches!(es[1].1, MetaValue::Bool(false)));
    assert!(matches!(es[2].1, MetaValue::Other));
    assert!(TunnelCommandPacket::decode_meta(b"12").is_none());
}
