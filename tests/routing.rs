use ping_tunnel::http::{bad_gateway, clients_body, json_response, not_online_body};
use ping_tunnel::ingress::{handle_ingress, route, IngressDecision};
use ping_tunnel::meta::meta_str;
use ping_tunnel::packet::{TunnelCommand, TunnelCommandPacket};
use ping_tunnel::session::{SessionRegistry, TransportSession, DEFAULT_CLIENT_ID};
use ping_tunnel::sniff::SniffResult;

const GHOST: &[u8] = b"GET / HTTP/1.1\r\nHost: ghost.example\r\n\r\n";
const T1: &[u8] = b"GET / HTTP/1.1\r\nHost: t1.example\r\n\r\n";

fn session(conn: u64, meta: &str, ping_at: u64) -> TransportSession {
    TransportSession { conn, meta: meta.as_bytes().to_vec(), ping_at }
}

fn respond_bytes(d: IngressDecision) -> Vec<u8> {
    match d {
        IngressDecision::Respond(b) => b,
        IngressDecision::Forward { .. } => panic!("expected a reply"),
    }
}

#[test]
fn json_response_layout() {
    let r = json_response(b"{}");
    assert_eq!(
        String::from_utf8(r).unwrap(),
        "HTTP/1.1 200 OK\r\nContent-Type: application/json; charset=utf-8\r\nContent-Length: 2\r\nConnection: close\r\nCache-Control: no-cache\r\n\r\n{}"
    );
}

#[test]
fn bad_gateway_layout() {
    assert_eq!(
        String::from_utf8(bad_gateway("oops")).unwrap(),
        "HTTP/1.1 502 Bad Gateway\r\nContent-Length: 4\r\nConnection: close\r\n\r\noops"
    );
}

#[test]
fn missing_tunnel_reply() {
    let mut reg = SessionRegistry::new();
    let r = respond_bytes(handle_ingress(&mut reg, GHOST, 0));
    let body = "{\"code\":404,\"message\":\"tunnel [ghost] not online\"}";
    let expected = format!(
        "HTTP/1.1 200 OK\r\nContent-Type: application/json; charset=utf-8\r\nContent-Length: {}\r\nConnection: close\r\nCache-Control: no-cache\r\n\r\n{}",
        body.len(),
        body
    );
    assert_eq!(String::from_utf8(r).unwrap(), expected);
    assert_eq!(not_online_body("ghost"), body.as_bytes().to_vec());
}

#[test]
fn unrecognised_bytes_get_not_online_reply() {
    let mut reg = SessionRegistry::new();
    let r = respond_bytes(handle_ingress(&mut reg, b"\x01\x02", 0));
    assert!(String::from_utf8(r).unwrap().ends_with("tunnel [my-secret-token] not online\"}"));
}

#[test]
fn happy_path_http_forward() {
    let mut reg = SessionRegistry::new();
    reg.insert_session("t1".to_string(), session(11, "{\"X-Tunnel-Token\":\"t1\"}", 1_000));
    match handle_ingress(&mut reg, T1, 2_000) {
        IngressDecision::Forward { id, conn, frame } => {
            assert_eq!(id, "t1");
            assert_eq!(conn, 11);
            let (p, n) = TunnelCommandPacket::decode(&frame).unwrap();
            assert_eq!(n, frame.len());
            assert_eq!(p.command, TunnelCommand::Forward);
            assert_eq!(meta_str(&p.meta, "X-Tunnel-Forward-To"), Some("t1.example:80".to_string()));
        }
        IngressDecision::Respond(_) => panic!("expected a forward"),
    }
    assert!(reg.get_session("t1").is_some());
}

#[test]
fn default_session_takes_precedence() {
    let mut reg = SessionRegistry::new();
    reg.insert_session("t1".to_string(), session(1, "{}", 0));
    reg.insert_session(DEFAULT_CLIENT_ID.to_string(), session(2, "{}", 0));
    match handle_ingress(&mut reg, GHOST, 0) {
        IngressDecision::Forward { id, conn, .. } => {
            assert_eq!(id, DEFAULT_CLIENT_ID);
            assert_eq!(conn, 2);
        }
        IngressDecision::Respond(_) => panic!("expected a forward"),
    }
}

#[test]
fn stale_session_is_evicted() {
    let mut reg = SessionRegistry::new();
    reg.insert_session("t1".to_string(), session(11, "{}", 0));
    assert!(matches!(handle_ingress(&mut reg, T1, 60_000), IngressDecision::Forward { .. }));
    let r = respond_bytes(handle_ingress(&mut reg, T1, 61_000));
    assert!(String::from_utf8(r).unwrap().ends_with("{\"code\":404,\"message\":\"tunnel [t1] not online\"}"));
    assert!(reg.get_session("t1").is_none());
}

#[test]
fn liveness_eviction_by_sweep() {
    let mut reg = SessionRegistry::new();
    reg.insert_session("t1".to_string(), session(11, "{}", 0));
    reg.clear_expired_sessions(600_000);
    assert!(reg.get_session("t1").is_none());
    let r = respond_bytes(handle_ingress(&mut reg, T1, 600_001));
    assert!(String::from_utf8(r).unwrap().contains("tunnel [t1] not online"));
}

#[test]
fn many_requests_get_their_own_frames() {
    let mut reg = SessionRegistry::new();
    reg.insert_session("t1".to_string(), session(11, "{}", 0));
    let mut frames = Vec::new();
    for i in 0..100u64 {
        let s = SniffResult { tunnel_id: "t1".to_string(), host: format!("t1.example:{}", 8000 + i), is_https: false };
        match route(&mut reg, &s, 1_000) {
            IngressDecision::Forward { frame, .. } => frames.push(frame),
            IngressDecision::Respond(_) => panic!("expected a forward"),
        }
    }
    for (i, f) in frames.iter().enumerate() {
        let (p, _) = TunnelCommandPacket::decode(f).unwrap();
        assert_eq!(meta_str(&p.meta, "X-Tunnel-Forward-To"), Some(format!("t1.example:{}", 8000 + i)));
    }
    assert_eq!(reg.snapshot().len(), 1);
}

#[test]
fn overlong_host_gets_bad_gateway() {
    let mut reg = SessionRegistry::new();
    reg.insert_session("t1".to_string(), session(11, "{}", 0));
    let s = SniffResult { tunnel_id: "t1".to_string(), host: "h".repeat(2000), is_https: false };
    let r = respond_bytes(route(&mut reg, &s, 0));
    assert!(String::from_utf8(r).unwrap().starts_with("HTTP/1.1 502 Bad Gateway\r\n"));
}

#[test]
fn admin_endpoint_lists_live_sessions() {
    let mut reg = SessionRegistry::new();
    reg.insert_session("a".to_string(), session(1, "{\"X-Tunnel-Token\":\"a\"}", 0));
    reg.insert_session("b".to_string(), session(2, "{\"X-Tunnel-Token\":\"b\"}", 0));
    let r = respond_bytes(handle_ingress(&mut reg, b"GET /__internal__/clients HTTP/1.1\r\nHost: x\r\n\r\n", 10_000));
    let text = String::from_utf8(r).unwrap();
    let body = text.split("\r\n\r\n").nth(1).unwrap();
    assert!(body.starts_with("{\"status\":\"ok\",\"clients\":["));
    assert!(body.ends_with("],\"count\":2}"));
    assert!(body.contains("{\"X-Tunnel-Token\":\"a\"}"));
    assert!(body.contains("{\"X-Tunnel-Token\":\"b\"}"));
    assert!(text.contains(&format!("Content-Length: {}\r\n", body.len())));
}

#[test]
fn clients_body_skips_quiet_sessions() {
    let v = vec![
        ("a".to_string(), session(1, "{\"n\":1}", 0)),
        ("b".to_string(), session(2, "{\"n\":2}", 100_000)),
        ("c".to_string(), session(3, "{\"n\":3}", 95_000)),
    ];
    assert_eq!(
        String::from_utf8(clients_body(&v, 110_000)).unwrap(),
        "{\"status\":\"ok\",\"clients\":[{\"n\":2},{\"n\":3}],\"count\":2}"
    );
    assert_eq!(
        String::from_utf8(clients_body(&Vec::new(), 0)).unwrap(),
        "{\"status\":\"ok\",\"clients\":[],\"count\":0}"
    );
}
