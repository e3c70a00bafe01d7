use std::sync::Arc;

use ping_tunnel::sniff::{read_request_info, sniff_tcp, SniffError};

fn client_hello(sni: &'static str) -> Vec<u8> {
    let provider = Arc::new(rustls::crypto::ring::default_provider());
    let config = rustls::ClientConfig::builder_with_provider(provider)
        .with_safe_default_protocol_versions()
        .unwrap()
        .with_root_certificates(rustls::RootCertStore::empty())
        .with_no_client_auth();
    let name = rustls::pki_types::ServerName::try_from(sni).unwrap();
    let mut conn = rustls::ClientConnection::new(Arc::new(config), name).unwrap();
    let mut out = Vec::new();
    conn.write_tls(&mut out).unwrap();
    out
}

#[test]
fn http_host_gives_tunnel_and_port() {
    let r = sniff_tcp(b"GET / HTTP/1.1\r\nHost: t1.example\r\n\r\n").unwrap();
    assert_eq!(r.tunnel_id, "t1");
    assert_eq!(r.host, "t1.example:80");
    assert!(!r.is_https);
}

#[test]
fn http_host_with_port_is_kept() {
    let r = sniff_tcp(b"GET /x HTTP/1.1\r\nHost: alice.example.com:8080\r\n\r\n").unwrap();
    assert_eq!(r.tunnel_id, "alice");
    assert_eq!(r.host, "alice.example.com:8080");
}

#[test]
fn http_without_host_uses_default() {
    let r = sniff_tcp(b"GET / HTTP/1.1\r\nAccept: */*\r\n\r\n").unwrap();
    assert_eq!(r.tunnel_id, "my-secret-token");
    assert_eq!(r.host, "my-secret-token.localhost:80");
}

#[test]
fn last_host_header_wins() {
    let r = sniff_tcp(b"GET / HTTP/1.1\r\nHost: a.x\r\nHost: b.y\r\n\r\n").unwrap();
    assert_eq!(r.tunnel_id, "b");
}

#[test]
fn host_without_dot_is_its_own_label() {
    let r = sniff_tcp(b"GET / HTTP/1.1\r\nHost: localhost:3000\r\n\r\n").unwrap();
    assert_eq!(r.tunnel_id, "localhost");
    assert_eq!(r.host, "localhost:3000");
}

#[test]
fn partial_http_is_not_recognised() {
    assert_eq!(
        sniff_tcp(b"GET / HTTP/1.1\r\nHost: t1.example\r\n").unwrap_err(),
        SniffError::Unrecognized
    );
}

#[test]
fn empty_input_has_no_data() {
    assert_eq!(sniff_tcp(b"").unwrap_err(), SniffError::NoData);
}

#[test]
fn garbage_is_not_recognised() {
    assert_eq!(sniff_tcp(&[0x01, 0x02, 0x03]).unwrap_err(), SniffError::Unrecognized);
}

#[test]
fn tls_sni_gives_tunnel_and_port() {
    let hello = client_hello("t1.example");
    let r = sniff_tcp(&hello).unwrap();
    assert_eq!(r.tunnel_id, "t1");
    assert_eq!(r.host, "t1.example:443");
    assert!(r.is_https);
}

#[test]
fn request_info_defaults_and_body_size() {
    let info = read_request_info(b"POST /api HTTP/1.0\r\nHost: a.b\r\nContent-Length: 42\r\n\r\n").unwrap();
    assert_eq!(info.method, "POST");
    assert_eq!(info.url, "/api");
    assert_eq!(info.http_version, "0");
    assert_eq!(info.body_size, 42);
    assert_eq!(info.headers.len(), 2);
    assert_eq!(info.headers[1].name, "Content-Length");
    let info = read_request_info(b"GET / HTTP/1.1\r\nContent-Length: x\r\n\r\n").unwrap();
    assert_eq!(info.http_version, "1");
    assert_eq!(info.body_size, 0);
    assert!(read_request_info(b"GET /").is_none());
}
