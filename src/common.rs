use vstd::prelude::*;
use vstd::string::StringExecFns;

verus! {

/// The routing id of an edge: its authentication token itself.
pub fn get_client_id_from_token(token: &str) -> (r: String)
    ensures
        r@ == token@,
{
    String::from_str(token)
}

/// Stores the handler for accepted streams; only the first registration takes
/// effect, later ones are ignored.
pub fn register_on_accept_stream<F>(slot: &mut Option<F>, cb: F)
    ensures
        old(slot).is_none() ==> *final(slot) == Some(cb),
        old(slot).is_some() ==> *final(slot) == *old(slot),
{
    if slot.is_none() {
        *slot = Some(cb);
    }
}

/// The kind of transport a connection runs on.
#[derive(Debug, Clone, Copy, PartialEq, Eq, Structural)]
pub enum TransportKind {
    QUIC,
}

/// Where a supernode listens for edges, and its certificate files.
#[derive(Debug)]
pub struct ServerConfig {
    pub addr: String,
    pub ssl_cert_path: String,
    pub ssl_key_path: String,
}

/// Where an edge dials its supernode.
#[derive(Debug)]
pub struct ClientConfig {
    pub addr: String,
}

/// Where a TCP ingress listens.
#[derive(Debug)]
pub struct InboundConfig {
    pub inbound_addr: String,
}

/// The QUIC endpoint of a supernode; its sockets live with the caller.
#[derive(Debug)]
pub struct QuinnServerEndpoint {}

/// The settings an edge runs with: its supernode, its token, and the upstream
/// it forwards to when a stream names none.
#[derive(Debug)]
pub struct EdgeClient {
    pub server_addr: String,
    pub token: String,
    pub forward_to: String,
}

impl EdgeClient {
    pub fn new(server_addr: String, token: String, forward_to: String) -> (r: EdgeClient)
        ensures
            r.server_addr@ == server_addr@,
            r.token@ == token@,
            r.forward_to@ == forward_to@,
    {
        EdgeClient { server_addr, token, forward_to }
    }
}

} // verus!
