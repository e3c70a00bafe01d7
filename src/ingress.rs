use vstd::prelude::*;
use vstd::string::{StrSliceExecFns, StringExecFns};
use crate::http::{bad_gateway, bad_gateway_spec, clients_body, clients_body_spec, json_response,
    json_response_spec, not_online_body, not_online_body_spec};
use crate::meta::{str_entry_json, str_entry_meta, FORWARD_TO_KEY};
use crate::packet::{frame_bytes, TunnelCommand, TunnelCommandPacket, MAX_DATA_LEN};
use crate::session::{is_listing, is_stale, stale_at, SessionRegistry, SessionView, DEFAULT_CLIENT_ID};
use crate::sniff::{http_head_of, sniff_spec, sniff_tcp, SniffResult, SniffView, DEFAULT_TUNNEL_ID};

verus! {

/// Path of the admin listing of live sessions.
pub const ADMIN_PATH: &'static str = "/__internal__/clients";

/// Reply text when a request cannot be announced to its edge.
pub const UNFORWARDABLE: &'static str = "Failed to forward: host too long";

/// What the ingress does with a client connection.
#[derive(Debug)]
pub enum IngressDecision {
    /// Write these bytes to the client and close the connection.
    Respond(Vec<u8>),
    /// Open a stream on connection `conn`, write `frame` on it, then relay the
    /// client's bytes both ways. If the stream cannot be opened, the session
    /// under `id` is dead and is to be evicted.
    Forward { id: String, conn: u64, frame: Vec<u8> },
}

/// The mathematical form of an [`IngressDecision`].
pub enum IngressPlan {
    Respond(Seq<u8>),
    Forward(Seq<char>, u64, Seq<u8>),
}

impl View for IngressDecision {
    type V = IngressPlan;

    open spec fn view(&self) -> IngressPlan {
        match self {
            IngressDecision::Respond(b) => IngressPlan::Respond(b@),
            IngressDecision::Forward { id, conn, frame } => IngressPlan::Forward(id@, *conn, frame@),
        }
    }
}

/// The reply that reports `tunnel_id` as offline.
pub open spec fn not_online_reply(tunnel_id: Seq<char>) -> Seq<u8> {
    json_response_spec(not_online_body_spec(tunnel_id))
}

/// The key a lookup for `tunnel_id` settles on: the default session first,
/// then the tunnel's own.
pub open spec fn lookup_key(m: Map<Seq<char>, SessionView>, tunnel_id: Seq<char>) -> Option<Seq<char>> {
    if m.contains_key(DEFAULT_CLIENT_ID@) {
        Some(DEFAULT_CLIENT_ID@)
    } else if m.contains_key(tunnel_id) {
        Some(tunnel_id)
    } else {
        None
    }
}

/// The metadata of the `Forward` frame that announces `host`.
pub open spec fn forward_meta(host: Seq<char>) -> Seq<u8> {
    str_entry_json(FORWARD_TO_KEY@, host)
}

/// The registry after routing a sniffed request at `now`, and what is done with it.
pub open spec fn route_spec(m: Map<Seq<char>, SessionView>, s: SniffView, now: u64) -> (Map<
    Seq<char>,
    SessionView,
>, IngressPlan) {
    match lookup_key(m, s.tunnel_id) {
        None => (m, IngressPlan::Respond(not_online_reply(s.tunnel_id))),
        Some(k) => if stale_at(m[k].ping_at, now) {
            (m.remove(k), IngressPlan::Respond(not_online_reply(s.tunnel_id)))
        } else if forward_meta(s.host).len() > MAX_DATA_LEN {
            (m, IngressPlan::Respond(bad_gateway_spec(UNFORWARDABLE@)))
        } else {
            (m, IngressPlan::Forward(k, m[k].conn, frame_bytes(TunnelCommand::Forward, forward_meta(s.host))))
        },
    }
}

/// Whether `b` starts with a complete `GET` of the admin path.
pub open spec fn is_admin_request(b: Seq<u8>) -> bool {
    &&& http_head_of(b) is Some
    &&& http_head_of(b).unwrap().method == Some("GET"@)
    &&& http_head_of(b).unwrap().path == Some(ADMIN_PATH@)
}

/// Sends a sniffed request to the session of its tunnel: the default session
/// when there is one, else the one under the sniffed routing id. A missing
/// session is reported offline; a stale one is evicted and reported offline.
pub fn route(reg: &mut SessionRegistry, s: &SniffResult, now: u64) -> (r: IngressDecision)
    ensures
        (final(reg)@, r@) == route_spec(old(reg)@, s@, now),
{
    let found = match reg.get_default_session() {
        Some(session) => Some((String::from_str(DEFAULT_CLIENT_ID), session)),
        None => match reg.get_session(s.tunnel_id.as_str()) {
            Some(session) => Some((s.tunnel_id.clone(), session)),
            None => None,
        },
    };
    match found {
        None => IngressDecision::Respond(json_response(not_online_body(s.tunnel_id.as_str()).as_slice())),
        Some((id, session)) => {
            if is_stale(session.ping_at, now) {
                reg.remove_session(id.as_str());
                IngressDecision::Respond(json_response(not_online_body(s.tunnel_id.as_str()).as_slice()))
            } else {
                let meta = str_entry_meta(FORWARD_TO_KEY, s.host.as_str());
                match TunnelCommandPacket::new(TunnelCommand::Forward, meta) {
                    Ok(p) => IngressDecision::Forward { id, conn: session.conn, frame: p.to_bytes() },
                    Err(_) => IngressDecision::Respond(bad_gateway(UNFORWARDABLE)),
                }
            }
        },
    }
}

/// The admin reply: the listing of the sessions live at `now`, in whatever
/// order the registry hands them out.
pub fn admin_clients(reg: &SessionRegistry, now: u64) -> (r: Vec<u8>)
    ensures
        exists|v: Seq<(String, crate::session::TransportSession)>|
            is_listing(v, reg@) && r@ == json_response_spec(#[trigger] clients_body_spec(v, now)),
{
    let v = reg.snapshot();
    let r = json_response(clients_body(&v, now).as_slice());
    assert(is_listing(v@, reg@) && r@ == json_response_spec(clients_body_spec(v@, now)));
    r
}

/// Decides what to do with a client connection whose first bytes are
/// `peeked`: the admin listing, a forward to an edge, or an error reply.
pub fn handle_ingress(reg: &mut SessionRegistry, peeked: &[u8], now: u64) -> (r: IngressDecision)
    ensures
        is_admin_request(peeked@) ==> final(reg)@ == old(reg)@ && (r matches IngressDecision::Respond(
            b,
        ) && exists|v: Seq<(String, crate::session::TransportSession)>|
            is_listing(v, old(reg)@) && b@ == json_response_spec(#[trigger] clients_body_spec(v, now))),
        !is_admin_request(peeked@) ==> match sniff_spec(peeked@) {
            Err(_) => final(reg)@ == old(reg)@ && r@ == IngressPlan::Respond(
                not_online_reply(DEFAULT_TUNNEL_ID@),
            ),
            Ok(s) => (final(reg)@, r@) == route_spec(old(reg)@, s, now),
        },
{
    if crate::sniff::is_admin_head(peeked) {
        return IngressDecision::Respond(admin_clients(reg, now));
    }
    match sniff_tcp(peeked) {
        Ok(s) => route(reg, &s, now),
        Err(_) => IngressDecision::Respond(json_response(not_online_body(DEFAULT_TUNNEL_ID).as_slice())),
    }
}

/// A request for a tunnel that has no session, while no default session
/// stands in, is reported offline and nothing is forwarded.
pub proof fn lemma_missing_tunnel_not_found(m: Map<Seq<char>, SessionView>, s: SniffView, now: u64)
    requires
        !m.contains_key(s.tunnel_id),
        !m.contains_key(DEFAULT_CLIENT_ID@),
    ensures
        route_spec(m, s, now) == (m, IngressPlan::Respond(not_online_reply(s.tunnel_id))),
{
}

} // verus!
