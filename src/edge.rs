use vstd::prelude::*;
use vstd::string::StringExecFns;
use crate::meta::{empty_object_json, meta_bool, meta_bool_spec, meta_str, meta_str_spec,
    str_entry_json, str_entry_meta, AUTH_TOKEN_KEY, FORWARD_TO_KEY, RESULT_KEY};
use crate::packet::{frame_bytes, TunnelCommand, TunnelCommandPacket, MAX_DATA_LEN};
use crate::session::{SessionRegistry, SessionView, TransportSession, DEFAULT_CLIENT_ID};

verus! {

/// Milliseconds an edge waits between health probes and before a new dial.
pub const RETRY_DELAY_MS: u64 = 10_000;

/// Where the edge's control loop stands.
#[derive(Debug, Clone, Copy, PartialEq, Eq, Structural)]
pub enum EdgeState {
    Disconnected,
    Connecting,
    Authenticating { conn: u64 },
    Connected { conn: u64 },
}

/// What happened since the edge's last step.
#[derive(Debug)]
pub enum EdgeEvent {
    /// The wait asked for is over.
    Tick,
    /// The dial gave connection `conn`.
    Dialed { conn: u64 },
    /// The dial failed or ran out of time.
    DialFailed,
    /// The frame read in answer to the last request.
    Replied(TunnelCommandPacket),
    /// The last request failed or got no answer in time.
    RequestFailed,
}

/// What the edge's control loop does next.
#[derive(Debug)]
pub enum EdgeAction {
    /// Dial the supernode, with a bounded handshake time.
    Dial,
    /// Wait this many milliseconds, then step with `Tick`.
    Sleep(u64),
    /// Send this frame on a fresh stream of connection `conn` and read the answer.
    Request { conn: u64, frame: Vec<u8> },
}

/// The mathematical form of an [`EdgeAction`].
pub enum EdgePlan {
    Dial,
    Sleep(u64),
    Request(u64, Seq<u8>),
}

impl View for EdgeAction {
    type V = EdgePlan;

    open spec fn view(&self) -> EdgePlan {
        match self {
            EdgeAction::Dial => EdgePlan::Dial,
            EdgeAction::Sleep(ms) => EdgePlan::Sleep(*ms),
            EdgeAction::Request { conn, frame } => EdgePlan::Request(*conn, frame@),
        }
    }
}

/// The frame that carries `c` with the edge's token, or a wait when the token
/// does not fit in a frame.
pub open spec fn token_request(conn: u64, c: TunnelCommand, token: Seq<char>) -> EdgePlan {
    let meta = str_entry_json(AUTH_TOKEN_KEY@, token);
    if meta.len() <= MAX_DATA_LEN {
        EdgePlan::Request(conn, frame_bytes(c, meta))
    } else {
        EdgePlan::Sleep(RETRY_DELAY_MS)
    }
}

/// Whether a frame accepts the authentication.
pub open spec fn auth_accepted(c: TunnelCommand, meta: Seq<u8>) -> bool {
    c == TunnelCommand::AuthResult && meta_bool_spec(meta, RESULT_KEY@) == Some(true)
}

/// The edge's next state, local registry and action after `event`, for the token `token`, at `now`.
pub open spec fn edge_step_spec(
    st: EdgeState,
    m: Map<Seq<char>, SessionView>,
    ev: EdgeEvent,
    token: Seq<char>,
    now: u64,
) -> (EdgeState, Map<Seq<char>, SessionView>, EdgePlan) {
    match (st, ev) {
        (EdgeState::Disconnected, EdgeEvent::Tick) => (EdgeState::Connecting, m, EdgePlan::Dial),
        (EdgeState::Connecting, EdgeEvent::Dialed { conn }) => (
            EdgeState::Authenticating { conn },
            m.insert(DEFAULT_CLIENT_ID@, SessionView { conn, meta: empty_object_json(), ping_at: now }),
            token_request(conn, TunnelCommand::Auth, token),
        ),
        (EdgeState::Connecting, EdgeEvent::DialFailed) => (
            EdgeState::Disconnected,
            m,
            EdgePlan::Sleep(RETRY_DELAY_MS),
        ),
        (EdgeState::Authenticating { conn }, EdgeEvent::Replied(p)) => if auth_accepted(
            p.command,
            p.meta@,
        ) {
            (EdgeState::Connected { conn }, m, EdgePlan::Sleep(RETRY_DELAY_MS))
        } else {
            (EdgeState::Disconnected, m.remove(DEFAULT_CLIENT_ID@), EdgePlan::Sleep(RETRY_DELAY_MS))
        },
        (EdgeState::Authenticating { conn }, EdgeEvent::RequestFailed) => (
            EdgeState::Disconnected,
            m.remove(DEFAULT_CLIENT_ID@),
            EdgePlan::Sleep(RETRY_DELAY_MS),
        ),
        (EdgeState::Authenticating { conn }, EdgeEvent::Tick) => (
            EdgeState::Disconnected,
            m.remove(DEFAULT_CLIENT_ID@),
            EdgePlan::Sleep(RETRY_DELAY_MS),
        ),
        (EdgeState::Connected { conn }, EdgeEvent::Tick) => (
            EdgeState::Connected { conn },
            m,
            token_request(conn, TunnelCommand::Ping, token),
        ),
        (EdgeState::Connected { conn }, EdgeEvent::Replied(p)) => if p.command
            == TunnelCommand::Pong {
            (
                EdgeState::Connected { conn },
                if m.contains_key(DEFAULT_CLIENT_ID@) {
                    m.insert(DEFAULT_CLIENT_ID@, SessionView { ping_at: now, ..m[DEFAULT_CLIENT_ID@] })
                } else {
                    m
                },
                EdgePlan::Sleep(RETRY_DELAY_MS),
            )
        } else {
            (EdgeState::Disconnected, m.remove(DEFAULT_CLIENT_ID@), EdgePlan::Sleep(RETRY_DELAY_MS))
        },
        (EdgeState::Connected { conn }, EdgeEvent::RequestFailed) => (
            EdgeState::Disconnected,
            m.remove(DEFAULT_CLIENT_ID@),
            EdgePlan::Sleep(RETRY_DELAY_MS),
        ),
        _ => (st, m, EdgePlan::Sleep(RETRY_DELAY_MS)),
    }
}

fn token_frame(conn: u64, c: TunnelCommand, token: &str) -> (r: EdgeAction)
    ensures
        r@ == token_request(conn, c, token@),
{
    match TunnelCommandPacket::new(c, str_entry_meta(AUTH_TOKEN_KEY, token)) {
        Ok(p) => EdgeAction::Request { conn, frame: p.to_bytes() },
        Err(_) => EdgeAction::Sleep(RETRY_DELAY_MS),
    }
}

/// One step of the edge's control loop: dial, authenticate with `token`, then
/// ping every 10 s; any failure drops the local default session and starts over
/// after 10 s.
pub fn edge_step(
    st: EdgeState,
    reg: &mut SessionRegistry,
    ev: EdgeEvent,
    token: &str,
    now: u64,
) -> (r: (EdgeState, EdgeAction))
    ensures
        ({
            let (s2, m2, plan) = edge_step_spec(st, old(reg)@, ev, token@, now);
            r.0 == s2 && final(reg)@ == m2 && r.1@ == plan
        }),
{
    match (st, ev) {
        (EdgeState::Disconnected, EdgeEvent::Tick) => (EdgeState::Connecting, EdgeAction::Dial),
        (EdgeState::Connecting, EdgeEvent::Dialed { conn }) => {
            let session = TransportSession { conn, meta: crate::meta::empty_meta(), ping_at: now };
            reg.insert_session(String::from_str(DEFAULT_CLIENT_ID), session);
            (EdgeState::Authenticating { conn }, token_frame(conn, TunnelCommand::Auth, token))
        },
        (EdgeState::Connecting, EdgeEvent::DialFailed) => (
            EdgeState::Disconnected,
            EdgeAction::Sleep(RETRY_DELAY_MS),
        ),
        (EdgeState::Authenticating { conn }, EdgeEvent::Replied(p)) => {
            let accepted = match p.command {
                TunnelCommand::AuthResult => match meta_bool(p.meta.as_slice(), RESULT_KEY) {
                    Some(b) => b,
                    None => false,
                },
                _ => false,
            };
            if accepted {
                (EdgeState::Connected { conn }, EdgeAction::Sleep(RETRY_DELAY_MS))
            } else {
                reg.remove_session(DEFAULT_CLIENT_ID);
                (EdgeState::Disconnected, EdgeAction::Sleep(RETRY_DELAY_MS))
            }
        },
        (EdgeState::Authenticating { conn }, EdgeEvent::RequestFailed) => {
            reg.remove_session(DEFAULT_CLIENT_ID);
            (EdgeState::Disconnected, EdgeAction::Sleep(RETRY_DELAY_MS))
        },
        (EdgeState::Authenticating { conn }, EdgeEvent::Tick) => {
            reg.remove_session(DEFAULT_CLIENT_ID);
            (EdgeState::Disconnected, EdgeAction::Sleep(RETRY_DELAY_MS))
        },
        (EdgeState::Connected { conn }, EdgeEvent::Tick) => (
            EdgeState::Connected { conn },
            token_frame(conn, TunnelCommand::Ping, token),
        ),
        (EdgeState::Connected { conn }, EdgeEvent::Replied(p)) => {
            if p.command == TunnelCommand::Pong {
                reg.refresh_session_by_id(DEFAULT_CLIENT_ID, now);
                (EdgeState::Connected { conn }, EdgeAction::Sleep(RETRY_DELAY_MS))
            } else {
                reg.remove_session(DEFAULT_CLIENT_ID);
                (EdgeState::Disconnected, EdgeAction::Sleep(RETRY_DELAY_MS))
            }
        },
        (EdgeState::Connected { conn }, EdgeEvent::RequestFailed) => {
            reg.remove_session(DEFAULT_CLIENT_ID);
            (EdgeState::Disconnected, EdgeAction::Sleep(RETRY_DELAY_MS))
        },
        _ => (st, EdgeAction::Sleep(RETRY_DELAY_MS)),
    }
}

/// The upstream an edge relays a peer-initiated stream to: for a `Forward`
/// frame, the address it names, or `default_forward_to` when it names none or
/// an empty one.
pub open spec fn forward_target_spec(c: TunnelCommand, meta: Seq<u8>, default_forward_to: Seq<char>) -> Option<
    Seq<char>,
> {
    if c != TunnelCommand::Forward {
        None
    } else {
        match meta_str_spec(meta, FORWARD_TO_KEY@) {
            Some(t) => if t.len() == 0 {
                Some(default_forward_to)
            } else {
                Some(t)
            },
            None => Some(default_forward_to),
        }
    }
}

/// Chooses where a peer-initiated stream goes; `None` rejects it, as every
/// command but `Forward` is rejected there.
pub fn forward_target(packet: &TunnelCommandPacket, default_forward_to: &str) -> (r: Option<String>)
    ensures
        r.is_some() == forward_target_spec(packet.command, packet.meta@, default_forward_to@).is_some(),
        r.is_some() ==> r.unwrap()@ == forward_target_spec(
            packet.command,
            packet.meta@,
            default_forward_to@,
        ).unwrap(),
{
    match packet.command {
        TunnelCommand::Forward => match meta_str(packet.meta.as_slice(), FORWARD_TO_KEY) {
            Some(t) => if t.unicode_len() == 0 {
                Some(String::from_str(default_forward_to))
            } else {
                Some(t)
            },
            None => Some(String::from_str(default_forward_to)),
        },
        _ => None,
    }
}

} // verus!
