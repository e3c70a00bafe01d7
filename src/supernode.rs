use vstd::prelude::*;
use crate::common::get_client_id_from_token;
use crate::meta::{bool_entry_json, bool_entry_meta, empty_meta, empty_object_json, meta_str,
    meta_str_spec, AUTH_TOKEN_KEY, FORWARD_TO_KEY, RESULT_KEY};
use crate::packet::{frame_bytes, TunnelCommand, TunnelCommandPacket, MAX_DATA_LEN};
use crate::session::{SessionRegistry, SessionView, TransportSession};

verus! {

/// What the supernode does with a stream after reading its command frame.
#[derive(Debug)]
pub enum StreamReply {
    /// Write this frame on the stream, then finish it.
    Respond(Vec<u8>),
    /// Close the stream without a reply.
    Close,
    /// Relay the stream to this TCP address.
    Relay(String),
}

/// The mathematical form of a [`StreamReply`].
pub enum ReplyPlan {
    Respond(Seq<u8>),
    Close,
    Relay(Seq<char>),
}

impl View for StreamReply {
    type V = ReplyPlan;

    open spec fn view(&self) -> ReplyPlan {
        match self {
            StreamReply::Respond(b) => ReplyPlan::Respond(b@),
            StreamReply::Close => ReplyPlan::Close,
            StreamReply::Relay(a) => ReplyPlan::Relay(a@),
        }
    }
}

/// The reply that carries the frame `c` with metadata `meta`, or a plain close
/// when the metadata does not fit in a frame.
pub open spec fn frame_reply(c: TunnelCommand, meta: Seq<u8>) -> ReplyPlan {
    if meta.len() <= MAX_DATA_LEN {
        ReplyPlan::Respond(frame_bytes(c, meta))
    } else {
        ReplyPlan::Close
    }
}

/// The registry after the supernode handles a frame `(c, meta)` that arrived
/// on connection `conn` at `now`, and the reply on its stream.
pub open spec fn handle_spec(
    m: Map<Seq<char>, SessionView>,
    conn: u64,
    c: TunnelCommand,
    meta: Seq<u8>,
    now: u64,
) -> (Map<Seq<char>, SessionView>, ReplyPlan) {
    match c {
        TunnelCommand::Auth => match meta_str_spec(meta, AUTH_TOKEN_KEY@) {
            Some(token) => (
                m.insert(token, SessionView { conn, meta, ping_at: now }),
                frame_reply(TunnelCommand::AuthResult, bool_entry_json(RESULT_KEY@, true)),
            ),
            None => (m, frame_reply(TunnelCommand::AuthResult, bool_entry_json(RESULT_KEY@, false))),
        },
        TunnelCommand::Ping => match meta_str_spec(meta, AUTH_TOKEN_KEY@) {
            Some(token) => if m.contains_key(token) {
                (
                    m.insert(token, SessionView { ping_at: now, ..m[token] }),
                    ReplyPlan::Respond(frame_bytes(TunnelCommand::Pong, empty_object_json())),
                )
            } else {
                (m, ReplyPlan::Close)
            },
            None => (m, ReplyPlan::Close),
        },
        TunnelCommand::Forward => match meta_str_spec(meta, FORWARD_TO_KEY@) {
            Some(target) => (m, ReplyPlan::Relay(target)),
            None => (m, ReplyPlan::Close),
        },
        _ => (m, ReplyPlan::Close),
    }
}

fn reply_frame(c: TunnelCommand, meta: Vec<u8>) -> (r: StreamReply)
    ensures
        r@ == frame_reply(c, meta@),
{
    match TunnelCommandPacket::new(c, meta) {
        Ok(p) => StreamReply::Respond(p.to_bytes()),
        Err(_) => StreamReply::Close,
    }
}

/// Handles the command frame read from a stream of connection `conn` at time
/// `now`: `Auth` registers the edge under its token, `Ping` refreshes a known
/// session, `Forward` asks for a relay, anything else closes the stream.
pub fn response_command(reg: &mut SessionRegistry, conn: u64, packet: &TunnelCommandPacket, now: u64) -> (r:
    StreamReply)
    ensures
        (final(reg)@, r@) == handle_spec(old(reg)@, conn, packet.command, packet.meta@, now),
{
    match packet.command {
        TunnelCommand::Auth => match meta_str(packet.meta.as_slice(), AUTH_TOKEN_KEY) {
            Some(token) => {
                let id = get_client_id_from_token(token.as_str());
                let session = TransportSession { conn, meta: packet.meta.clone(), ping_at: now };
                reg.insert_session(id, session);
                reply_frame(TunnelCommand::AuthResult, bool_entry_meta(RESULT_KEY, true))
            },
            None => reply_frame(TunnelCommand::AuthResult, bool_entry_meta(RESULT_KEY, false)),
        },
        TunnelCommand::Ping => match meta_str(packet.meta.as_slice(), AUTH_TOKEN_KEY) {
            Some(token) => {
                let id = get_client_id_from_token(token.as_str());
                if reg.refresh_session_by_id(id.as_str(), now) {
                    reply_frame(TunnelCommand::Pong, empty_meta())
                } else {
                    StreamReply::Close
                }
            },
            None => StreamReply::Close,
        },
        TunnelCommand::Forward => match meta_str(packet.meta.as_slice(), FORWARD_TO_KEY) {
            Some(target) => StreamReply::Relay(target),
            None => StreamReply::Close,
        },
        _ => StreamReply::Close,
    }
}

} // verus!
