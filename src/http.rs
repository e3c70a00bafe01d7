use vstd::prelude::*;
use vstd::string::{StrSliceExecFns, StringExecFns, StringSliceAdditionalSpecFns};
use vstd::utf8::encode_utf8;
use crate::meta::{json_quote, json_string_of, RBRACE};
use crate::session::{live_at, is_live, TransportSession};
use crate::text::{decimal, push_bytes, push_str, to_decimal};

verus! {

/// Status line and first headers of a JSON reply, up to the content length.
pub const JSON_HEAD: &'static str = "HTTP/1.1 200 OK\r\nContent-Type: application/json; charset=utf-8\r\nContent-Length: ";

/// Headers of a JSON reply after the content length, with the blank line.
pub const JSON_TAIL: &'static str = "\r\nConnection: close\r\nCache-Control: no-cache\r\n\r\n";

/// Status line of a gateway failure, up to the content length.
pub const BAD_GATEWAY_HEAD: &'static str = "HTTP/1.1 502 Bad Gateway\r\nContent-Length: ";

/// Headers of a gateway failure after the content length, with the blank line.
pub const BAD_GATEWAY_TAIL: &'static str = "\r\nConnection: close\r\n\r\n";

/// Start of the body that reports a tunnel as offline.
pub const NOT_ONLINE_OPEN: &'static str = "{\"code\":404,\"message\":";

/// Start of the admin listing of live sessions.
pub const CLIENTS_OPEN: &'static str = "{\"status\":\"ok\",\"clients\":[";

/// Between the admin listing's sessions and its count.
pub const CLIENTS_COUNT: &'static str = "],\"count\":";

/// The byte `,`.
pub const COMMA: u8 = 44;

/// The bytes of the decimal form of `n`.
pub open spec fn decimal_bytes(n: nat) -> Seq<u8> {
    encode_utf8(decimal(n))
}

/// A complete HTTP reply that carries `body` as JSON and closes the connection.
pub open spec fn json_response_spec(body: Seq<u8>) -> Seq<u8> {
    JSON_HEAD.spec_bytes() + decimal_bytes(body.len()) + JSON_TAIL.spec_bytes() + body
}

/// A complete 502 reply whose body is the text `msg`.
pub open spec fn bad_gateway_spec(msg: Seq<char>) -> Seq<u8> {
    BAD_GATEWAY_HEAD.spec_bytes() + decimal_bytes(encode_utf8(msg).len()) + BAD_GATEWAY_TAIL.spec_bytes()
        + encode_utf8(msg)
}

/// The message that names an offline tunnel.
pub open spec fn not_online_message(tunnel_id: Seq<char>) -> Seq<char> {
    "tunnel ["@ + tunnel_id + "] not online"@
}

/// The JSON body that reports the tunnel `tunnel_id` as offline.
pub open spec fn not_online_body_spec(tunnel_id: Seq<char>) -> Seq<u8> {
    NOT_ONLINE_OPEN.spec_bytes() + json_string_of(not_online_message(tunnel_id)) + seq![RBRACE]
}

fn push_decimal(out: &mut Vec<u8>, n: u64)
    ensures
        final(out)@ == old(out)@ + decimal_bytes(n as nat),
{
    let d = to_decimal(n);
    push_str(out, d.as_str());
}

/// An HTTP reply that carries `body` as JSON and closes the connection.
pub fn json_response(body: &[u8]) -> (r: Vec<u8>)
    ensures
        r@ == json_response_spec(body@),
{
    let mut out: Vec<u8> = Vec::new();
    push_str(&mut out, JSON_HEAD);
    push_decimal(&mut out, body.len() as u64);
    push_str(&mut out, JSON_TAIL);
    push_bytes(&mut out, body);
    assert(out@ =~= json_response_spec(body@));
    out
}

/// An HTTP 502 reply whose body is the text `msg`.
pub fn bad_gateway(msg: &str) -> (r: Vec<u8>)
    ensures
        r@ == bad_gateway_spec(msg@),
{
    let mut out: Vec<u8> = Vec::new();
    push_str(&mut out, BAD_GATEWAY_HEAD);
    let bytes = msg.as_bytes();
    push_decimal(&mut out, bytes.len() as u64);
    push_str(&mut out, BAD_GATEWAY_TAIL);
    push_bytes(&mut out, bytes);
    assert(out@ =~= bad_gateway_spec(msg@));
    out
}

/// The JSON body `{"code":404,"message":"tunnel [<id>] not online"}`.
pub fn not_online_body(tunnel_id: &str) -> (r: Vec<u8>)
    ensures
        r@ == not_online_body_spec(tunnel_id@),
{
    let message = String::from_str("tunnel [").concat(tunnel_id).concat("] not online");
    let mut out: Vec<u8> = Vec::new();
    push_str(&mut out, NOT_ONLINE_OPEN);
    push_bytes(&mut out, json_quote(message.as_str()).as_slice());
    out.push(RBRACE);
    assert(out@ =~= not_online_body_spec(tunnel_id@));
    out
}

/// The metadata of the sessions in `v` that are live at `now`, in order.
pub open spec fn live_metas(v: Seq<(String, TransportSession)>, now: u64) -> Seq<Seq<u8>>
    decreases v.len(),
{
    if v.len() == 0 {
        Seq::empty()
    } else {
        let rest = live_metas(v.drop_last(), now);
        if live_at(v.last().1.ping_at, now) {
            rest.push(v.last().1.meta@)
        } else {
            rest
        }
    }
}

/// The byte strings of `parts`, with a comma between each two.
pub open spec fn comma_joined(parts: Seq<Seq<u8>>) -> Seq<u8>
    decreases parts.len(),
{
    if parts.len() == 0 {
        Seq::empty()
    } else if parts.len() == 1 {
        parts[0]
    } else {
        comma_joined(parts.drop_last()) + seq![COMMA] + parts.last()
    }
}

/// The admin listing of the sessions in `v` that are live at `now`.
pub open spec fn clients_body_spec(v: Seq<(String, TransportSession)>, now: u64) -> Seq<u8> {
    CLIENTS_OPEN.spec_bytes() + comma_joined(live_metas(v, now)) + CLIENTS_COUNT.spec_bytes()
        + decimal_bytes(live_metas(v, now).len()) + seq![RBRACE]
}

/// The admin listing `{"status":"ok","clients":[...],"count":N}` of the
/// sessions in `v` pinged at most 30 s before `now`.
pub fn clients_body(v: &Vec<(String, TransportSession)>, now: u64) -> (r: Vec<u8>)
    ensures
        r@ == clients_body_spec(v@, now),
{
    let mut joined: Vec<u8> = Vec::new();
    let mut count: usize = 0;
    let mut i: usize = 0;
    while i < v.len()
        invariant
            i <= v@.len(),
            count == live_metas(v@.subrange(0, i as int), now).len(),
            count <= i,
            joined@ == comma_joined(live_metas(v@.subrange(0, i as int), now)),
        decreases v@.len() - i,
    {
        let ghost pre = v@.subrange(0, i as int);
        let ghost next = v@.subrange(0, i + 1);
        assert(next.drop_last() =~= pre);
        assert(next.last() == v@[i as int]);
        if is_live(v[i].1.ping_at, now) {
            if count > 0 {
                joined.push(COMMA);
            }
            push_bytes(&mut joined, v[i].1.meta.as_slice());
            proof {
                let metas = live_metas(next, now);
                assert(metas.drop_last() =~= live_metas(pre, now));
                if count == 0 {
                    assert(joined@ =~= comma_joined(metas));
                } else {
                    assert(joined@ =~= comma_joined(metas));
                }
            }
            count = count + 1;
        }
        i = i + 1;
    }
    assert(v@.subrange(0, v@.len() as int) =~= v@);
    let mut out: Vec<u8> = Vec::new();
    push_str(&mut out, CLIENTS_OPEN);
    push_bytes(&mut out, joined.as_slice());
    push_str(&mut out, CLIENTS_COUNT);
    push_decimal(&mut out, count as u64);
    out.push(RBRACE);
    assert(out@ =~= clients_body_spec(v@, now));
    out
}

} // verus!
