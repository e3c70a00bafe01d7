use vstd::prelude::*;
use crate::meta::{entries_view, is_json_object, json_object_entries, meta_is_object, parse_meta, MetaValue};

verus! {

/// Size of the fixed frame header: one tag byte and a four-byte length.
pub const HEADER_FIXED_LEN: usize = 5;

/// Largest metadata payload a frame may carry.
pub const MAX_DATA_LEN: usize = 1024;

/// The command carried by a frame.
#[derive(Debug, Clone, Copy, PartialEq, Eq, Structural)]
pub enum TunnelCommand {
    Ping,
    Pong,
    Auth,
    AuthResult,
    Forward,
    SetSessionMeta,
}

/// The wire tag of each command.
pub open spec fn tag_of(c: TunnelCommand) -> u8 {
    match c {
        TunnelCommand::Ping => 0,
        TunnelCommand::Pong => 1,
        TunnelCommand::Auth => 2,
        TunnelCommand::AuthResult => 3,
        TunnelCommand::Forward => 4,
        TunnelCommand::SetSessionMeta => 5,
    }
}

/// The command a wire tag stands for, if any.
pub open spec fn command_of(t: u8) -> Option<TunnelCommand> {
    if t == 0 {
        Some(TunnelCommand::Ping)
    } else if t == 1 {
        Some(TunnelCommand::Pong)
    } else if t == 2 {
        Some(TunnelCommand::Auth)
    } else if t == 3 {
        Some(TunnelCommand::AuthResult)
    } else if t == 4 {
        Some(TunnelCommand::Forward)
    } else if t == 5 {
        Some(TunnelCommand::SetSessionMeta)
    } else {
        None
    }
}

impl TunnelCommand {
    pub fn tag(&self) -> (r: u8)
        ensures
            r == tag_of(*self),
    {
        match self {
            TunnelCommand::Ping => 0,
            TunnelCommand::Pong => 1,
            TunnelCommand::Auth => 2,
            TunnelCommand::AuthResult => 3,
            TunnelCommand::Forward => 4,
            TunnelCommand::SetSessionMeta => 5,
        }
    }

    pub fn from_tag(t: u8) -> (r: Option<TunnelCommand>)
        ensures
            r == command_of(t),
    {
        match t {
            0 => Some(TunnelCommand::Ping),
            1 => Some(TunnelCommand::Pong),
            2 => Some(TunnelCommand::Auth),
            3 => Some(TunnelCommand::AuthResult),
            4 => Some(TunnelCommand::Forward),
            5 => Some(TunnelCommand::SetSessionMeta),
            _ => None,
        }
    }
}


/// Why a frame was refused.
#[derive(Debug, Clone, Copy, PartialEq, Eq, Structural)]
pub enum FrameError {
    /// The stream ended before the whole frame arrived.
    ShortRead,
    /// The tag byte names no command.
    UnknownCommand,
    /// The metadata is longer than `MAX_DATA_LEN` bytes.
    OversizedMeta,
    /// The metadata is not a JSON object.
    MalformedJson,
}

/// The four big-endian bytes of `n`.
pub open spec fn be32(n: u32) -> Seq<u8> {
    seq![
        (n / 0x100_0000) as u8,
        ((n / 0x1_0000) % 0x100) as u8,
        ((n / 0x100) % 0x100) as u8,
        (n % 0x100) as u8,
    ]
}

/// The number held big-endian in `b[i..i + 4]`.
pub open spec fn be32_at(b: Seq<u8>, i: int) -> int {
    b[i] * 0x100_0000 + b[i + 1] * 0x1_0000 + b[i + 2] * 0x100 + b[i + 3]
}

/// The bytes of a frame: tag, big-endian length, metadata.
pub open spec fn frame_bytes(c: TunnelCommand, meta: Seq<u8>) -> Seq<u8> {
    seq![tag_of(c)] + be32(meta.len() as u32) + meta
}

/// What reading a header gives: the command and the announced length.
pub open spec fn header_spec(h: Seq<u8>) -> Result<(TunnelCommand, u32), FrameError> {
    if h.len() < HEADER_FIXED_LEN {
        Err(FrameError::ShortRead)
    } else if command_of(h[0]).is_none() {
        Err(FrameError::UnknownCommand)
    } else if be32_at(h, 1) > MAX_DATA_LEN {
        Err(FrameError::OversizedMeta)
    } else {
        Ok((command_of(h[0]).unwrap(), be32_at(h, 1) as u32))
    }
}

/// What decoding a frame from the front of `b` gives: its command and metadata.
pub open spec fn decode_spec(b: Seq<u8>) -> Result<(TunnelCommand, Seq<u8>), FrameError> {
    match header_spec(b) {
        Err(e) => Err(e),
        Ok((c, len)) => if b.len() < HEADER_FIXED_LEN + len {
            Err(FrameError::ShortRead)
        } else if !is_json_object(b.subrange(5, 5 + len)) {
            Err(FrameError::MalformedJson)
        } else {
            Ok((c, b.subrange(5, 5 + len)))
        },
    }
}

/// One command frame: a command and its JSON metadata, kept as the bytes
/// that travel on the stream.
#[derive(Debug)]
pub struct TunnelCommandPacket {
    pub command: TunnelCommand,
    pub length: u32,
    pub meta: Vec<u8>,
}

impl TunnelCommandPacket {
    /// The length field matches the metadata, which fits in a frame.
    pub open spec fn wf(&self) -> bool {
        &&& self.length as int == self.meta@.len()
        &&& self.meta@.len() <= MAX_DATA_LEN
    }

    /// Builds a frame; metadata longer than `MAX_DATA_LEN` is refused.
    pub fn new(command: TunnelCommand, meta: Vec<u8>) -> (r: Result<Self, FrameError>)
        ensures
            r is Ok <==> meta@.len() <= MAX_DATA_LEN,
            r matches Ok(p) ==> p.wf() && p.command == command && p.meta@ == meta@,
            r matches Err(e) ==> e == FrameError::OversizedMeta,
    {
        if meta.len() > MAX_DATA_LEN {
            return Err(FrameError::OversizedMeta);
        }
        let length = meta.len() as u32;
        Ok(TunnelCommandPacket { command, length, meta })
    }

    /// The bytes of this frame on the wire.
    pub fn to_bytes(&self) -> (r: Vec<u8>)
        requires
            self.wf(),
        ensures
            r@ == frame_bytes(self.command, self.meta@),
    {
        let n = self.length;
        let mut buf: Vec<u8> = Vec::with_capacity(HEADER_FIXED_LEN + self.meta.len());
        buf.push(self.command.tag());
        buf.push((n / 0x100_0000) as u8);
        buf.push(((n / 0x1_0000) % 0x100) as u8);
        buf.push(((n / 0x100) % 0x100) as u8);
        buf.push((n % 0x100) as u8);
        let mut i: usize = 0;
        while i < self.meta.len()
            invariant
                self.wf(),
                i <= self.meta@.len(),
                buf@ == seq![tag_of(self.command)] + be32(n) + self.meta@.subrange(0, i as int),
            decreases self.meta@.len() - i,
        {
            buf.push(self.meta[i]);
            assert(self.meta@.subrange(0, i + 1) =~= self.meta@.subrange(0, i as int).push(self.meta@[i as int]));
            i = i + 1;
        }
        assert(self.meta@.subrange(0, self.meta@.len() as int) =~= self.meta@);
        buf
    }

    /// The entries of a metadata object, or `None` when `bytes` is not one.
    pub fn decode_meta(bytes: &[u8]) -> (r: Option<Vec<(String, MetaValue)>>)
        ensures
            r.is_some() == json_object_entries(bytes@).is_some(),
            r.is_some() ==> entries_view(r.unwrap()@) == json_object_entries(bytes@).unwrap(),
    {
        parse_meta(bytes)
    }

    /// Reads a frame header: the command and the length of the metadata that follows.
    pub fn parse_header(h: &[u8]) -> (r: Result<(TunnelCommand, u32), FrameError>)
        ensures
            r == header_spec(h@),
    {
        if h.len() < HEADER_FIXED_LEN {
            return Err(FrameError::ShortRead);
        }
        let command = match TunnelCommand::from_tag(h[0]) {
            Some(c) => c,
            None => return Err(FrameError::UnknownCommand),
        };
        let length: u32 = (h[1] as u32) * 0x100_0000 + (h[2] as u32) * 0x1_0000 + (h[3] as u32)
            * 0x100 + (h[4] as u32);
        if length as usize > MAX_DATA_LEN {
            return Err(FrameError::OversizedMeta);
        }
        Ok((command, length))
    }

    /// Completes a frame from its header and the metadata read after it.
    pub fn from_parts(command: TunnelCommand, length: u32, meta: Vec<u8>) -> (r: Result<
        Self,
        FrameError,
    >)
        requires
            length <= MAX_DATA_LEN,
        ensures
            meta@.len() != length ==> r == Err::<Self, FrameError>(FrameError::ShortRead),
            meta@.len() == length && !is_json_object(meta@) ==> r == Err::<Self, FrameError>(
                FrameError::MalformedJson,
            ),
            meta@.len() == length && is_json_object(meta@) ==> (r matches Ok(p) && p.wf()
                && p.command == command && p.meta@ == meta@),
    {
        if meta.len() != length as usize {
            return Err(FrameError::ShortRead);
        }
        if !meta_is_object(meta.as_slice()) {
            return Err(FrameError::MalformedJson);
        }
        Ok(TunnelCommandPacket { command, length, meta })
    }

    /// Decodes the frame at the front of `b`, with the number of bytes it took.
    pub fn decode(b: &[u8]) -> (r: Result<(Self, usize), FrameError>)
        ensures
            r matches Ok((p, n)) ==> p.wf() && decode_spec(b@) == Ok::<(TunnelCommand, Seq<u8>), FrameError>((p.command, p.meta@))
                && n == HEADER_FIXED_LEN + p.length,
            r matches Err(e) ==> decode_spec(b@) == Err::<(TunnelCommand, Seq<u8>), FrameError>(e),
    {
        let (command, length) = match Self::parse_header(b) {
            Ok(h) => h,
            Err(e) => return Err(e),
        };
        let end = HEADER_FIXED_LEN + length as usize;
        if b.len() < end {
            return Err(FrameError::ShortRead);
        }
        let mut meta: Vec<u8> = Vec::with_capacity(length as usize);
        let mut i: usize = HEADER_FIXED_LEN;
        while i < end
            invariant
                HEADER_FIXED_LEN <= i <= end <= b@.len(),
                meta@ == b@.subrange(5, i as int),
            decreases end - i,
        {
            meta.push(b[i]);
            assert(b@.subrange(5, i + 1) =~= b@.subrange(5, i as int).push(b@[i as int]));
            i = i + 1;
        }
        match Self::from_parts(command, length, meta) {
            Ok(p) => Ok((p, end)),
            Err(e) => Err(e),
        }
    }
}

/// Every accepted frame took its header and exactly its announced metadata
/// from the stream, and that metadata fits the size limit.
pub proof fn lemma_accepted_frame_consumption(b: Seq<u8>)
    requires
        decode_spec(b) is Ok,
    ensures
        b.len() >= HEADER_FIXED_LEN + be32_at(b, 1),
        be32_at(b, 1) <= MAX_DATA_LEN,
        decode_spec(b).unwrap().1 == b.subrange(5, 5 + be32_at(b, 1)),
{
}

/// Decoding the encoding of a legal frame gives the frame back.
pub proof fn lemma_frame_round_trip(c: TunnelCommand, meta: Seq<u8>)
    requires
        meta.len() <= MAX_DATA_LEN,
        is_json_object(meta),
    ensures
        decode_spec(frame_bytes(c, meta)) == Ok::<(TunnelCommand, Seq<u8>), FrameError>((c, meta)),
{
    let b = frame_bytes(c, meta);
    let n = meta.len() as u32;
    assert(n / 0x100_0000 == 0);
    assert((n / 0x1_0000) % 0x100 == 0);
    assert(n == ((n / 0x100) % 0x100) * 0x100 + n % 0x100);
    assert(b[0] == tag_of(c));
    assert(be32_at(b, 1) == meta.len());
    assert(command_of(tag_of(c)) == Some(c));
    assert(b.subrange(5, 5 + meta.len() as int) =~= meta);
}

} // verus!
