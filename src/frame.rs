//! Frames: the header layout, request builders and response decoding.
use vstd::prelude::*;
use vstd::string::StringSliceAdditionalSpecFns;
use crate::bytes::{be16, be32, read16, read32, push_u16, push_u32, push_all,
    lemma_read16_be16, lemma_read32_be32, lemma_i16_bits};
use crate::error::{CdrsError, ProtocolErrorKind};
use crate::query::ParamsReqQuery;
use crate::types::{CBytesShort, MAX_SHORT_LEN, long_bytes, short_bytes};

verus! {

/// Version byte of a request: protocol version 4, request direction.
pub const VERSION_REQUEST: u8 = 0x04;
/// Bit of the version byte that marks a response.
pub const VERSION_RESPONSE_BIT: u8 = 0x80;
/// Frame flag: the body is compressed.
pub const FRAME_FLAG_COMPRESSION: u8 = 0x01;
/// Frame flag: tracing is requested or present.
pub const FRAME_FLAG_TRACING: u8 = 0x02;
/// Bytes in a frame header.
pub const HEADER_LEN: usize = 9;
/// Largest body a frame may declare (256 MiB).
pub const MAX_BODY_LEN: u32 = 0x1000_0000;

/// The message type of a frame.
#[derive(Clone, Copy, Debug, PartialEq, Eq, Structural)]
pub enum Opcode {
    Error,
    Startup,
    Ready,
    Authenticate,
    Options,
    Supported,
    Query,
    Result,
    Prepare,
    Execute,
    Register,
    Event,
    Batch,
    AuthChallenge,
    AuthResponse,
    AuthSuccess,
}

/// The byte that stands for an opcode on the wire.
pub open spec fn opcode_byte(o: Opcode) -> u8 {
    match o {
        Opcode::Error => 0x00,
        Opcode::Startup => 0x01,
        Opcode::Ready => 0x02,
        Opcode::Authenticate => 0x03,
        Opcode::Options => 0x05,
        Opcode::Supported => 0x06,
        Opcode::Query => 0x07,
        Opcode::Result => 0x08,
        Opcode::Prepare => 0x09,
        Opcode::Execute => 0x0A,
        Opcode::Register => 0x0B,
        Opcode::Event => 0x0C,
        Opcode::Batch => 0x0D,
        Opcode::AuthChallenge => 0x0E,
        Opcode::AuthResponse => 0x0F,
        Opcode::AuthSuccess => 0x10,
    }
}

/// The opcode that a byte stands for, if any.
pub open spec fn opcode_of(b: u8) -> Option<Opcode> {
    if exists|o: Opcode| opcode_byte(o) == b {
        Some(choose|o: Opcode| opcode_byte(o) == b)
    } else {
        None
    }
}

/// Distinct opcodes have distinct bytes, so a byte names at most one opcode.
pub proof fn lemma_opcode_of_byte(o: Opcode)
    ensures
        opcode_of(opcode_byte(o)) == Some(o),
{
    let p = choose|p: Opcode| opcode_byte(p) == opcode_byte(o);
    assert(opcode_byte(p) == opcode_byte(o));
    assert(p == o);
}

impl Opcode {
    pub fn to_byte(&self) -> (r: u8)
        ensures
            r == opcode_byte(*self),
    {
        match self {
            Opcode::Error => 0x00,
            Opcode::Startup => 0x01,
            Opcode::Ready => 0x02,
            Opcode::Authenticate => 0x03,
            Opcode::Options => 0x05,
            Opcode::Supported => 0x06,
            Opcode::Query => 0x07,
            Opcode::Result => 0x08,
            Opcode::Prepare => 0x09,
            Opcode::Execute => 0x0A,
            Opcode::Register => 0x0B,
            Opcode::Event => 0x0C,
            Opcode::Batch => 0x0D,
            Opcode::AuthChallenge => 0x0E,
            Opcode::AuthResponse => 0x0F,
            Opcode::AuthSuccess => 0x10,
        }
    }

    pub fn from_byte(b: u8) -> (r: Option<Opcode>)
        ensures
            r == opcode_of(b),
    {
        let r = match b {
            0x00 => Some(Opcode::Error),
            0x01 => Some(Opcode::Startup),
            0x02 => Some(Opcode::Ready),
            0x03 => Some(Opcode::Authenticate),
            0x05 => Some(Opcode::Options),
            0x06 => Some(Opcode::Supported),
            0x07 => Some(Opcode::Query),
            0x08 => Some(Opcode::Result),
            0x09 => Some(Opcode::Prepare),
            0x0A => Some(Opcode::Execute),
            0x0B => Some(Opcode::Register),
            0x0C => Some(Opcode::Event),
            0x0D => Some(Opcode::Batch),
            0x0E => Some(Opcode::AuthChallenge),
            0x0F => Some(Opcode::AuthResponse),
            0x10 => Some(Opcode::AuthSuccess),
            _ => None,
        };
        proof {
            match r {
                Some(o) => lemma_opcode_of_byte(o),
                None => {
                    assert forall|o: Opcode| opcode_byte(o) != b by {}
                },
            }
        }
        r
    }
}

/// One protocol message.
#[derive(Clone, Debug)]
pub struct Frame {
    pub version: u8,
    pub flags: u8,
    pub stream: i16,
    pub opcode: Opcode,
    pub body: Vec<u8>,
}

/// The fixed-size part of a frame, as read from the wire.
#[derive(Clone, Copy, Debug, PartialEq, Eq, Structural)]
pub struct FrameHeader {
    pub version: u8,
    pub flags: u8,
    pub stream: i16,
    pub opcode: Opcode,
    pub length: u32,
}

/// The header bytes: version, flags, stream, opcode, body length.
pub open spec fn header_bytes(version: u8, flags: u8, stream: i16, opcode: Opcode, len: u32) -> Seq<u8> {
    seq![version, flags] + be16(stream as u16) + seq![opcode_byte(opcode)] + be32(len)
}

impl Frame {
    /// The body fits the maximum length.
    pub open spec fn wf(&self) -> bool {
        self.body@.len() <= MAX_BODY_LEN
    }

    /// The header this frame is written with.
    pub open spec fn spec_header(&self) -> FrameHeader {
        FrameHeader {
            version: self.version,
            flags: self.flags,
            stream: self.stream,
            opcode: self.opcode,
            length: self.body@.len() as u32,
        }
    }

    /// The wire form: header, then body.
    pub open spec fn spec_bytes(&self) -> Seq<u8> {
        header_bytes(self.version, self.flags, self.stream, self.opcode, self.body@.len() as u32)
            + self.body@
    }

    /// The wire form of this frame.
    pub fn into_cbytes(&self) -> (r: Vec<u8>)
        requires
            self.wf(),
        ensures
            r@ == self.spec_bytes(),
    {
        let mut out: Vec<u8> = Vec::new();
        out.push(self.version);
        out.push(self.flags);
        push_u16(&mut out, self.stream as u16);
        out.push(self.opcode.to_byte());
        push_u32(&mut out, self.body.len() as u32);
        push_all(&mut out, &self.body);
        assert(out@ =~= self.spec_bytes());
        out
    }
}

/// What a header of `s` decodes to: its fields, or the first rule it breaks.
pub open spec fn spec_decode_header(s: Seq<u8>) -> Result<FrameHeader, CdrsError> {
    if s.len() < HEADER_LEN {
        Err(CdrsError::Protocol(ProtocolErrorKind::ShortHeader))
    } else if opcode_of(s[4]) is None {
        Err(CdrsError::Protocol(ProtocolErrorKind::UnknownOpcode))
    } else if read32(s[5], s[6], s[7], s[8]) > MAX_BODY_LEN {
        Err(CdrsError::Protocol(ProtocolErrorKind::BadLength))
    } else {
        Ok(FrameHeader {
            version: s[0],
            flags: s[1],
            stream: read16(s[2], s[3]) as i16,
            opcode: opcode_of(s[4])->0,
            length: read32(s[5], s[6], s[7], s[8]),
        })
    }
}

/// Reads a frame header from the first bytes of `buf`.
pub fn decode_header(buf: &[u8]) -> (r: Result<FrameHeader, CdrsError>)
    ensures
        r == spec_decode_header(buf@),
{
    if buf.len() < HEADER_LEN {
        return Err(CdrsError::Protocol(ProtocolErrorKind::ShortHeader));
    }
    let opcode = match Opcode::from_byte(buf[4]) {
        Some(o) => o,
        None => return Err(CdrsError::Protocol(ProtocolErrorKind::UnknownOpcode)),
    };
    let length: u32 = ((buf[5] as u32) << 24u32) | ((buf[6] as u32) << 16u32)
        | ((buf[7] as u32) << 8u32) | (buf[8] as u32);
    if length > MAX_BODY_LEN {
        return Err(CdrsError::Protocol(ProtocolErrorKind::BadLength));
    }
    let stream: u16 = ((buf[2] as u16) << 8u16) | (buf[3] as u16);
    Ok(FrameHeader { version: buf[0], flags: buf[1], stream: stream as i16, opcode, length })
}

/// Decoding the header bytes of a well-formed frame gives back its version,
/// flags, stream identifier, opcode and exact body length.
pub proof fn lemma_header_round_trip(f: Frame)
    requires
        f.wf(),
    ensures
        spec_decode_header(f.spec_bytes()) == Ok::<FrameHeader, CdrsError>(f.spec_header()),
{
    let s = f.spec_bytes();
    let len = f.body@.len() as u32;
    lemma_read16_be16(f.stream as u16);
    lemma_read32_be32(len);
    lemma_i16_bits(f.stream);
    lemma_opcode_of_byte(f.opcode);
    assert(s[4] == opcode_byte(f.opcode));
    assert(s[2] == be16(f.stream as u16)[0] && s[3] == be16(f.stream as u16)[1]);
    assert(s[5] == be32(len)[0] && s[6] == be32(len)[1] && s[7] == be32(len)[2] && s[8] == be32(len)[3]);
}

/// An ERROR body holds a four-byte code and a string with a two-byte length.
pub open spec fn error_body_ok(b: Seq<u8>) -> bool {
    b.len() >= 6 && 6 + read16(b[4], b[5]) <= b.len()
}

/// The code of an ERROR body.
pub open spec fn error_code(b: Seq<u8>) -> i32 {
    read32(b[0], b[1], b[2], b[3]) as i32
}

/// The message of an ERROR body.
pub open spec fn error_message(b: Seq<u8>) -> Seq<u8> {
    b.subrange(6, 6 + read16(b[4], b[5]))
}

/// What a header and a body decode to when no compression was negotiated:
/// `Ok` exactly when the body has the declared length, is not compressed and
/// is not an ERROR, which becomes a server error instead.
pub open spec fn decode_frame_ok(h: FrameHeader, body: Seq<u8>) -> bool {
    body.len() == h.length && h.flags & FRAME_FLAG_COMPRESSION == 0 && h.opcode != Opcode::Error
}

/// Copies `b[from..to]`.
fn copy_range(b: &Vec<u8>, from: usize, to: usize) -> (r: Vec<u8>)
    requires
        from <= to <= b@.len(),
    ensures
        r@ == b@.subrange(from as int, to as int),
{
    let mut r: Vec<u8> = Vec::new();
    let mut i: usize = from;
    while i < to
        invariant
            from <= i <= to <= b@.len(),
            r@ == b@.subrange(from as int, i as int),
        decreases to - i,
    {
        r.push(b[i]);
        i = i + 1;
        assert(r@ =~= b@.subrange(from as int, i as int));
    }
    r
}

/// Builds a frame from its header and the body read after it. The body must
/// have exactly the declared length; an ERROR frame is surfaced as
/// `CdrsError::Server` with its code and message.
pub fn decode_frame(h: FrameHeader, body: Vec<u8>) -> (r: Result<Frame, CdrsError>)
    ensures
        r is Ok <==> decode_frame_ok(h, body@),
        r matches Ok(f) ==> f.spec_header() == h && f.body@ == body@,
        body@.len() != h.length ==> r == Err::<Frame, CdrsError>(
            CdrsError::Protocol(ProtocolErrorKind::LengthMismatch)),
        body@.len() == h.length && h.flags & FRAME_FLAG_COMPRESSION != 0 ==> r == Err::<Frame, CdrsError>(
            CdrsError::Protocol(ProtocolErrorKind::CompressedBody)),
        body@.len() == h.length && h.flags & FRAME_FLAG_COMPRESSION == 0 && h.opcode == Opcode::Error
            ==> (if error_body_ok(body@) {
                r matches Err(CdrsError::Server { code, message })
                    && code == error_code(body@) && message@ == error_message(body@)
            } else {
                r == Err::<Frame, CdrsError>(CdrsError::Protocol(ProtocolErrorKind::BadErrorBody))
            }),
{
    if body.len() as u64 != h.length as u64 {
        return Err(CdrsError::Protocol(ProtocolErrorKind::LengthMismatch));
    }
    if h.flags & FRAME_FLAG_COMPRESSION != 0 {
        return Err(CdrsError::Protocol(ProtocolErrorKind::CompressedBody));
    }
    match h.opcode {
        Opcode::Error => {
            if body.len() < 6 {
                return Err(CdrsError::Protocol(ProtocolErrorKind::BadErrorBody));
            }
            let mlen: u16 = ((body[4] as u16) << 8u16) | (body[5] as u16);
            if mlen as usize > body.len() - 6 {
                return Err(CdrsError::Protocol(ProtocolErrorKind::BadErrorBody));
            }
            let code: u32 = ((body[0] as u32) << 24u32) | ((body[1] as u32) << 16u32)
                | ((body[2] as u32) << 8u32) | (body[3] as u32);
            let message = copy_range(&body, 6, 6 + mlen as usize);
            Err(CdrsError::Server { code: code as i32, message })
        },
        _ => {
            let f = Frame { version: h.version, flags: h.flags, stream: h.stream, opcode: h.opcode, body };
            Ok(f)
        },
    }
}

/// Key of the STARTUP option that names the query language version: `CQL_VERSION`.
pub open spec fn cql_version_key() -> Seq<u8> {
    seq![0x43, 0x51, 0x4C, 0x5F, 0x56, 0x45, 0x52, 0x53, 0x49, 0x4F, 0x4E]
}

/// The query language version this driver speaks: `3.0.0`.
pub open spec fn cql_version() -> Seq<u8> {
    seq![0x33, 0x2E, 0x30, 0x2E, 0x30]
}

/// Key of the STARTUP option that names the compression algorithm: `COMPRESSION`.
pub open spec fn compression_key() -> Seq<u8> {
    seq![0x43, 0x4F, 0x4D, 0x50, 0x52, 0x45, 0x53, 0x53, 0x49, 0x4F, 0x4E]
}

fn bytes_of(s: &[u8]) -> (r: Vec<u8>)
    ensures
        r@ == s@,
{
    let mut r: Vec<u8> = Vec::new();
    let mut i: usize = 0;
    while i < s.len()
        invariant
            i <= s@.len(),
            r@ == s@.subrange(0, i as int),
        decreases s@.len() - i,
    {
        r.push(s[i]);
        i = i + 1;
        assert(r@ =~= s@.subrange(0, i as int));
    }
    assert(s@.subrange(0, s@.len() as int) =~= s@);
    r
}

/// STARTUP body: a string map with the version and, if given, the compression.
pub open spec fn startup_body(compression: Option<Seq<u8>>) -> Seq<u8> {
    match compression {
        Some(c) => be16(2) + short_bytes(cql_version_key()) + short_bytes(cql_version())
            + short_bytes(compression_key()) + short_bytes(c),
        None => be16(1) + short_bytes(cql_version_key()) + short_bytes(cql_version()),
    }
}

/// A request frame with no flags set.
pub open spec fn is_request(f: Frame, stream: i16, opcode: Opcode) -> bool {
    f.version == VERSION_REQUEST && f.flags == 0 && f.stream == stream && f.opcode == opcode
}

/// Appends a string with a two-byte length.
fn push_short_bytes(out: &mut Vec<u8>, b: &Vec<u8>)
    requires
        b@.len() <= MAX_SHORT_LEN,
    ensures
        final(out)@ == old(out)@ + short_bytes(b@),
{
    push_u16(out, b.len() as u16);
    push_all(out, b);
    assert(final(out)@ =~= old(out)@ + short_bytes(b@));
}

impl Frame {
    /// STARTUP request, naming `compression` when given.
    pub fn new_req_startup(stream: i16, compression: Option<&str>) -> (r: Frame)
        requires
            compression matches Some(c) ==> c.spec_bytes().len() <= MAX_SHORT_LEN,
        ensures
            is_request(r, stream, Opcode::Startup),
            r.body@ == startup_body(match compression {
                Some(c) => Some(c.spec_bytes()),
                None => None,
            }),
    {
        let mut body: Vec<u8> = Vec::new();
        let key = vec![0x43, 0x51, 0x4C, 0x5F, 0x56, 0x45, 0x52, 0x53, 0x49, 0x4F, 0x4E];
        let ver = vec![0x33, 0x2E, 0x30, 0x2E, 0x30];
        assert(key@ =~= cql_version_key());
        assert(ver@ =~= cql_version());
        match compression {
            Some(c) => {
                push_u16(&mut body, 2);
                push_short_bytes(&mut body, &key);
                push_short_bytes(&mut body, &ver);
                let ckey = vec![0x43, 0x4F, 0x4D, 0x50, 0x52, 0x45, 0x53, 0x53, 0x49, 0x4F, 0x4E];
                assert(ckey@ =~= compression_key());
                push_short_bytes(&mut body, &ckey);
                let name = bytes_of(c.as_bytes());
                push_short_bytes(&mut body, &name);
                assert(body@ =~= startup_body(Some(c.spec_bytes())));
            },
            None => {
                push_u16(&mut body, 1);
                push_short_bytes(&mut body, &key);
                push_short_bytes(&mut body, &ver);
                assert(body@ =~= startup_body(None));
            },
        }
        Frame { version: VERSION_REQUEST, flags: 0, stream, opcode: Opcode::Startup, body }
    }

    /// OPTIONS request, with an empty body.
    pub fn new_req_options(stream: i16) -> (r: Frame)
        ensures
            is_request(r, stream, Opcode::Options),
            r.body@.len() == 0,
    {
        Frame { version: VERSION_REQUEST, flags: 0, stream, opcode: Opcode::Options, body: Vec::new() }
    }

    /// PREPARE request: the query text with a four-byte length.
    pub fn new_req_prepare(stream: i16, query: &str) -> (r: Frame)
        requires
            query.spec_bytes().len() <= MAX_BODY_LEN - 4,
        ensures
            is_request(r, stream, Opcode::Prepare),
            r.body@ == long_bytes(query.spec_bytes()),
            r.wf(),
    {
        let q = bytes_of(query.as_bytes());
        let mut body: Vec<u8> = Vec::new();
        push_u32(&mut body, q.len() as u32);
        push_all(&mut body, &q);
        assert(body@ =~= long_bytes(query.spec_bytes()));
        Frame { version: VERSION_REQUEST, flags: 0, stream, opcode: Opcode::Prepare, body }
    }

    /// EXECUTE request: the prepared statement's identifier, then the parameters.
    pub fn new_req_execute(stream: i16, id: &CBytesShort, params: &ParamsReqQuery) -> (r: Frame)
        requires
            id.wf(),
            params.wf(),
        ensures
            is_request(r, stream, Opcode::Execute),
            r.body@ == id.spec_bytes() + params.spec_bytes(),
    {
        let mut body: Vec<u8> = Vec::new();
        id.serialize(&mut body);
        params.serialize(&mut body);
        assert(body@ =~= id.spec_bytes() + params.spec_bytes());
        Frame { version: VERSION_REQUEST, flags: 0, stream, opcode: Opcode::Execute, body }
    }

    /// QUERY request: the query text with a four-byte length, then the parameters.
    pub fn new_req_query(stream: i16, query: &str, params: &ParamsReqQuery) -> (r: Frame)
        requires
            query.spec_bytes().len() <= MAX_BODY_LEN - 4,
            params.wf(),
        ensures
            is_request(r, stream, Opcode::Query),
            r.body@ == long_bytes(query.spec_bytes()) + params.spec_bytes(),
    {
        let q = bytes_of(query.as_bytes());
        let mut body: Vec<u8> = Vec::new();
        push_u32(&mut body, q.len() as u32);
        push_all(&mut body, &q);
        params.serialize(&mut body);
        assert(body@ =~= long_bytes(query.spec_bytes()) + params.spec_bytes());
        Frame { version: VERSION_REQUEST, flags: 0, stream, opcode: Opcode::Query, body }
    }

    /// AUTH_RESPONSE request: the token with a four-byte length.
    pub fn new_req_auth_response(stream: i16, token: &Vec<u8>) -> (r: Frame)
        requires
            token@.len() <= MAX_BODY_LEN - 4,
        ensures
            is_request(r, stream, Opcode::AuthResponse),
            r.body@ == long_bytes(token@),
            r.wf(),
    {
        let mut body: Vec<u8> = Vec::new();
        push_u32(&mut body, token.len() as u32);
        push_all(&mut body, token);
        assert(body@ =~= long_bytes(token@));
        Frame { version: VERSION_REQUEST, flags: 0, stream, opcode: Opcode::AuthResponse, body }
    }

    /// Whether the body fits the maximum length, so that the frame can be written.
    pub fn fits(&self) -> (r: bool)
        ensures
            r == self.wf(),
    {
        self.body.len() as u64 <= MAX_BODY_LEN as u64
    }
}

/// A request frame read back by a peer: the header decodes to the frame's own
/// version, flags, stream identifier, opcode and body length, and the bytes
/// after it decode to a frame with the same body.
pub proof fn lemma_request_round_trip(f: Frame)
    requires
        f.wf(),
        f.flags == 0,
        f.opcode != Opcode::Error,
    ensures
        spec_decode_header(f.spec_bytes()) == Ok::<FrameHeader, CdrsError>(f.spec_header()),
        f.spec_bytes().subrange(HEADER_LEN as int, f.spec_bytes().len() as int) == f.body@,
        decode_frame_ok(f.spec_header(), f.body@),
{
    lemma_header_round_trip(f);
    let h = header_bytes(f.version, f.flags, f.stream, f.opcode, f.body@.len() as u32);
    assert(h.len() == HEADER_LEN);
    assert(f.spec_bytes().subrange(HEADER_LEN as int, f.spec_bytes().len() as int) =~= f.body@);
    assert(0u8 & FRAME_FLAG_COMPRESSION == 0) by (bit_vector);
}

/// Largest stream identifier; negative ones belong to server events.
pub const MAX_STREAM: i16 = 0x7fff;

/// Hands out the stream identifiers of one connection's requests.
#[derive(Clone, Copy, Debug, PartialEq, Eq, Structural)]
pub struct StreamIds {
    next: i16,
}

impl StreamIds {
    pub closed spec fn spec_next(&self) -> i16 {
        self.next
    }

    pub open spec fn wf(&self) -> bool {
        self.spec_next() >= 0
    }

    pub fn new() -> (r: StreamIds)
        ensures
            r.wf(),
            r.spec_next() == 0,
    {
        StreamIds { next: 0 }
    }

    /// A non-negative identifier for the next request; after the largest one
    /// the count starts again at zero.
    pub fn allocate(&mut self) -> (r: i16)
        requires
            old(self).wf(),
        ensures
            final(self).wf(),
            r == old(self).spec_next(),
            r >= 0,
            final(self).spec_next() == if r == MAX_STREAM { 0 } else { (r + 1) as i16 },
    {
        let r = self.next;
        self.next = if r == MAX_STREAM { 0 } else { r + 1 };
        r
    }
}

/// The answer to a request sent with `stream`, or `StreamMismatch` when the
/// frame answers another one.
pub fn match_response(stream: i16, f: Frame) -> (r: Result<Frame, CdrsError>)
    ensures
        f.stream == stream ==> (r matches Ok(g) && g == f),
        f.stream != stream ==> r == Err::<Frame, CdrsError>(
            CdrsError::Protocol(ProtocolErrorKind::StreamMismatch)),
{
    if f.stream == stream {
        Ok(f)
    } else {
        Err(CdrsError::Protocol(ProtocolErrorKind::StreamMismatch))
    }
}

} // verus!
