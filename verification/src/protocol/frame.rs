//! Binary frame codec for terminal and file-chunk frames.
//!
//! A frame is a fixed 38-byte header followed by the payload:
//! magic `TM`, version, kind, flags, reserved, big-endian payload length,
//! the 16-byte stream id, big-endian file index and big-endian offset.

use vstd::prelude::*;
use crate::text::{concat, decimal, decimal_string, hex_char, hex_string, hexadecimal, string_from_chars};

verus! {

pub const HEADER_BYTES: usize = 38;
pub const MAGIC_0: u8 = 0x54;
pub const MAGIC_1: u8 = 0x4d;
pub const VERSION: u8 = 0x01;

pub const KIND_TERMINAL_INPUT: u8 = 0x01;
pub const KIND_TERMINAL_OUTPUT: u8 = 0x02;
pub const KIND_FILE_CHUNK: u8 = 0x03;

pub const TERMINAL_PAYLOAD_MAX: usize = 32768;
pub const FILE_PAYLOAD_MAX: usize = 262144;
pub const MESSAGE_MAX: usize = 262182;
pub const TERMINAL_FILE_INDEX: u32 = 0xffff_ffff;

#[derive(Debug, Clone, PartialEq, Eq)]
pub struct FrameError(pub String);

#[derive(Debug, Clone, PartialEq, Eq)]
pub struct Frame {
    pub kind: u8,
    /// sessionId for terminal frames, transferId for file chunks.
    pub stream_id: [u8; 16],
    pub file_index: u32,
    pub offset: u64,
    pub payload: Vec<u8>,
}

/// The mathematical content of a frame.
pub ghost struct FrameModel {
    pub kind: u8,
    pub stream_id: Seq<u8>,
    pub file_index: u32,
    pub offset: u64,
    pub payload: Seq<u8>,
}

impl View for Frame {
    type V = FrameModel;

    open spec fn view(&self) -> FrameModel {
        FrameModel {
            kind: self.kind,
            stream_id: self.stream_id@,
            file_index: self.file_index,
            offset: self.offset,
            payload: self.payload@,
        }
    }
}

pub open spec fn is_known_kind(kind: u8) -> bool {
    kind == KIND_TERMINAL_INPUT || kind == KIND_TERMINAL_OUTPUT || kind == KIND_FILE_CHUNK
}

pub open spec fn spec_payload_limit(kind: u8) -> nat {
    if kind == KIND_FILE_CHUNK { FILE_PAYLOAD_MAX as nat } else { TERMINAL_PAYLOAD_MAX as nat }
}

pub open spec fn be_u32_bytes(x: u32) -> Seq<u8> {
    seq![(x >> 24u32) as u8, (x >> 16u32) as u8, (x >> 8u32) as u8, x as u8]
}

pub open spec fn be_u32_value(b0: u8, b1: u8, b2: u8, b3: u8) -> u32 {
    ((b0 as u32) << 24u32) | ((b1 as u32) << 16u32) | ((b2 as u32) << 8u32) | (b3 as u32)
}

pub open spec fn be_u64_bytes(x: u64) -> Seq<u8> {
    seq![
        (x >> 56u64) as u8, (x >> 48u64) as u8, (x >> 40u64) as u8, (x >> 32u64) as u8,
        (x >> 24u64) as u8, (x >> 16u64) as u8, (x >> 8u64) as u8, x as u8,
    ]
}

pub open spec fn be_u64_value(b: Seq<u8>) -> u64 {
    ((b[0] as u64) << 56u64) | ((b[1] as u64) << 48u64) | ((b[2] as u64) << 40u64)
        | ((b[3] as u64) << 32u64) | ((b[4] as u64) << 24u64) | ((b[5] as u64) << 16u64)
        | ((b[6] as u64) << 8u64) | (b[7] as u64)
}

/// The file index a frame carries on the wire: its own for file chunks,
/// the all-ones marker for terminal frames.
pub open spec fn wire_file_index(f: FrameModel) -> u32 {
    if f.kind == KIND_FILE_CHUNK { f.file_index } else { TERMINAL_FILE_INDEX }
}

/// The 38 header bytes of `f`.
pub open spec fn header_bytes(f: FrameModel) -> Seq<u8> {
    seq![MAGIC_0, MAGIC_1, VERSION, f.kind, 0u8, 0u8]
        + be_u32_bytes(f.payload.len() as u32)
        + f.stream_id
        + be_u32_bytes(wire_file_index(f))
        + be_u64_bytes(f.offset)
}

/// The bytes `f` is written as.
pub open spec fn frame_bytes(f: FrameModel) -> Seq<u8> {
    header_bytes(f) + f.payload
}

/// What `encode` gives for `f`: the error text for an unknown kind or an
/// oversized payload, the frame bytes otherwise.
pub open spec fn encode_outcome(f: FrameModel) -> Result<Seq<u8>, Seq<char>> {
    if !is_known_kind(f.kind) {
        Err("unknown kind 0x"@ + hexadecimal(f.kind as nat))
    } else if f.payload.len() > spec_payload_limit(f.kind) {
        Err("payload "@ + decimal(f.payload.len()) + " exceeds the limit for kind 0x"@
            + hexadecimal(f.kind as nat))
    } else {
        Ok(frame_bytes(f))
    }
}

pub open spec fn be_u32_at(b: Seq<u8>, i: int) -> u32 {
    be_u32_value(b[i], b[i + 1], b[i + 2], b[i + 3])
}

/// What `decode` gives for `b`: the first rule `b` breaks, with its message,
/// or the frame it holds.
pub open spec fn decode_outcome(b: Seq<u8>) -> Result<FrameModel, Seq<char>> {
    if b.len() > MESSAGE_MAX {
        Err("message "@ + decimal(b.len()) + " exceeds 262182"@)
    } else if b.len() < HEADER_BYTES {
        Err("truncated header: "@ + decimal(b.len()) + " < 38"@)
    } else if b[0] != MAGIC_0 || b[1] != MAGIC_1 {
        Err("bad magic"@)
    } else if b[2] != VERSION {
        Err("unsupported frame version "@ + decimal(b[2] as nat))
    } else if !is_known_kind(b[3]) {
        Err("unknown kind 0x"@ + hexadecimal(b[3] as nat))
    } else if b[4] != 0 {
        Err("flags must be 0 in MVP"@)
    } else if b[5] != 0 {
        Err("reserved byte must be 0"@)
    } else if be_u32_at(b, 6) as int != b.len() - HEADER_BYTES {
        Err("payloadLength "@ + decimal(be_u32_at(b, 6) as nat) + " does not match the "@
            + decimal((b.len() - HEADER_BYTES) as nat) + " bytes present"@)
    } else if be_u32_at(b, 6) > spec_payload_limit(b[3]) {
        Err("payload "@ + decimal(be_u32_at(b, 6) as nat) + " exceeds the limit for kind 0x"@
            + hexadecimal(b[3] as nat))
    } else if b[3] == KIND_FILE_CHUNK && be_u32_at(b, 26) > 255 {
        Err("fileIndex "@ + decimal(be_u32_at(b, 26) as nat)
            + " exceeds the 256-file batch limit"@)
    } else if b[3] != KIND_FILE_CHUNK && be_u32_at(b, 26) != TERMINAL_FILE_INDEX {
        Err("terminal frames must set fileIndex to 0xFFFFFFFF"@)
    } else {
        Ok(FrameModel {
            kind: b[3],
            stream_id: b.subrange(10, 26),
            file_index: be_u32_at(b, 26),
            offset: be_u64_value(b.subrange(30, 38)),
            payload: b.subrange(38, b.len() as int),
        })
    }
}

proof fn lemma_be_u32(x: u32)
    ensures
        be_u32_value((x >> 24u32) as u8, (x >> 16u32) as u8, (x >> 8u32) as u8, x as u8) == x,
{
    assert(((((x >> 24u32) as u8) as u32) << 24u32) | ((((x >> 16u32) as u8) as u32) << 16u32)
        | ((((x >> 8u32) as u8) as u32) << 8u32) | ((x as u8) as u32) == x) by (bit_vector);
}

proof fn lemma_be_u32_bytes(b0: u8, b1: u8, b2: u8, b3: u8)
    ensures
        be_u32_bytes(be_u32_value(b0, b1, b2, b3)) == seq![b0, b1, b2, b3],
{
    let x = be_u32_value(b0, b1, b2, b3);
    assert((((((b0 as u32) << 24u32) | ((b1 as u32) << 16u32) | ((b2 as u32) << 8u32) | (b3 as u32))
        >> 24u32) as u8) == b0) by (bit_vector);
    assert((((((b0 as u32) << 24u32) | ((b1 as u32) << 16u32) | ((b2 as u32) << 8u32) | (b3 as u32))
        >> 16u32) as u8) == b1) by (bit_vector);
    assert((((((b0 as u32) << 24u32) | ((b1 as u32) << 16u32) | ((b2 as u32) << 8u32) | (b3 as u32))
        >> 8u32) as u8) == b2) by (bit_vector);
    assert(((((b0 as u32) << 24u32) | ((b1 as u32) << 16u32) | ((b2 as u32) << 8u32) | (b3 as u32))
        as u8) == b3) by (bit_vector);
    assert(be_u32_bytes(x) =~= seq![b0, b1, b2, b3]);
}

proof fn lemma_be_u64(x: u64)
    ensures
        be_u64_value(be_u64_bytes(x)) == x,
{
    let b = be_u64_bytes(x);
    assert(((((x >> 56u64) as u8) as u64) << 56u64) | ((((x >> 48u64) as u8) as u64) << 48u64)
        | ((((x >> 40u64) as u8) as u64) << 40u64) | ((((x >> 32u64) as u8) as u64) << 32u64)
        | ((((x >> 24u64) as u8) as u64) << 24u64) | ((((x >> 16u64) as u8) as u64) << 16u64)
        | ((((x >> 8u64) as u8) as u64) << 8u64) | ((x as u8) as u64) == x) by (bit_vector);
}

proof fn lemma_be_u64_bytes(b: Seq<u8>)
    requires
        b.len() == 8,
    ensures
        be_u64_bytes(be_u64_value(b)) == b,
{
    let b0 = b[0];
    let b1 = b[1];
    let b2 = b[2];
    let b3 = b[3];
    let b4 = b[4];
    let b5 = b[5];
    let b6 = b[6];
    let b7 = b[7];
    let x = be_u64_value(b);
    assert(x == ((b0 as u64) << 56u64) | ((b1 as u64) << 48u64) | ((b2 as u64) << 40u64)
        | ((b3 as u64) << 32u64) | ((b4 as u64) << 24u64) | ((b5 as u64) << 16u64)
        | ((b6 as u64) << 8u64) | (b7 as u64));
    assert(((x >> 56u64) as u8) == b0 && ((x >> 48u64) as u8) == b1 && ((x >> 40u64) as u8) == b2
        && ((x >> 32u64) as u8) == b3 && ((x >> 24u64) as u8) == b4 && ((x >> 16u64) as u8) == b5
        && ((x >> 8u64) as u8) == b6 && (x as u8) == b7) by (bit_vector)
        requires
            x == ((b0 as u64) << 56u64) | ((b1 as u64) << 48u64) | ((b2 as u64) << 40u64)
                | ((b3 as u64) << 32u64) | ((b4 as u64) << 24u64) | ((b5 as u64) << 16u64)
                | ((b6 as u64) << 8u64) | (b7 as u64),
    ;
    assert(be_u64_bytes(x) =~= b);
}

pub open spec fn encode_result_view(r: Result<Vec<u8>, FrameError>) -> Result<Seq<u8>, Seq<char>> {
    match r {
        Ok(v) => Ok(v@),
        Err(e) => Err(e.0@),
    }
}

pub open spec fn decode_result_view(r: Result<Frame, FrameError>) -> Result<FrameModel, Seq<char>> {
    match r {
        Ok(f) => Ok(f@),
        Err(e) => Err(e.0@),
    }
}

/// The largest payload a frame of `kind` may carry.
pub fn payload_limit(kind: u8) -> (r: usize)
    ensures
        r == spec_payload_limit(kind),
{
    if kind == KIND_FILE_CHUNK {
        FILE_PAYLOAD_MAX
    } else {
        TERMINAL_PAYLOAD_MAX
    }
}

fn push_be_u32(out: &mut Vec<u8>, x: u32)
    ensures
        final(out)@ == old(out)@ + be_u32_bytes(x),
{
    out.push((x >> 24u32) as u8);
    out.push((x >> 16u32) as u8);
    out.push((x >> 8u32) as u8);
    out.push(x as u8);
    assert(final(out)@ =~= old(out)@ + be_u32_bytes(x));
}

fn push_be_u64(out: &mut Vec<u8>, x: u64)
    ensures
        final(out)@ == old(out)@ + be_u64_bytes(x),
{
    out.push((x >> 56u64) as u8);
    out.push((x >> 48u64) as u8);
    out.push((x >> 40u64) as u8);
    out.push((x >> 32u64) as u8);
    out.push((x >> 24u64) as u8);
    out.push((x >> 16u64) as u8);
    out.push((x >> 8u64) as u8);
    out.push(x as u8);
    assert(final(out)@ =~= old(out)@ + be_u64_bytes(x));
}

fn push_slice(out: &mut Vec<u8>, src: &[u8])
    ensures
        final(out)@ == old(out)@ + src@,
{
    let ghost start = out@;
    let mut i: usize = 0;
    while i < src.len()
        invariant
            i <= src.len(),
            out@ == start + src@.take(i as int),
        decreases src.len() - i,
    {
        out.push(src[i]);
        i = i + 1;
        assert(out@ =~= start + src@.take(i as int));
    }
    assert(src@.take(i as int) =~= src@);
}

/// `prefix` + decimal(`n`) + `suffix`.
fn message_with_number(prefix: &str, n: u64, suffix: &str) -> (r: String)
    ensures
        r@ == prefix@ + decimal(n as nat) + suffix@,
{
    let number = decimal_string(n);
    let head = concat(prefix, number.as_str());
    let r = concat(head.as_str(), suffix);
    assert(r@ =~= prefix@ + decimal(n as nat) + suffix@);
    r
}

fn unknown_kind_message(kind: u8) -> (r: String)
    ensures
        r@ == "unknown kind 0x"@ + hexadecimal(kind as nat),
{
    let hex = hex_string(kind as u64);
    concat("unknown kind 0x", hex.as_str())
}

fn payload_too_large_message(len: u64, kind: u8) -> (r: String)
    ensures
        r@ == "payload "@ + decimal(len as nat) + " exceeds the limit for kind 0x"@
            + hexadecimal(kind as nat),
{
    let head = message_with_number("payload ", len, " exceeds the limit for kind 0x");
    let hex = hex_string(kind as u64);
    concat(head.as_str(), hex.as_str())
}

/// Writes `frame` as bytes. Fails on an unknown kind and on a payload over
/// the kind's limit; a terminal frame's file index is written as the
/// all-ones marker whatever the field holds.
pub fn encode(frame: &Frame) -> (r: Result<Vec<u8>, FrameError>)
    ensures
        encode_result_view(r) == encode_outcome(frame@),
{
    let kind = frame.kind;
    if !(kind == KIND_TERMINAL_INPUT || kind == KIND_TERMINAL_OUTPUT || kind == KIND_FILE_CHUNK) {
        return Err(FrameError(unknown_kind_message(kind)));
    }
    let len = frame.payload.len();
    if len > payload_limit(kind) {
        return Err(FrameError(payload_too_large_message(len as u64, kind)));
    }
    let file_index = if kind == KIND_FILE_CHUNK { frame.file_index } else { TERMINAL_FILE_INDEX };

    let mut out: Vec<u8> = Vec::with_capacity(HEADER_BYTES + len);
    out.push(MAGIC_0);
    out.push(MAGIC_1);
    out.push(VERSION);
    out.push(kind);
    out.push(0u8);
    out.push(0u8);
    push_be_u32(&mut out, len as u32);
    let ghost before_id = out@;
    let mut i: usize = 0;
    while i < 16
        invariant
            i <= 16,
            out@ == before_id + frame.stream_id@.take(i as int),
        decreases 16 - i,
    {
        out.push(frame.stream_id[i]);
        i = i + 1;
        assert(out@ =~= before_id + frame.stream_id@.take(i as int));
    }
    assert(frame.stream_id@.take(16) =~= frame.stream_id@);
    push_be_u32(&mut out, file_index);
    push_be_u64(&mut out, frame.offset);
    push_slice(&mut out, frame.payload.as_slice());
    assert(out@ =~= frame_bytes(frame@));
    Ok(out)
}

/// Reads one frame from `buf`, which must hold exactly one frame.
pub fn decode(buf: &[u8]) -> (r: Result<Frame, FrameError>)
    ensures
        decode_result_view(r) == decode_outcome(buf@),
{
    let len = buf.len();
    if len > MESSAGE_MAX {
        return Err(FrameError(message_with_number("message ", len as u64, " exceeds 262182")));
    }
    if len < HEADER_BYTES {
        return Err(FrameError(message_with_number("truncated header: ", len as u64, " < 38")));
    }
    if buf[0] != MAGIC_0 || buf[1] != MAGIC_1 {
        return Err(FrameError("bad magic".to_owned()));
    }
    if buf[2] != VERSION {
        let number = decimal_string(buf[2] as u64);
        return Err(FrameError(concat("unsupported frame version ", number.as_str())));
    }
    let kind = buf[3];
    if !(kind == KIND_TERMINAL_INPUT || kind == KIND_TERMINAL_OUTPUT || kind == KIND_FILE_CHUNK) {
        return Err(FrameError(unknown_kind_message(kind)));
    }
    if buf[4] != 0 {
        return Err(FrameError("flags must be 0 in MVP".to_owned()));
    }
    if buf[5] != 0 {
        return Err(FrameError("reserved byte must be 0".to_owned()));
    }
    let payload_length: u32 = ((buf[6] as u32) << 24u32) | ((buf[7] as u32) << 16u32)
        | ((buf[8] as u32) << 8u32) | (buf[9] as u32);
    let actual = len - HEADER_BYTES;
    if payload_length as usize != actual {
        let head = message_with_number("payloadLength ", payload_length as u64, " does not match the ");
        let msg = message_with_number(head.as_str(), actual as u64, " bytes present");
        return Err(FrameError(msg));
    }
    if payload_length as usize > payload_limit(kind) {
        return Err(FrameError(payload_too_large_message(payload_length as u64, kind)));
    }

    let mut stream_id = [0u8; 16];
    let mut i: usize = 0;
    while i < 16
        invariant
            i <= 16,
            len == buf@.len(),
            len >= HEADER_BYTES,
            forall|j: int| 0 <= j < i ==> stream_id@[j] == buf@[10 + j],
        decreases 16 - i,
    {
        stream_id[i] = buf[10 + i];
        i = i + 1;
    }
    assert(stream_id@ =~= buf@.subrange(10, 26));

    let file_index: u32 = ((buf[26] as u32) << 24u32) | ((buf[27] as u32) << 16u32)
        | ((buf[28] as u32) << 8u32) | (buf[29] as u32);
    if kind == KIND_FILE_CHUNK {
        if file_index > 255 {
            return Err(FrameError(message_with_number("fileIndex ", file_index as u64,
                " exceeds the 256-file batch limit")));
        }
    } else if file_index != TERMINAL_FILE_INDEX {
        return Err(FrameError("terminal frames must set fileIndex to 0xFFFFFFFF".to_owned()));
    }

    let offset: u64 = ((buf[30] as u64) << 56u64) | ((buf[31] as u64) << 48u64)
        | ((buf[32] as u64) << 40u64) | ((buf[33] as u64) << 32u64)
        | ((buf[34] as u64) << 24u64) | ((buf[35] as u64) << 16u64)
        | ((buf[36] as u64) << 8u64) | (buf[37] as u64);

    let mut payload: Vec<u8> = Vec::with_capacity(actual);
    let mut k: usize = HEADER_BYTES;
    while k < len
        invariant
            HEADER_BYTES <= k <= len,
            len == buf@.len(),
            payload@ == buf@.subrange(HEADER_BYTES as int, k as int),
        decreases len - k,
    {
        payload.push(buf[k]);
        k = k + 1;
        assert(payload@ =~= buf@.subrange(HEADER_BYTES as int, k as int));
    }
    let ghost sub = buf@.subrange(30, 38);
    assert(offset == be_u64_value(sub));
    Ok(Frame { kind, stream_id, file_index, offset, payload })
}

impl Frame {
    pub fn is_file(&self) -> (r: bool)
        ensures
            r == (self.kind == KIND_FILE_CHUNK),
    {
        self.kind == KIND_FILE_CHUNK
    }
}

/// The frame a well-formed frame's bytes decode to: the same frame, with a
/// terminal frame's file index read back as the all-ones marker.
pub open spec fn wire_normal_form(f: FrameModel) -> FrameModel {
    FrameModel {
        kind: f.kind,
        stream_id: f.stream_id,
        file_index: wire_file_index(f),
        offset: f.offset,
        payload: f.payload,
    }
}

/// Encoding succeeds on every frame with a known kind, a 16-byte stream id,
/// a payload within the kind's limit and (for file chunks) a file index
/// below 256, and decoding those bytes gives the frame back in its wire
/// normal form.
pub proof fn lemma_decode_of_encode(f: FrameModel)
    requires
        f.stream_id.len() == 16,
        is_known_kind(f.kind),
        f.payload.len() <= spec_payload_limit(f.kind),
        f.kind == KIND_FILE_CHUNK ==> f.file_index <= 255,
    ensures
        encode_outcome(f) == Ok::<Seq<u8>, Seq<char>>(frame_bytes(f)),
        decode_outcome(frame_bytes(f)) == Ok::<FrameModel, Seq<char>>(wire_normal_form(f)),
{
    let b = frame_bytes(f);
    let plen = f.payload.len() as u32;
    let fi = wire_file_index(f);
    lemma_be_u32(plen);
    lemma_be_u32(fi);
    lemma_be_u64(f.offset);
    assert(b.len() == 38 + f.payload.len());
    assert(b[0] == MAGIC_0 && b[1] == MAGIC_1 && b[2] == VERSION && b[3] == f.kind);
    assert(b[4] == 0 && b[5] == 0);
    assert(b[6] == be_u32_bytes(plen)[0] && b[7] == be_u32_bytes(plen)[1]
        && b[8] == be_u32_bytes(plen)[2] && b[9] == be_u32_bytes(plen)[3]);
    assert(be_u32_at(b, 6) == plen);
    assert(b[26] == be_u32_bytes(fi)[0] && b[27] == be_u32_bytes(fi)[1]
        && b[28] == be_u32_bytes(fi)[2] && b[29] == be_u32_bytes(fi)[3]);
    assert(be_u32_at(b, 26) == fi);
    assert(b.subrange(10, 26) =~= f.stream_id);
    assert(b.subrange(30, 38) =~= be_u64_bytes(f.offset));
    assert(b.subrange(38, b.len() as int) =~= f.payload);
}

/// Re-encoding a decoded frame reproduces the decoded bytes exactly.
pub proof fn lemma_encode_of_decode(b: Seq<u8>)
    requires
        decode_outcome(b) is Ok,
    ensures
        encode_outcome(decode_outcome(b)->Ok_0) == Ok::<Seq<u8>, Seq<char>>(b),
{
    let f = decode_outcome(b)->Ok_0;
    lemma_be_u32_bytes(b[6], b[7], b[8], b[9]);
    lemma_be_u32_bytes(b[26], b[27], b[28], b[29]);
    lemma_be_u64_bytes(b.subrange(30, 38));
    assert(f.payload.len() == b.len() - 38);
    assert(f.payload.len() as u32 == be_u32_at(b, 6));
    assert(wire_file_index(f) == be_u32_at(b, 26));
    assert(be_u32_bytes(be_u32_at(b, 6)) =~= b.subrange(6, 10));
    assert(be_u32_bytes(be_u32_at(b, 26)) =~= b.subrange(26, 30));
    assert(header_bytes(f) =~= b.subrange(0, 38));
    assert(frame_bytes(f) =~= b);
}

/// Two lowercase hex digits for `b`, as `{:02x}` writes it.
pub open spec fn hex_pair(b: u8) -> Seq<char> {
    seq![hex_char((b / 16) as nat), hex_char((b % 16) as nat)]
}

/// The hex digits of each byte of `s`, in order.
pub open spec fn hex_bytes(s: Seq<u8>) -> Seq<char>
    decreases s.len(),
{
    if s.len() == 0 {
        Seq::empty()
    } else {
        hex_bytes(s.drop_last()) + hex_pair(s.last())
    }
}

/// The canonical 8-4-4-4-12 UUID spelling of a 16-byte id.
pub open spec fn uuid_spelling(id: Seq<u8>) -> Seq<char> {
    hex_bytes(id.subrange(0, 4)) + seq!['-'] + hex_bytes(id.subrange(4, 6)) + seq!['-']
        + hex_bytes(id.subrange(6, 8)) + seq!['-'] + hex_bytes(id.subrange(8, 10)) + seq!['-']
        + hex_bytes(id.subrange(10, 16))
}

/// The lowercase hex digit for a nibble.
pub fn nibble_char(n: u8) -> (c: char)
    requires
        n < 16,
    ensures
        c == hex_char(n as nat),
{
    if n == 0 { '0' }
    else if n == 1 { '1' }
    else if n == 2 { '2' }
    else if n == 3 { '3' }
    else if n == 4 { '4' }
    else if n == 5 { '5' }
    else if n == 6 { '6' }
    else if n == 7 { '7' }
    else if n == 8 { '8' }
    else if n == 9 { '9' }
    else if n == 10 { 'a' }
    else if n == 11 { 'b' }
    else if n == 12 { 'c' }
    else if n == 13 { 'd' }
    else if n == 14 { 'e' }
    else { 'f' }
}

/// Appends the hex digits of `bytes[from..to]` to `out`.
fn push_hex(out: &mut Vec<char>, bytes: &[u8], from: usize, to: usize)
    requires
        from <= to <= bytes@.len(),
    ensures
        final(out)@ == old(out)@ + hex_bytes(bytes@.subrange(from as int, to as int)),
{
    let ghost start = out@;
    let mut i = from;
    assert(bytes@.subrange(from as int, from as int) =~= Seq::<u8>::empty());
    assert(start + hex_bytes(Seq::<u8>::empty()) =~= start);
    while i < to
        invariant
            from <= i <= to,
            to <= bytes@.len(),
            out@ == start + hex_bytes(bytes@.subrange(from as int, i as int)),
        decreases to - i,
    {
        let b = bytes[i];
        out.push(nibble_char(b / 16));
        out.push(nibble_char(b % 16));
        let ghost prev = bytes@.subrange(from as int, i as int);
        i = i + 1;
        let ghost next = bytes@.subrange(from as int, i as int);
        assert(next.drop_last() =~= prev);
        assert(next.last() == b);
        assert(out@ =~= start + hex_bytes(next));
    }
}

impl Frame {
    /// The stream id in the canonical UUID spelling.
    pub fn stream_uuid(&self) -> (r: String)
        ensures
            r@ == uuid_spelling(self.stream_id@),
    {
        let mut bytes: Vec<u8> = Vec::new();
        let mut i: usize = 0;
        while i < 16
            invariant
                i <= 16,
                bytes@ == self.stream_id@.take(i as int),
            decreases 16 - i,
        {
            bytes.push(self.stream_id[i]);
            i = i + 1;
            assert(bytes@ =~= self.stream_id@.take(i as int));
        }
        assert(bytes@ =~= self.stream_id@);
        let mut out: Vec<char> = Vec::new();
        push_hex(&mut out, bytes.as_slice(), 0, 4);
        out.push('-');
        push_hex(&mut out, bytes.as_slice(), 4, 6);
        out.push('-');
        push_hex(&mut out, bytes.as_slice(), 6, 8);
        out.push('-');
        push_hex(&mut out, bytes.as_slice(), 8, 10);
        out.push('-');
        push_hex(&mut out, bytes.as_slice(), 10, 16);
        assert(out@ =~= uuid_spelling(self.stream_id@));
        string_from_chars(out.as_slice())
    }
}

/// A counting domain: stream id, file index and kind.
pub type DomainId = (Seq<u8>, u32, u8);

/// The counting domain of a frame: `(transferId, fileIndex)` for file
/// chunks, `(sessionId, kind)` for terminal frames.
pub open spec fn domain_of(f: FrameModel) -> DomainId {
    if f.kind == KIND_FILE_CHUNK {
        (f.stream_id, f.file_index, KIND_FILE_CHUNK)
    } else {
        (f.stream_id, 0u32, f.kind)
    }
}

/// Per-domain offset continuity.
///
/// File frames key on `(transferId, fileIndex)` and a gap is fatal; terminal
/// frames key on `(sessionId, kind)` and a gap is only reported.
pub struct OffsetTracker {
    domains: Vec<([u8; 16], u32, u8, u64)>,
}

pub struct OffsetCheck {
    pub ok: bool,
    pub fatal: bool,
    pub expected: u64,
    pub got: u64,
}

pub open spec fn entry_domain(e: ([u8; 16], u32, u8, u64)) -> DomainId {
    (e.0@, e.1, e.2)
}

/// The next expected offset of `d` in a list of domain counters: the value
/// of the last entry for `d`, 0 when there is none.
pub open spec fn lookup(s: Seq<([u8; 16], u32, u8, u64)>, d: DomainId) -> u64
    decreases s.len(),
{
    if s.len() == 0 {
        0
    } else if entry_domain(s.last()) == d {
        s.last().3
    } else {
        lookup(s.drop_last(), d)
    }
}

proof fn lemma_lookup_push(s: Seq<([u8; 16], u32, u8, u64)>, e: ([u8; 16], u32, u8, u64), d: DomainId)
    ensures
        lookup(s.push(e), d) == if entry_domain(e) == d { e.3 } else { lookup(s, d) },
{
    assert(s.push(e).drop_last() =~= s);
}

/// Setting entry `i`, when no later entry has the same domain, changes that
/// domain's value and no other.
proof fn lemma_lookup_update(s: Seq<([u8; 16], u32, u8, u64)>, i: int, e: ([u8; 16], u32, u8, u64), d: DomainId)
    requires
        0 <= i < s.len(),
        entry_domain(e) == entry_domain(s[i]),
        forall|j: int| i < j < s.len() ==> entry_domain(#[trigger] s[j]) != entry_domain(s[i]),
    ensures
        lookup(s.update(i, e), d) == if entry_domain(e) == d { e.3 } else { lookup(s, d) },
    decreases s.len(),
{
    let t = s.update(i, e);
    if i == s.len() - 1 {
        assert(t.drop_last() =~= s.drop_last());
    } else {
        assert(t.drop_last() =~= s.drop_last().update(i, e));
        lemma_lookup_update(s.drop_last(), i, e, d);
    }
}

/// Entries for domains of stream `id` removed, the others kept in order.
pub open spec fn without_stream(s: Seq<([u8; 16], u32, u8, u64)>, id: Seq<u8>) -> Seq<([u8; 16], u32, u8, u64)>
    decreases s.len(),
{
    if s.len() == 0 {
        s
    } else if s.last().0@ == id {
        without_stream(s.drop_last(), id)
    } else {
        without_stream(s.drop_last(), id).push(s.last())
    }
}

proof fn lemma_lookup_without_stream(s: Seq<([u8; 16], u32, u8, u64)>, id: Seq<u8>, d: DomainId)
    ensures
        lookup(without_stream(s, id), d) == if d.0 == id { 0 } else { lookup(s, d) },
    decreases s.len(),
{
    if s.len() > 0 {
        lemma_lookup_without_stream(s.drop_last(), id, d);
        if s.last().0@ != id {
            lemma_lookup_push(without_stream(s.drop_last(), id), s.last(), d);
        }
    }
}

proof fn lemma_lookup_last_match(s: Seq<([u8; 16], u32, u8, u64)>, at: int, d: DomainId)
    requires
        0 <= at < s.len(),
        entry_domain(s[at]) == d,
        forall|j: int| at < j < s.len() ==> entry_domain(#[trigger] s[j]) != d,
    ensures
        lookup(s, d) == s[at].3,
    decreases s.len(),
{
    if at < s.len() - 1 {
        lemma_lookup_last_match(s.drop_last(), at, d);
    }
}

proof fn lemma_lookup_absent(s: Seq<([u8; 16], u32, u8, u64)>, d: DomainId)
    requires
        forall|j: int| 0 <= j < s.len() ==> entry_domain(#[trigger] s[j]) != d,
    ensures
        lookup(s, d) == 0,
    decreases s.len(),
{
    if s.len() > 0 {
        lemma_lookup_absent(s.drop_last(), d);
    }
}

fn same_id(a: &[u8; 16], b: &[u8; 16]) -> (r: bool)
    ensures
        r == (a@ == b@),
{
    let mut i: usize = 0;
    while i < 16
        invariant
            i <= 16,
            forall|j: int| 0 <= j < i ==> a@[j] == b@[j],
        decreases 16 - i,
    {
        if a[i] != b[i] {
            return false;
        }
        i = i + 1;
    }
    assert(a@ =~= b@);
    true
}

impl OffsetTracker {
    /// The offset the next frame of domain `d` must carry.
    pub closed spec fn expected(&self, d: DomainId) -> u64 {
        lookup(self.domains@, d)
    }

    pub fn new() -> (r: Self)
        ensures
            forall|d: DomainId| r.expected(d) == 0,
    {
        OffsetTracker { domains: Vec::new() }
    }

    /// Checks `frame` against its domain. A frame carrying the expected
    /// offset is accepted and advances its domain by its payload length; any
    /// other leaves every domain as it was. A gap is fatal for file chunks only.
    pub fn accept(&mut self, frame: &Frame) -> (r: OffsetCheck)
        requires
            old(self).expected(domain_of(frame@)) == frame.offset ==>
                frame.offset + frame.payload@.len() <= u64::MAX,
        ensures
            r.expected == old(self).expected(domain_of(frame@)),
            r.got == frame.offset,
            r.ok == (r.expected == frame.offset),
            r.fatal == (!r.ok && frame.kind == KIND_FILE_CHUNK),
            forall|d: DomainId|
                #[trigger] final(self).expected(d) == if r.ok && d == domain_of(frame@) {
                    (frame.offset + frame.payload@.len()) as u64
                } else {
                    old(self).expected(d)
                },
    {
        let is_file = frame.is_file();
        let index: u32 = if is_file { frame.file_index } else { 0 };
        let kind: u8 = if is_file { KIND_FILE_CHUNK } else { frame.kind };
        let ghost d = domain_of(frame@);
        let ghost start = self.domains@;

        // Find the last entry of this domain.
        let mut found: Option<usize> = None;
        let mut i: usize = self.domains.len();
        while i > 0
            invariant_except_break
                i <= start.len(),
                found.is_none(),
                forall|j: int| i <= j < start.len() ==> entry_domain(#[trigger] start[j]) != d,
            invariant
                self.domains@ == start,
                d == (frame.stream_id@, index, kind),
            ensures
                match found {
                    Some(at) => at < start.len() && entry_domain(start[at as int]) == d
                        && forall|j: int| at < j < start.len() ==> entry_domain(#[trigger] start[j]) != d,
                    None => forall|j: int| 0 <= j < start.len() ==> entry_domain(#[trigger] start[j]) != d,
                },
            decreases i,
        {
            let e = &self.domains[i - 1];
            if e.1 == index && e.2 == kind && same_id(&e.0, &frame.stream_id) {
                found = Some(i - 1);
                break;
            }
            i = i - 1;
        }
        let expected: u64 = match found {
            Some(at) => self.domains[at].3,
            None => 0,
        };
        proof {
            match found {
                Some(at) => lemma_lookup_last_match(start, at as int, d),
                None => lemma_lookup_absent(start, d),
            }
        }
        let ok = expected == frame.offset;
        if ok {
            let next = expected + frame.payload.len() as u64;
            match found {
                Some(at) => {
                    let id = self.domains[at].0;
                    self.domains.set(at, (id, index, kind, next));
                    proof {
                        assert forall|dd: DomainId| #[trigger] self.expected(dd) == if dd == d { next } else { lookup(start, dd) } by {
                            lemma_lookup_update(start, at as int, (id, index, kind, next), dd);
                        }
                    }
                }
                None => {
                    self.domains.push((frame.stream_id, index, kind, next));
                    proof {
                        assert forall|dd: DomainId| #[trigger] self.expected(dd) == if dd == d { next } else { lookup(start, dd) } by {
                            lemma_lookup_push(start, (frame.stream_id, index, kind, next), dd);
                        }
                    }
                }
            }
        }
        OffsetCheck { ok, fatal: !ok && is_file, expected, got: frame.offset }
    }

    /// Forgets every domain of `stream_id`: their expected offsets return to 0.
    pub fn forget_stream(&mut self, stream_id: &[u8; 16])
        ensures
            forall|d: DomainId| #[trigger] final(self).expected(d)
                == if d.0 == stream_id@ { 0 } else { old(self).expected(d) },
    {
        let ghost start = self.domains@;
        let mut kept: Vec<([u8; 16], u32, u8, u64)> = Vec::new();
        let mut i: usize = 0;
        while i < self.domains.len()
            invariant
                i <= self.domains@.len(),
                self.domains@ == start,
                kept@ == without_stream(start.take(i as int), stream_id@),
            decreases self.domains@.len() - i,
        {
            let e = self.domains[i];
            assert(start.take(i + 1).drop_last() =~= start.take(i as int));
            if !same_id(&e.0, stream_id) {
                kept.push(e);
            }
            i = i + 1;
        }
        assert(start.take(i as int) =~= start);
        self.domains = kept;
        proof {
            assert forall|d: DomainId| #[trigger] self.expected(d)
                == if d.0 == stream_id@ { 0 } else { lookup(start, d) } by {
                lemma_lookup_without_stream(start, stream_id@, d);
            }
        }
    }
}

} // verus!
