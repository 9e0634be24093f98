//! The terminal stream codec.
//!
//! A terminal stream carries one `Open` frame from the control end, then
//! `Opened` or `Error` from the agent, then any sequence of `Data`,
//! `Resize`, `ShellEvent` and `Close` frames until the stream closes.
//!
//! Wire format: `kind (1 byte) + length (LEB128 varint) + payload`. `Data`
//! carries raw terminal bytes; every other kind carries a JSON object, which
//! the applications read and write. The codec is transport-agnostic: the
//! decoder takes bytes in whatever chunks they arrive and pops complete
//! frames off the front.

use vstd::prelude::*;
use crate::agent::{AgentError, AgentFault};
use crate::text::{concat, decimal, decimal_string, hex_char, hex_digit, string_from_chars};

verus! {

pub const KIND_OPEN: u8 = 0x00;
pub const KIND_DATA: u8 = 0x01;
pub const KIND_RESIZE: u8 = 0x02;
pub const KIND_SHELL_EVENT: u8 = 0x03;
pub const KIND_CLOSE: u8 = 0x04;
pub const KIND_OPENED: u8 = 0x05;
pub const KIND_ERROR: u8 = 0x06;

/// The longest payload a peer may announce: a hostile length prefix must not
/// make the agent buffer without bound. One MiB covers a full screen of
/// output in one frame.
pub const MAX_FRAME_LEN: u64 = 1048576;

/// The payload of an `Open` frame: the terminal size to start with.
#[derive(Debug, Clone, PartialEq, Eq)]
pub struct OpenPayload {
    pub cols: u16,
    pub rows: u16,
}

/// The payload of an `Opened` frame: the session's id and its shell.
#[derive(Debug, Clone, PartialEq, Eq)]
pub struct OpenedPayload {
    pub session_id: [u8; 16],
    pub shell: String,
}

/// The payload of an `Error` frame.
#[derive(Debug, Clone, PartialEq, Eq)]
pub struct ErrorPayload {
    pub message: String,
}

/// The payload of a `Resize` frame.
#[derive(Debug, Clone, PartialEq, Eq)]
pub struct ResizePayload {
    pub cols: u16,
    pub rows: u16,
}

/// The payload of a `ShellEvent` frame. `source` names the escape family
/// that emitted the event (`osc133` or `osc633`).
#[derive(Debug, Clone, PartialEq, Eq)]
pub struct ShellEventPayload {
    pub event: String,
    pub source: Option<String>,
    pub cwd: Option<String>,
    pub exit_code: Option<i32>,
}

/// The payload of a `Close` frame; `exit_code` is the shell's status when
/// `reason` is `shell_exited`.
#[derive(Debug, Clone, PartialEq, Eq)]
pub struct ClosePayload {
    pub reason: Option<String>,
    pub exit_code: Option<i32>,
}

/// A frame of the terminal stream with its payload bytes.
#[derive(Debug, Clone, PartialEq, Eq)]
pub enum Frame {
    Open(Vec<u8>),
    Opened(Vec<u8>),
    Error(Vec<u8>),
    /// Raw terminal bytes, either direction.
    Data(Vec<u8>),
    Resize(Vec<u8>),
    ShellEvent(Vec<u8>),
    Close(Vec<u8>),
}

impl View for Frame {
    /// The kind byte and the payload.
    type V = (u8, Seq<u8>);

    open spec fn view(&self) -> (u8, Seq<u8>) {
        match self {
            Frame::Open(p) => (KIND_OPEN, p@),
            Frame::Opened(p) => (KIND_OPENED, p@),
            Frame::Error(p) => (KIND_ERROR, p@),
            Frame::Data(p) => (KIND_DATA, p@),
            Frame::Resize(p) => (KIND_RESIZE, p@),
            Frame::ShellEvent(p) => (KIND_SHELL_EVENT, p@),
            Frame::Close(p) => (KIND_CLOSE, p@),
        }
    }
}

/// `n` as an LEB128 varint: seven bits per byte, low bits first, the top bit
/// set on every byte but the last.
pub open spec fn varint(n: nat) -> Seq<u8>
    decreases n,
{
    if n < 128 {
        seq![n as u8]
    } else {
        seq![(n % 128 + 128) as u8] + varint(n / 128)
    }
}

/// The number the varint bytes `b` spell, the first byte lowest.
pub open spec fn varint_value(b: Seq<u8>) -> nat
    decreases b.len(),
{
    if b.len() == 0 {
        0
    } else {
        (b[0] % 128) as nat + 128 * varint_value(b.subrange(1, b.len() as int))
    }
}

/// How far a varint at the start of `b` reaches, scanning from `i`.
pub ghost enum VarintScan {
    /// More bytes are needed.
    Incomplete,
    /// Ten continuation bytes: no length the limit admits is that long.
    TooLong,
    /// The varint is the first `n` bytes.
    Complete(nat),
}

pub open spec fn varint_scan(b: Seq<u8>, i: int) -> VarintScan
    decreases b.len() - i,
{
    if i >= 10 {
        VarintScan::TooLong
    } else if i >= b.len() {
        VarintScan::Incomplete
    } else if b[i] < 128 {
        VarintScan::Complete((i + 1) as nat)
    } else {
        varint_scan(b, i + 1)
    }
}

/// The bytes `f` is written as.
pub open spec fn frame_wire(f: (u8, Seq<u8>)) -> Seq<u8> {
    seq![f.0] + varint(f.1.len()) + f.1
}

/// Two lowercase hexadecimal digits for `b`.
pub open spec fn hex2(b: u8) -> Seq<char> {
    seq![hex_char((b / 16) as nat), hex_char((b % 16) as nat)]
}

pub open spec fn too_long_prefix_message() -> Seq<char> {
    "termy/terminal/1 frame length prefix is too long"@
}

pub open spec fn oversized_message(len: nat) -> Seq<char> {
    "termy/terminal/1 frame of "@ + decimal(len) + " bytes exceeds the 1048576-byte limit"@
}

pub open spec fn unknown_kind_message(kind: u8) -> Seq<char> {
    "unknown termy/terminal/1 frame kind 0x"@ + hex2(kind)
}

/// What taking one frame off the buffer `buf` gives, and the buffer after:
/// nothing while the frame is incomplete, the frame once it is whole, or
/// the protocol error the bytes make. A complete frame leaves the buffer
/// even when its kind is unknown.
pub open spec fn next_frame_outcome(buf: Seq<u8>) -> (
    Result<Option<(u8, Seq<u8>)>, AgentFault>,
    Seq<u8>,
) {
    if buf.len() == 0 {
        (Ok(None), buf)
    } else {
        let rest = buf.subrange(1, buf.len() as int);
        match varint_scan(rest, 0) {
            VarintScan::Incomplete => (Ok(None), buf),
            VarintScan::TooLong => (Err(AgentFault::Protocol(too_long_prefix_message())), buf),
            VarintScan::Complete(n) => {
                let len = varint_value(rest.subrange(0, n as int)) % 0x1_0000_0000_0000_0000;
                if len > MAX_FRAME_LEN {
                    (Err(AgentFault::Protocol(oversized_message(len))), buf)
                } else if buf.len() < 1 + n + len {
                    (Ok(None), buf)
                } else {
                    let payload = buf.subrange(1 + n as int, 1 + n + len as int);
                    let remaining = buf.subrange(1 + n + len as int, buf.len() as int);
                    if buf[0] <= KIND_ERROR {
                        (Ok(Some((buf[0], payload))), remaining)
                    } else {
                        (Err(AgentFault::Protocol(unknown_kind_message(buf[0]))), remaining)
                    }
                }
            },
        }
    }
}

pub open spec fn pow128(n: nat) -> nat
    decreases n,
{
    if n == 0 {
        1
    } else {
        128 * pow128((n - 1) as nat)
    }
}

proof fn lemma_pow128_ten()
    ensures
        pow128(10) == 0x400000000000000000,
{
    reveal_with_fuel(pow128, 11);
}

proof fn lemma_varint_value_bound(b: Seq<u8>)
    ensures
        varint_value(b) < pow128(b.len()),
    decreases b.len(),
{
    if b.len() > 0 {
        lemma_varint_value_bound(b.subrange(1, b.len() as int));
    }
}

proof fn lemma_pow128_monotone(a: nat, b: nat)
    requires
        a <= b,
    ensures
        pow128(a) <= pow128(b),
    decreases b,
{
    if a < b {
        lemma_pow128_monotone(a, (b - 1) as nat);
    }
}

/// The varint of `n` is shaped as the scan expects: continuation bytes, then
/// one final byte, no longer than `k` bytes when `n < 128^k`.
proof fn lemma_varint_shape(n: nat)
    ensures
        varint(n).len() >= 1,
        forall|i: int| 0 <= i < varint(n).len() - 1 ==> varint(n)[i] >= 128,
        varint(n)[varint(n).len() - 1] < 128,
        varint_value(varint(n)) == n,
        forall|k: nat| k >= 1 && n < pow128(k) ==> varint(n).len() <= k,
    decreases n,
{
    if n >= 128 {
        let t = varint(n / 128);
        lemma_varint_shape(n / 128);
        let s = varint(n);
        let b = (n % 128 + 128) as u8;
        assert(b == n % 128 + 128);
        assert(s == seq![b] + t);
        assert(s.subrange(1, s.len() as int) =~= t);
        assert(varint_value(s) == (b % 128) as nat + 128 * varint_value(t));
        assert(b % 128 == n % 128);
        assert(varint_value(s) == n);
        assert forall|k: nat| k >= 1 && n < pow128(k) implies s.len() <= k by {
            assert(n / 128 < pow128((k - 1) as nat));
            if k == 1 {
                assert(pow128(0) == 1);
            }
        }
    } else {
        assert((n as u8) == n);
        let s = varint(n);
        assert(s.subrange(1, 1) =~= Seq::<u8>::empty());
        assert(varint_value(Seq::<u8>::empty()) == 0);
        assert(varint_value(s) == ((n as u8) % 128) as nat + 128 * varint_value(s.subrange(1, 1)));
    }
}

/// Scanning a sequence whose first `m` bytes are continuation bytes and
/// whose byte `m` is final finds a varint of `m + 1` bytes when `m < 10`.
proof fn lemma_scan_finds(b: Seq<u8>, i: int, m: int)
    requires
        0 <= i <= m < 10,
        m < b.len(),
        forall|j: int| i <= j < m ==> b[j] >= 128,
        b[m] < 128,
    ensures
        varint_scan(b, i) == VarintScan::Complete((m + 1) as nat),
    decreases m - i,
{
    if i < m {
        lemma_scan_finds(b, i + 1, m);
    }
}

/// Scanning fewer bytes than a varint needs reports that more are needed.
proof fn lemma_scan_incomplete(b: Seq<u8>, i: int)
    requires
        0 <= i <= b.len() < 10,
        forall|j: int| i <= j < b.len() ==> b[j] >= 128,
    ensures
        varint_scan(b, i) == VarintScan::Incomplete,
    decreases b.len() - i,
{
    if i < b.len() {
        lemma_scan_incomplete(b, i + 1);
    }
}

/// Every `u64` round-trips through its varint, whatever follows it.
pub proof fn lemma_varint_round_trip(n: u64, rest: Seq<u8>)
    ensures
        varint_scan(varint(n as nat) + rest, 0) == VarintScan::Complete(varint(n as nat).len()),
        varint_value((varint(n as nat) + rest).subrange(0, varint(n as nat).len() as int)) == n,
{
    let v = varint(n as nat);
    lemma_varint_shape(n as nat);
    lemma_pow128_ten();
    assert(v.len() <= 10);
    let s = v + rest;
    lemma_scan_finds(s, 0, v.len() - 1);
    assert(s.subrange(0, v.len() as int) =~= v);
}

/// A frame the encoder writes is the frame the decoder takes off the front,
/// whatever bytes follow it: two frames back to back decode in order.
pub proof fn lemma_decode_encoded(f: (u8, Seq<u8>), rest: Seq<u8>)
    requires
        f.0 <= KIND_ERROR,
        f.1.len() <= MAX_FRAME_LEN,
    ensures
        next_frame_outcome(frame_wire(f) + rest) == (
            Ok::<Option<(u8, Seq<u8>)>, AgentFault>(Some(f)),
            rest,
        ),
{
    let len = f.1.len();
    let v = varint(len);
    let buf = frame_wire(f) + rest;
    let after = buf.subrange(1, buf.len() as int);
    assert(after =~= v + (f.1 + rest));
    lemma_varint_round_trip(len as u64, f.1 + rest);
    let n = v.len();
    assert(buf.subrange(1 + n as int, 1 + n + len as int) =~= f.1);
    assert(buf.subrange(1 + n + len as int, buf.len() as int) =~= rest);
}

/// Any proper prefix of an encoded frame is incomplete: the decoder waits
/// for more bytes and keeps what it has, so no frame decodes early.
pub proof fn lemma_prefix_pending(f: (u8, Seq<u8>), k: int)
    requires
        f.1.len() <= MAX_FRAME_LEN,
        0 <= k < frame_wire(f).len(),
    ensures
        next_frame_outcome(frame_wire(f).subrange(0, k)) == (
            Ok::<Option<(u8, Seq<u8>)>, AgentFault>(None),
            frame_wire(f).subrange(0, k),
        ),
{
    let len = f.1.len();
    let v = varint(len);
    lemma_varint_shape(len);
    lemma_pow128_ten();
    let buf = frame_wire(f).subrange(0, k);
    if k > 0 {
        let after = buf.subrange(1, buf.len() as int);
        if k <= v.len() {
            assert forall|j: int| 0 <= j < after.len() implies after[j] >= 128 by {
                assert(after[j] == v[j]);
            }
            lemma_scan_incomplete(after, 0);
        } else {
            assert forall|j: int| 0 <= j < v.len() - 1 implies after[j] >= 128 by {
                assert(after[j] == v[j]);
            }
            assert(after[v.len() - 1] == v[v.len() - 1]);
            lemma_scan_finds(after, 0, v.len() - 1);
            assert(after.subrange(0, v.len() as int) =~= v);
        }
    }
}

/// Appends the varint of `value` to `out`.
pub fn write_varint(out: &mut Vec<u8>, value: u64)
    ensures
        final(out)@ == old(out)@ + varint(value as nat),
{
    let ghost start = out@;
    let mut v = value;
    loop
        invariant_except_break
            start + varint(value as nat) == out@ + varint(v as nat),
        ensures
            start + varint(value as nat) == out@,
        decreases v,
    {
        let byte = (v % 128) as u8;
        v = v / 128;
        if v == 0 {
            out.push(byte);
            assert(out@ =~= start + varint(value as nat));
            break;
        }
        let ghost before = out@;
        out.push(byte + 128);
        assert(before + varint((v * 128 + byte) as nat) =~= out@ + varint(v as nat));
    }
}

/// Reads a varint from the start of `bytes`: `Some((value, length))` once it
/// is complete, `None` while it may still be cut short. A run of ten
/// continuation bytes cannot start the length of any frame the limit admits,
/// so it is a protocol error rather than a reason to wait.
pub fn try_read_varint(bytes: &[u8]) -> (r: Result<Option<(u64, usize)>, AgentError>)
    ensures
        match varint_scan(bytes@, 0) {
            VarintScan::Incomplete => r matches Ok(None),
            VarintScan::TooLong => r matches Err(e) && e@ == AgentFault::Protocol(
                too_long_prefix_message(),
            ),
            VarintScan::Complete(n) => r matches Ok(Some((value, used))) && used == n && value
                == varint_value(bytes@.subrange(0, n as int)) % 0x1_0000_0000_0000_0000,
        },
        r matches Ok(Some((_, used))) ==> 1 <= used <= 10 && used <= bytes@.len(),
{
    let mut i: usize = 0;
    while i < bytes.len()
        invariant
            i <= bytes.len(),
            i <= 10,
            varint_scan(bytes@, 0) == varint_scan(bytes@, i as int),
        decreases bytes.len() - i,
    {
        if i >= 10 {
            return Err(AgentError::Protocol("termy/terminal/1 frame length prefix is too long".to_owned()));
        }
        if bytes[i] < 128 {
            // The varint is bytes[0..=i]; add it up from its last byte.
            let n = i + 1;
            let ghost t = bytes@.subrange(0, n as int);
            let mut acc: u128 = 0;
            let mut j = n;
            proof {
                lemma_pow128_ten();
                lemma_pow128_monotone(0, 10);
            }
            while j > 0
                invariant
                    j <= n <= 10,
                    n <= bytes.len(),
                    t == bytes@.subrange(0, n as int),
                    acc == varint_value(t.subrange(j as int, n as int)),
                    acc < pow128((n - j) as nat),
                    pow128((n - j) as nat) <= pow128(10),
                    pow128(10) == 0x400000000000000000,
                decreases j,
            {
                proof {
                    lemma_pow128_monotone((n - j + 1) as nat, 10);
                }
                let low = (bytes[j - 1] % 128) as u128;
                acc = low + 128 * acc;
                j = j - 1;
                assert(t.subrange(j as int, n as int).subrange(1, (n - j) as int) =~= t.subrange(
                    j + 1,
                    n as int,
                ));
            }
            assert(t.subrange(0, n as int) =~= t);
            let value = #[verifier::truncate] (acc as u64);
            assert(value == acc % 0x1_0000_0000_0000_0000) by (bit_vector)
                requires
                    value == acc as u64,
            ;
            return Ok(Some((value, n)));
        }
        i = i + 1;
    }
    if i >= 10 {
        return Err(AgentError::Protocol("termy/terminal/1 frame length prefix is too long".to_owned()));
    }
    Ok(None)
}

impl Frame {
    /// The kind byte of this frame.
    pub fn kind(&self) -> (r: u8)
        ensures
            r == self@.0,
    {
        match self {
            Frame::Open(_) => KIND_OPEN,
            Frame::Data(_) => KIND_DATA,
            Frame::Resize(_) => KIND_RESIZE,
            Frame::ShellEvent(_) => KIND_SHELL_EVENT,
            Frame::Close(_) => KIND_CLOSE,
            Frame::Opened(_) => KIND_OPENED,
            Frame::Error(_) => KIND_ERROR,
        }
    }

    fn payload(&self) -> (r: &Vec<u8>)
        ensures
            r@ == self@.1,
    {
        match self {
            Frame::Open(p) => p,
            Frame::Data(p) => p,
            Frame::Resize(p) => p,
            Frame::ShellEvent(p) => p,
            Frame::Close(p) => p,
            Frame::Opened(p) => p,
            Frame::Error(p) => p,
        }
    }

    /// The frame of a known `kind` carrying `payload`.
    fn from_kind_and_payload(kind: u8, payload: Vec<u8>) -> (r: Result<Self, AgentError>)
        ensures
            kind <= KIND_ERROR ==> (r matches Ok(f) && f@ == (kind, payload@)),
            kind > KIND_ERROR ==> (r matches Err(e) && e@ == AgentFault::Protocol(
                unknown_kind_message(kind),
            )),
    {
        if kind == KIND_OPEN {
            Ok(Frame::Open(payload))
        } else if kind == KIND_DATA {
            Ok(Frame::Data(payload))
        } else if kind == KIND_RESIZE {
            Ok(Frame::Resize(payload))
        } else if kind == KIND_SHELL_EVENT {
            Ok(Frame::ShellEvent(payload))
        } else if kind == KIND_CLOSE {
            Ok(Frame::Close(payload))
        } else if kind == KIND_OPENED {
            Ok(Frame::Opened(payload))
        } else if kind == KIND_ERROR {
            Ok(Frame::Error(payload))
        } else {
            let digits = [hex_digit((kind / 16) as u64), hex_digit((kind % 16) as u64)];
            let hex = string_from_chars(&digits);
            assert(digits@ == hex2(kind));
            Err(AgentError::Protocol(concat("unknown termy/terminal/1 frame kind 0x", hex.as_str())))
        }
    }

    /// The bytes to write to the stream for this frame.
    pub fn encode(&self) -> (r: Result<Vec<u8>, AgentError>)
        ensures
            r matches Ok(bytes) && bytes@ == frame_wire(self@),
    {
        let payload = self.payload();
        let mut out: Vec<u8> = Vec::new();
        out.push(self.kind());
        write_varint(&mut out, payload.len() as u64);
        let ghost head = out@;
        let mut i: usize = 0;
        while i < payload.len()
            invariant
                i <= payload.len(),
                out@ == head + payload@.subrange(0, i as int),
            decreases payload.len() - i,
        {
            out.push(payload[i]);
            i = i + 1;
            assert(out@ =~= head + payload@.subrange(0, i as int));
        }
        assert(out@ =~= frame_wire(self@));
        Ok(out)
    }
}

/// Accumulates the bytes of a terminal stream and pops complete frames off
/// the front.
#[derive(Debug, Default)]
pub struct FrameDecoder {
    buf: Vec<u8>,
}

impl View for FrameDecoder {
    /// The bytes received and not yet taken as frames.
    type V = Seq<u8>;

    closed spec fn view(&self) -> Seq<u8> {
        self.buf@
    }
}

/// A decoder step's result with the error taken by its view.
pub open spec fn step_view(r: Result<Option<Frame>, AgentError>) -> Result<
    Option<(u8, Seq<u8>)>,
    AgentFault,
> {
    match r {
        Ok(None) => Ok(None),
        Ok(Some(f)) => Ok(Some(f@)),
        Err(e) => Err(e@),
    }
}

impl FrameDecoder {
    pub fn new() -> (r: Self)
        ensures
            r@ == Seq::<u8>::empty(),
    {
        FrameDecoder { buf: Vec::new() }
    }

    /// Adds bytes that arrived from the stream.
    pub fn push(&mut self, bytes: &[u8])
        ensures
            final(self)@ == old(self)@ + bytes@,
    {
        let mut i: usize = 0;
        let ghost start = self.buf@;
        while i < bytes.len()
            invariant
                i <= bytes.len(),
                self.buf@ == start + bytes@.subrange(0, i as int),
            decreases bytes.len() - i,
        {
            self.buf.push(bytes[i]);
            i = i + 1;
            assert(self.buf@ =~= start + bytes@.subrange(0, i as int));
        }
        assert(bytes@.subrange(0, i as int) =~= bytes@);
    }

    /// Pops one frame if the buffer holds a complete one. `Ok(None)` means
    /// that more bytes are needed, and is no error.
    pub fn next_frame(&mut self) -> (r: Result<Option<Frame>, AgentError>)
        ensures
            (step_view(r), final(self)@) == next_frame_outcome(old(self)@),
    {
        let ghost buf = self.buf@;
        if self.buf.len() == 0 {
            return Ok(None);
        }
        let kind = self.buf[0];
        let rest = self.buf.as_slice().split_at(1).1;
        assert(rest@ =~= buf.subrange(1, buf.len() as int));
        let (len, len_bytes) = match try_read_varint(rest) {
            Err(e) => return Err(e),
            Ok(None) => return Ok(None),
            Ok(Some(read)) => read,
        };
        if len > MAX_FRAME_LEN {
            let number = decimal_string(len);
            let head = concat("termy/terminal/1 frame of ", number.as_str());
            let message = concat(head.as_str(), " bytes exceeds the 1048576-byte limit");
            return Err(AgentError::Protocol(message));
        }
        let header_len = 1 + len_bytes;
        let total_len = header_len + len as usize;
        if self.buf.len() < total_len {
            return Ok(None);
        }
        let mut payload: Vec<u8> = Vec::new();
        let mut i = header_len;
        while i < total_len
            invariant
                header_len <= i <= total_len <= self.buf.len(),
                self.buf@ == buf,
                payload@ == buf.subrange(header_len as int, i as int),
            decreases total_len - i,
        {
            payload.push(self.buf[i]);
            i = i + 1;
            assert(payload@ =~= buf.subrange(header_len as int, i as int));
        }
        let mut remaining: Vec<u8> = Vec::new();
        let mut j = total_len;
        while j < self.buf.len()
            invariant
                total_len <= j <= self.buf.len(),
                self.buf@ == buf,
                remaining@ == buf.subrange(total_len as int, j as int),
            decreases self.buf.len() - j,
        {
            remaining.push(self.buf[j]);
            j = j + 1;
            assert(remaining@ =~= buf.subrange(total_len as int, j as int));
        }
        self.buf = remaining;
        match Frame::from_kind_and_payload(kind, payload) {
            Ok(frame) => Ok(Some(frame)),
            Err(e) => Err(e),
        }
    }
}

} // verus!
