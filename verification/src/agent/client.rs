//! The decisions of the agent's connection loop: what to report, how long to
//! wait before reconnecting, why a connection ended, and what to do with
//! each frame and message the relay sends. The socket, the terminal and the
//! files are driven by the application.

use vstd::prelude::*;
use crate::agent::{host_is_windows, AgentError, AgentFault};
use crate::ids::{parse_uuid, uuid_value};
use crate::protocol::frame::{
    decode, decode_outcome, encode, encode_outcome, lemma_decode_of_encode, spec_payload_limit,
    Frame, FrameModel, KIND_FILE_CHUNK, KIND_TERMINAL_INPUT, KIND_TERMINAL_OUTPUT,
    TERMINAL_FILE_INDEX,
};
use crate::text::{
    chars_of, concat, cut_chars, cut_to_bytes, decimal, decimal_string, is_char_boundary,
    is_char_boundary_at, is_unicode_whitespace, is_whitespace, lemma_cut_fits, str_eq,
    string_from_chars, utf8_prefix_len,
};

verus! {

/// How a word of an error text is shown: a word that holds `/` or `\` may
/// be a local path and is replaced.
pub open spec fn shown_word(w: Seq<char>) -> Seq<char> {
    if w.contains('/') || w.contains('\\') {
        "<path>"@
    } else {
        w
    }
}

/// `out` followed by the word `w`, one space between, if `w` is a word.
pub open spec fn flush_word(out: Seq<char>, w: Seq<char>) -> Seq<char> {
    if w.len() == 0 {
        out
    } else if out.len() == 0 {
        shown_word(w)
    } else {
        out + " "@ + shown_word(w)
    }
}

/// The words of `s` from position `i` on, separated by whitespace, each
/// shown as `shown_word` says and joined by single spaces, after `out`
/// and the word `w` in progress.
pub open spec fn shown_words(s: Seq<char>, i: int, w: Seq<char>, out: Seq<char>) -> Seq<char>
    decreases s.len() - i,
{
    if i >= s.len() {
        flush_word(out, w)
    } else if is_unicode_whitespace(s[i]) {
        shown_words(s, i + 1, Seq::empty(), flush_word(out, w))
    } else {
        shown_words(s, i + 1, w.push(s[i]), out)
    }
}

/// The longest error text that crosses the wire, in bytes.
pub const MAX_REDACTED_BYTES: usize = 512;

/// An error text as it may cross the wire: its words, with every word that
/// may be a local path replaced by `<path>`, joined by single spaces and
/// cut to 512 bytes.
pub open spec fn redacted(s: Seq<char>) -> Seq<char> {
    cut_to_bytes(shown(s), MAX_REDACTED_BYTES as nat)
}

fn contains_char(v: &Vec<char>, c: char) -> (r: bool)
    ensures
        r == v@.contains(c),
{
    let mut i: usize = 0;
    while i < v.len()
        invariant
            i <= v.len(),
            forall|j: int| 0 <= j < i ==> v@[j] != c,
        decreases v.len() - i,
    {
        if v[i] == c {
            assert(v@[i as int] == c);
            return true;
        }
        i = i + 1;
    }
    false
}

fn push_all(out: &mut Vec<char>, s: &Vec<char>)
    ensures
        final(out)@ == old(out)@ + s@,
{
    let ghost start = out@;
    let mut i: usize = 0;
    while i < s.len()
        invariant
            i <= s.len(),
            out@ == start + s@.subrange(0, i as int),
        decreases s.len() - i,
    {
        out.push(s[i]);
        i = i + 1;
        assert(out@ =~= start + s@.subrange(0, i as int));
    }
    assert(s@.subrange(0, i as int) =~= s@);
}

fn flush(out: &mut Vec<char>, w: &Vec<char>)
    ensures
        final(out)@ == flush_word(old(out)@, w@),
{
    if w.len() == 0 {
        return;
    }
    if out.len() > 0 {
        out.push(' ');
        assert(out@ =~= old(out)@ + " "@) by {
            reveal_strlit(" ");
        }
    }
    if contains_char(w, '/') || contains_char(w, '\\') {
        let p = chars_of("<path>");
        push_all(out, &p);
    } else {
        push_all(out, w);
    }
    assert(out@ =~= flush_word(old(out)@, w@));
}

/// The words of `message`, each that may be a local path replaced by
/// `<path>`, joined by single spaces.
pub open spec fn shown(message: Seq<char>) -> Seq<char> {
    shown_words(message, 0, Seq::empty(), Seq::empty())
}

fn shown_text(message: &str) -> (r: Vec<char>)
    ensures
        r@ == shown(message@),
{
    let s = chars_of(message);
    let mut out: Vec<char> = Vec::new();
    let mut w: Vec<char> = Vec::new();
    let mut i: usize = 0;
    while i < s.len()
        invariant
            s@ == message@,
            i <= s.len(),
            shown_words(s@, 0, Seq::empty(), Seq::empty()) == shown_words(s@, i as int, w@, out@),
        decreases s.len() - i,
    {
        if is_whitespace(s[i]) {
            flush(&mut out, &w);
            w = Vec::new();
        } else {
            w.push(s[i]);
        }
        i = i + 1;
    }
    flush(&mut out, &w);
    out
}

/// Error text that crosses the wire must not leak local paths or other
/// details of the host. The text is cut to 512 bytes, which must not fall
/// inside a character (std's `String::truncate` panics there).
pub fn redact(message: &str) -> (r: String)
    requires
        is_char_boundary_at(shown(message@), MAX_REDACTED_BYTES as nat),
    ensures
        r@ == redacted(message@),
{
    let out = shown_text(message);
    let cut = cut_chars(&out, MAX_REDACTED_BYTES);
    string_from_chars(cut.as_slice())
}

/// The redacted text, or `None` where the cut at 512 bytes would fall
/// inside a character, for callers that cannot know in advance.
pub fn try_redact(message: &str) -> (r: Option<String>)
    ensures
        match r {
            Some(t) => is_char_boundary_at(shown(message@), MAX_REDACTED_BYTES as nat) && t@
                == redacted(message@),
            None => !is_char_boundary_at(shown(message@), MAX_REDACTED_BYTES as nat),
        },
{
    let out = shown_text(message);
    if !is_char_boundary(&out, MAX_REDACTED_BYTES) {
        return None;
    }
    let cut = cut_chars(&out, MAX_REDACTED_BYTES);
    Some(string_from_chars(cut.as_slice()))
}

/// Holds neither separator of a local path.
pub open spec fn no_separator(x: Seq<char>) -> bool {
    !x.contains('/') && !x.contains('\\')
}

proof fn lemma_shown_word_clean(w: Seq<char>)
    ensures
        no_separator(shown_word(w)),
{
    reveal_strlit("<path>");
    if w.contains('/') || w.contains('\\') {
        assert(!"<path>"@.contains('/'));
    }
}

proof fn lemma_shown_words_clean(s: Seq<char>, i: int, w: Seq<char>, out: Seq<char>)
    requires
        no_separator(out),
    ensures
        no_separator(shown_words(s, i, w, out)),
    decreases s.len() - i,
{
    lemma_shown_word_clean(w);
    reveal_strlit(" ");
    let f = flush_word(out, w);
    assert(no_separator(f)) by {
        if w.len() > 0 && out.len() > 0 {
            assert forall|k: int| 0 <= k < f.len() implies f[k] != '/' && f[k] != '\\' by {
                if k < out.len() {
                    assert(f[k] == out[k]);
                } else if k == out.len() {
                    assert(f[k] == ' ');
                } else {
                    assert(f[k] == shown_word(w)[k - out.len() - 1]);
                }
            }
        }
    }
    if i < s.len() {
        if is_unicode_whitespace(s[i]) {
            lemma_shown_words_clean(s, i + 1, Seq::empty(), f);
        } else {
            lemma_shown_words_clean(s, i + 1, w.push(s[i]), out);
        }
    }
}

/// Error text that crosses the wire leaks no local path: it holds neither
/// `/` nor `\`, and its UTF-8 encoding fits in 512 bytes.
pub proof fn lemma_redaction_is_safe(message: Seq<char>)
    ensures
        no_separator(redacted(message)),
        utf8_prefix_len(redacted(message), redacted(message).len() as int) <= MAX_REDACTED_BYTES,
{
    lemma_shown_words_clean(message, 0, Seq::empty(), Seq::empty());
    lemma_cut_fits(shown(message), MAX_REDACTED_BYTES as nat);
    let sh = shown(message);
    let r = redacted(message);
    assert forall|k: int| 0 <= k < r.len() implies r[k] != '/' && r[k] != '\\' by {
        assert(r[k] == sh[k]);
    }
}

/// The protocol's name for a host platform.
pub open spec fn platform_name(windows: bool) -> Seq<char> {
    if windows {
        "windows-x64"@
    } else {
        "ubuntu-x64"@
    }
}

pub fn platform_for(windows: bool) -> (r: &'static str)
    ensures
        r@ == platform_name(windows),
{
    if windows {
        "windows-x64"
    } else {
        "ubuntu-x64"
    }
}

/// The platform this agent reports: Windows builds are `windows-x64`,
/// every other build `ubuntu-x64`.
pub fn platform() -> (r: &'static str)
    ensures
        r@ == platform_name(true) || r@ == platform_name(false),
{
    platform_for(host_is_windows())
}

/// The longest wait between reconnection attempts, in seconds.
pub const BACKOFF_MAX_SECS: u64 = 30;

/// The wait after `current` seconds: doubled, up to 30 seconds.
pub fn next_backoff_secs(current: u64) -> (r: u64)
    ensures
        r == if 2 * current > BACKOFF_MAX_SECS { BACKOFF_MAX_SECS as int } else { 2 * current },
{
    if current > BACKOFF_MAX_SECS / 2 {
        BACKOFF_MAX_SECS
    } else {
        current * 2
    }
}

/// The `Authorization` header an agent connects with.
pub fn device_authorization(device_id: &str, device_token: &str) -> (r: String)
    ensures
        r@ == "Device "@ + device_id@ + "."@ + device_token@,
{
    let head = concat("Device ", device_id);
    let body = concat(head.as_str(), ".");
    concat(body.as_str(), device_token)
}

/// Why a connection ended, which decides whether to try again.
#[derive(Debug)]
pub enum Disconnect {
    /// A transport failure: retry after the backoff.
    Retryable(String),
    /// The relay refused the device's credentials: retrying cannot help.
    Unauthorized,
}

pub open spec fn contains_text(s: Seq<char>, t: Seq<char>) -> bool {
    exists|i: int| 0 <= i <= s.len() - t.len() && #[trigger] s.subrange(i, i + t.len()) == t
}

fn find_text(s: &Vec<char>, t: &Vec<char>) -> (r: bool)
    ensures
        r == contains_text(s@, t@),
{
    if t.len() > s.len() {
        return false;
    }
    let mut i: usize = 0;
    while i <= s.len() - t.len()
        invariant
            t.len() <= s.len(),
            i <= s.len() - t.len() + 1,
            forall|k: int| 0 <= k < i ==> #[trigger] s@.subrange(k, k + t@.len()) != t@,
        decreases s.len() - t.len() + 1 - i,
    {
        let mut j: usize = 0;
        while j < t.len() && s[i + j] == t[j]
            invariant
                j <= t.len(),
                i + t.len() <= s.len(),
                forall|k: int| 0 <= k < j ==> s@[i + k] == t@[k],
            decreases t.len() - j,
        {
            j = j + 1;
        }
        if j == t.len() {
            assert(s@.subrange(i as int, i + t@.len()) =~= t@);
            return true;
        }
        assert(s@.subrange(i as int, i + t@.len())[j as int] != t@[j as int]);
        i = i + 1;
    }
    false
}

/// A failed connection attempt: the relay answers a bad device token with
/// 401 before the upgrade, and any failure whose text says 401 is taken as
/// that refusal.
pub fn connect_failure(text: String) -> (r: Disconnect)
    ensures
        contains_text(text@, "401"@) ==> r is Unauthorized,
        !contains_text(text@, "401"@) ==> (r matches Disconnect::Retryable(m) && m@ == text@),
{
    let s = chars_of(text.as_str());
    let needle = chars_of("401");
    if find_text(&s, &needle) {
        Disconnect::Unauthorized
    } else {
        Disconnect::Retryable(text)
    }
}

/// A close frame from the relay: 4401 means the token is no longer valid;
/// a close without a code counts as 1000.
pub fn close_outcome(code: Option<u16>) -> (r: Disconnect)
    ensures
        code == Some(4401u16) ==> r is Unauthorized,
        code != Some(4401u16) ==> (r matches Disconnect::Retryable(m) && m@ == "relay closed with "@
            + decimal(match code { Some(c) => c as nat, None => 1000 })),
{
    let c = match code {
        Some(c) => c,
        None => 1000,
    };
    if c == 4401 {
        Disconnect::Unauthorized
    } else {
        let number = decimal_string(c as u64);
        Disconnect::Retryable(concat("relay closed with ", number.as_str()))
    }
}

/// The terminal size a `terminal.open` or `terminal.resize` asks for, the
/// defaults standing in for a missing or non-numeric field, each cut to 16
/// bits.
pub fn terminal_size(cols: Option<u64>, rows: Option<u64>) -> (r: (u16, u16))
    ensures
        r.0 == (match cols { Some(c) => c, None => 80 }) % 0x10000,
        r.1 == (match rows { Some(c) => c, None => 24 }) % 0x10000,
{
    let c = match cols {
        Some(c) => c,
        None => 80,
    };
    let r = match rows {
        Some(r) => r,
        None => 24,
    };
    ((c % 0x10000) as u16, (r % 0x10000) as u16)
}

/// The messages the relay sends an agent.
#[derive(Debug, Clone, Copy, PartialEq, Eq, Structural)]
pub enum AgentControl {
    HelloAck,
    TerminalOpen,
    TerminalResize,
    TerminalClose,
    TransferStart,
    TransferFileEnd,
    TransferComplete,
    TransferAbort,
}

pub open spec fn agent_control_kind(t: Seq<char>) -> Option<AgentControl> {
    if t == "agent.helloAck"@ {
        Some(AgentControl::HelloAck)
    } else if t == "terminal.open"@ {
        Some(AgentControl::TerminalOpen)
    } else if t == "terminal.resize"@ {
        Some(AgentControl::TerminalResize)
    } else if t == "terminal.close"@ {
        Some(AgentControl::TerminalClose)
    } else if t == "transfer.start"@ {
        Some(AgentControl::TransferStart)
    } else if t == "transfer.fileEnd"@ {
        Some(AgentControl::TransferFileEnd)
    } else if t == "transfer.complete"@ {
        Some(AgentControl::TransferComplete)
    } else if t == "transfer.abort"@ {
        Some(AgentControl::TransferAbort)
    } else {
        None
    }
}

/// The kind of a message from the relay; any other type is a protocol
/// error.
pub fn classify_control(msg_type: &str) -> (r: Result<AgentControl, AgentError>)
    ensures
        match agent_control_kind(msg_type@) {
            Some(k) => r == Ok::<AgentControl, AgentError>(k),
            None => r matches Err(e) && e@ == AgentFault::Protocol(
                "unexpected message type "@ + msg_type@,
            ),
        },
{
    if str_eq(msg_type, "agent.helloAck") {
        Ok(AgentControl::HelloAck)
    } else if str_eq(msg_type, "terminal.open") {
        Ok(AgentControl::TerminalOpen)
    } else if str_eq(msg_type, "terminal.resize") {
        Ok(AgentControl::TerminalResize)
    } else if str_eq(msg_type, "terminal.close") {
        Ok(AgentControl::TerminalClose)
    } else if str_eq(msg_type, "transfer.start") {
        Ok(AgentControl::TransferStart)
    } else if str_eq(msg_type, "transfer.fileEnd") {
        Ok(AgentControl::TransferFileEnd)
    } else if str_eq(msg_type, "transfer.complete") {
        Ok(AgentControl::TransferComplete)
    } else if str_eq(msg_type, "transfer.abort") {
        Ok(AgentControl::TransferAbort)
    } else {
        Err(AgentError::Protocol(concat("unexpected message type ", msg_type)))
    }
}

/// What an agent does with a binary frame from the relay.
#[derive(Debug)]
pub enum BinaryStep {
    /// Nothing to do: no session or transfer is open for it.
    Ignore,
    /// Write `payload` to the terminal; the next input is expected at
    /// `next_offset`. A frame at an unexpected offset is reported, not
    /// refused.
    TerminalInput { payload: Vec<u8>, expected_offset: bool, next_offset: u64 },
    /// Write `payload` at `offset` of file `file_index` of the transfer.
    FileChunk { file_index: u32, offset: u64, payload: Vec<u8> },
}

/// What a binary frame from the relay asks of an agent with the terminal
/// session `session` (its id and the input offset it expects) and the
/// transfer `transfer` open.
pub open spec fn binary_step_outcome(
    bytes: Seq<u8>,
    session: Option<([u8; 16], u64)>,
    transfer: Option<[u8; 16]>,
) -> Result<Option<(u8, FrameModel, bool, u64)>, AgentFault> {
    match decode_outcome(bytes) {
        Err(m) => Err(AgentFault::Protocol(m)),
        Ok(f) => if f.kind == KIND_TERMINAL_INPUT {
            match session {
                None => Ok(None),
                Some((id, expected)) => if id@ != f.stream_id {
                    Err(AgentFault::Protocol("input for an unknown session"@))
                } else {
                    Ok(Some((f.kind, f, f.offset == expected, ((f.offset + f.payload.len()) % 0x1_0000_0000_0000_0000) as u64)))
                },
            }
        } else if f.kind == KIND_FILE_CHUNK {
            match transfer {
                None => Ok(None),
                Some(id) => if id@ != f.stream_id {
                    Err(AgentFault::Protocol("chunk for an unknown transfer"@))
                } else {
                    Ok(Some((f.kind, f, true, 0)))
                },
            }
        } else {
            Err(AgentFault::Protocol("agents do not receive terminal output"@))
        },
    }
}

pub open spec fn binary_step_view(r: Result<BinaryStep, AgentError>) -> Result<Option<(u8, Seq<u8>, bool, u64, u32, u64)>, AgentFault> {
    match r {
        Err(e) => Err(e@),
        Ok(BinaryStep::Ignore) => Ok(None),
        Ok(BinaryStep::TerminalInput { payload, expected_offset, next_offset }) => Ok(Some((KIND_TERMINAL_INPUT, payload@, expected_offset, next_offset, 0, 0))),
        Ok(BinaryStep::FileChunk { file_index, offset, payload }) => Ok(Some((KIND_FILE_CHUNK, payload@, true, 0, file_index, offset))),
    }
}

pub open spec fn binary_step_expected(bytes: Seq<u8>, session: Option<([u8; 16], u64)>, transfer: Option<[u8; 16]>) -> Result<Option<(u8, Seq<u8>, bool, u64, u32, u64)>, AgentFault> {
    match binary_step_outcome(bytes, session, transfer) {
        Err(e) => Err(e),
        Ok(None) => Ok(None),
        Ok(Some((kind, f, expected, next))) => if kind == KIND_TERMINAL_INPUT {
            Ok(Some((kind, f.payload, expected, next, 0, 0)))
        } else {
            Ok(Some((kind, f.payload, true, 0, f.file_index, f.offset)))
        },
    }
}

/// Keystrokes reach the open session: a well-formed terminal-input frame
/// whose stream id is the open session's id is input for the terminal,
/// carrying the frame's payload, whether the frame has the offset the
/// session expects and the offset after it; only a frame of another stream
/// is refused as input for an unknown session, and with no session open
/// input is ignored. The open transfer plays no part.
pub proof fn lemma_input_reaches_the_open_session(
    bytes: Seq<u8>,
    id: [u8; 16],
    expected: u64,
    transfer: Option<[u8; 16]>,
)
    requires
        decode_outcome(bytes) is Ok,
        decode_outcome(bytes)->Ok_0.kind == KIND_TERMINAL_INPUT,
    ensures
        ({
            let f = decode_outcome(bytes)->Ok_0;
            &&& id@ == f.stream_id ==> binary_step_expected(bytes, Some((id, expected)), transfer)
                == Ok::<Option<(u8, Seq<u8>, bool, u64, u32, u64)>, AgentFault>(
                Some(
                    (
                        KIND_TERMINAL_INPUT,
                        f.payload,
                        f.offset == expected,
                        ((f.offset + f.payload.len()) % 0x1_0000_0000_0000_0000) as u64,
                        0u32,
                        0u64,
                    ),
                ),
            )
            &&& id@ != f.stream_id ==> binary_step_expected(bytes, Some((id, expected)), transfer)
                == Err::<Option<(u8, Seq<u8>, bool, u64, u32, u64)>, AgentFault>(
                AgentFault::Protocol("input for an unknown session"@),
            )
            &&& binary_step_expected(bytes, None, transfer) == Ok::<
                Option<(u8, Seq<u8>, bool, u64, u32, u64)>,
                AgentFault,
            >(None)
        }),
{
}

/// The frame the relay encodes for keystrokes typed into session `f`'s
/// stream reaches that session with exactly those keystrokes.
pub proof fn lemma_encoded_input_reaches_its_session(
    f: FrameModel,
    id: [u8; 16],
    expected: u64,
    transfer: Option<[u8; 16]>,
)
    requires
        f.kind == KIND_TERMINAL_INPUT,
        f.stream_id.len() == 16,
        f.payload.len() <= spec_payload_limit(f.kind),
        id@ == f.stream_id,
    ensures
        encode_outcome(f) is Ok,
        binary_step_expected(encode_outcome(f)->Ok_0, Some((id, expected)), transfer) == Ok::<
            Option<(u8, Seq<u8>, bool, u64, u32, u64)>,
            AgentFault,
        >(
            Some(
                (
                    KIND_TERMINAL_INPUT,
                    f.payload,
                    f.offset == expected,
                    ((f.offset + f.payload.len()) % 0x1_0000_0000_0000_0000) as u64,
                    0u32,
                    0u64,
                ),
            ),
        ),
{
    lemma_decode_of_encode(f);
    lemma_input_reaches_the_open_session(encode_outcome(f)->Ok_0, id, expected, transfer);
}

/// File chunks reach the open transfer: a well-formed chunk whose stream id
/// is the open transfer's id is written with the frame's file index, offset
/// and payload; a chunk of another stream is refused as a chunk for an
/// unknown transfer, and with no transfer open a chunk is ignored. The
/// terminal session plays no part; a frame of terminal output is never for
/// an agent.
pub proof fn lemma_chunks_reach_the_open_transfer(
    bytes: Seq<u8>,
    id: [u8; 16],
    session: Option<([u8; 16], u64)>,
)
    requires
        decode_outcome(bytes) is Ok,
    ensures
        ({
            let f = decode_outcome(bytes)->Ok_0;
            &&& f.kind == KIND_FILE_CHUNK && id@ == f.stream_id ==> binary_step_expected(
                bytes,
                session,
                Some(id),
            ) == Ok::<Option<(u8, Seq<u8>, bool, u64, u32, u64)>, AgentFault>(
                Some((KIND_FILE_CHUNK, f.payload, true, 0u64, f.file_index, f.offset)),
            )
            &&& f.kind == KIND_FILE_CHUNK && id@ != f.stream_id ==> binary_step_expected(
                bytes,
                session,
                Some(id),
            ) == Err::<Option<(u8, Seq<u8>, bool, u64, u32, u64)>, AgentFault>(
                AgentFault::Protocol("chunk for an unknown transfer"@),
            )
            &&& f.kind == KIND_FILE_CHUNK ==> binary_step_expected(bytes, session, None) == Ok::<
                Option<(u8, Seq<u8>, bool, u64, u32, u64)>,
                AgentFault,
            >(None)
            &&& f.kind == KIND_TERMINAL_OUTPUT ==> binary_step_expected(bytes, session, Some(id))
                == Err::<Option<(u8, Seq<u8>, bool, u64, u32, u64)>, AgentFault>(
                AgentFault::Protocol("agents do not receive terminal output"@),
            )
        }),
{
    reveal_strlit("agents do not receive terminal output");
}

fn same_id(a: &[u8; 16], b: &[u8; 16]) -> (r: bool)
    ensures
        r == (a@ == b@),
{
    let mut i: usize = 0;
    while i < 16
        invariant
            i <= 16,
            forall|j: int| 0 <= j < i ==> a@[j] == b@[j],
        decreases 16 - i,
    {
        if a[i] != b[i] {
            return false;
        }
        i = i + 1;
    }
    assert(a@ =~= b@);
    true
}

/// Decides what a binary frame from the relay asks of the agent.
pub fn binary_step(bytes: &[u8], session: Option<([u8; 16], u64)>, transfer: Option<[u8; 16]>) -> (r: Result<BinaryStep, AgentError>)
    ensures
        binary_step_view(r) == binary_step_expected(bytes@, session, transfer),
{
    let frame = match decode(bytes) {
        Err(e) => return Err(AgentError::Protocol(e.0)),
        Ok(frame) => frame,
    };
    if frame.kind == KIND_TERMINAL_INPUT {
        match session {
            None => Ok(BinaryStep::Ignore),
            Some((id, expected)) => {
                if !same_id(&id, &frame.stream_id) {
                    return Err(AgentError::Protocol("input for an unknown session".to_owned()));
                }
                let next = frame.offset.wrapping_add(frame.payload.len() as u64);
                Ok(BinaryStep::TerminalInput {
                    expected_offset: frame.offset == expected,
                    next_offset: next,
                    payload: frame.payload,
                })
            },
        }
    } else if frame.kind == KIND_FILE_CHUNK {
        match transfer {
            None => Ok(BinaryStep::Ignore),
            Some(id) => {
                if !same_id(&id, &frame.stream_id) {
                    return Err(AgentError::Protocol("chunk for an unknown transfer".to_owned()));
                }
                Ok(BinaryStep::FileChunk {
                    file_index: frame.file_index,
                    offset: frame.offset,
                    payload: frame.payload,
                })
            },
        }
    } else {
        Err(AgentError::Protocol("agents do not receive terminal output".to_owned()))
    }
}

/// The frame carrying terminal output `payload` of session `session_id` at
/// `offset`, and the offset of the output after it.
pub fn output_frame(session_id: [u8; 16], offset: u64, payload: Vec<u8>) -> (r: (Result<Vec<u8>, AgentError>, u64))
    ensures
        ({
            let f = FrameModel {
                kind: KIND_TERMINAL_OUTPUT,
                stream_id: session_id@,
                file_index: TERMINAL_FILE_INDEX,
                offset,
                payload: payload@,
            };
            &&& match (r.0, encode_outcome(f)) {
                (Ok(bytes), Ok(expected)) => bytes@ == expected,
                (Err(e), Err(m)) => e@ == AgentFault::Protocol(m),
                _ => false,
            }
            &&& r.1 == ((offset + payload@.len()) % 0x1_0000_0000_0000_0000) as u64
        }),
{
    let len = payload.len() as u64;
    let frame = Frame {
        kind: KIND_TERMINAL_OUTPUT,
        stream_id: session_id,
        file_index: TERMINAL_FILE_INDEX,
        offset,
        payload,
    };
    let bytes = match encode(&frame) {
        Ok(bytes) => Ok(bytes),
        Err(e) => Err(AgentError::Protocol(e.0)),
    };
    (bytes, offset.wrapping_add(len))
}

/// The id a control message names in its payload field `field`, which must
/// be a UUID.
pub fn uuid_field(field: &str, text: Option<&str>) -> (r: Result<u128, AgentError>)
    ensures
        match text {
            Some(t) if uuid_value(t@) is Some => r == Ok::<u128, AgentError>(uuid_value(t@)->0),
            _ => r matches Err(e) && e@ == AgentFault::Protocol(field@ + " is not a UUID"@),
        },
{
    let parsed = match text {
        Some(t) => parse_uuid(t),
        None => None,
    };
    match parsed {
        Some(id) => Ok(id),
        None => Err(AgentError::Protocol(concat(field, " is not a UUID"))),
    }
}

/// What an agent does with a control message.
#[derive(Debug, Clone, Copy, PartialEq, Eq, Structural)]
pub enum ControlStep {
    /// Nothing: the message needs no answer, or names no open session or
    /// transfer of this agent.
    Nothing,
    /// Refuse a terminal with `DEVICE_BUSY`: one terminal at a time, and a
    /// second is refused rather than queued.
    RefuseBusy,
    /// Claim the slot and start the shell at this size.
    OpenTerminal { cols: u16, rows: u16 },
    ResizeTerminal { cols: u16, rows: u16 },
    /// End the open terminal and free the slot.
    CloseTerminal,
    /// Accept a transfer into the receive root.
    StartTransfer { transfer_id: u128 },
    /// Check the end of one file of the open transfer.
    FinishFile { file_index: u64, sent_size: u64 },
    /// Finish the open transfer and report where it landed.
    CompleteTransfer,
    /// Abort the open transfer at the sender's request.
    AbortTransfer,
}

/// The fields of a control message that the agent reads, each `None` when
/// absent or of the wrong type.
pub struct ControlFields<'a> {
    pub cols: Option<u64>,
    pub rows: Option<u64>,
    pub transfer_id: Option<&'a str>,
    pub file_index: Option<u64>,
    pub sent_size: Option<u64>,
}

pub open spec fn size_of(v: Option<u64>, default: u64) -> u16 {
    (match v {
        Some(c) => c,
        None => default,
    } % 0x10000) as u16
}

/// The transfer a message names, or the error for a missing or malformed
/// id.
pub open spec fn named_transfer(text: Option<&str>) -> Result<u128, AgentFault> {
    match text {
        Some(t) if uuid_value(t@) is Some => Ok(uuid_value(t@)->0),
        _ => Err(AgentFault::Protocol("transferId is not a UUID"@)),
    }
}

/// What a control message of kind `kind` asks of an agent whose terminal
/// slot is free or not, which has a terminal session open or not, and the
/// transfer `open_transfer` open, if any.
pub open spec fn control_step_outcome(
    kind: AgentControl,
    slot_free: bool,
    session_open: bool,
    open_transfer: Option<u128>,
    f: ControlFields,
) -> Result<ControlStep, AgentFault> {
    match kind {
        AgentControl::HelloAck => Ok(ControlStep::Nothing),
        AgentControl::TerminalOpen => if slot_free {
            Ok(ControlStep::OpenTerminal { cols: size_of(f.cols, 80), rows: size_of(f.rows, 24) })
        } else {
            Ok(ControlStep::RefuseBusy)
        },
        AgentControl::TerminalResize => if session_open {
            Ok(ControlStep::ResizeTerminal { cols: size_of(f.cols, 80), rows: size_of(f.rows, 24) })
        } else {
            Ok(ControlStep::Nothing)
        },
        AgentControl::TerminalClose => if session_open {
            Ok(ControlStep::CloseTerminal)
        } else {
            Ok(ControlStep::Nothing)
        },
        _ => match named_transfer(f.transfer_id) {
            Err(e) => Err(e),
            Ok(id) => if kind == AgentControl::TransferStart {
                Ok(ControlStep::StartTransfer { transfer_id: id })
            } else if open_transfer != Some(id) {
                Ok(ControlStep::Nothing)
            } else if kind == AgentControl::TransferFileEnd {
                Ok(ControlStep::FinishFile {
                    file_index: match f.file_index { Some(i) => i, None => 0 },
                    sent_size: match f.sent_size { Some(n) => n, None => 0 },
                })
            } else if kind == AgentControl::TransferComplete {
                Ok(ControlStep::CompleteTransfer)
            } else {
                Ok(ControlStep::AbortTransfer)
            },
        },
    }
}

/// Resizing keeps width and height apart: with a session open,
/// `terminal.resize` resizes to the message's columns and rows in that
/// order, each the field's number cut to 16 bits with 80 columns and 24 rows
/// standing in for a missing one, which is the size `terminal.open` with the
/// same fields starts a terminal at.
pub proof fn lemma_resize_follows_the_message(
    slot_free: bool,
    open_transfer: Option<u128>,
    f: ControlFields,
)
    ensures
        control_step_outcome(AgentControl::TerminalResize, slot_free, true, open_transfer, f) == Ok::<
            ControlStep,
            AgentFault,
        >(
            ControlStep::ResizeTerminal {
                cols: ((match f.cols {
                    Some(c) => c,
                    None => 80,
                }) % 0x10000) as u16,
                rows: ((match f.rows {
                    Some(r) => r,
                    None => 24,
                }) % 0x10000) as u16,
            },
        ),
        match (
            control_step_outcome(AgentControl::TerminalResize, slot_free, true, open_transfer, f),
            control_step_outcome(AgentControl::TerminalOpen, true, false, open_transfer, f),
        ) {
            (
                Ok(ControlStep::ResizeTerminal { cols: c1, rows: r1 }),
                Ok(ControlStep::OpenTerminal { cols: c2, rows: r2 }),
            ) => c1 == c2 && r1 == r2,
            _ => false,
        },
{
}

/// One terminal at a time: `terminal.open` starts a terminal at the size
/// the message asks for exactly when the slot is free and is refused as
/// busy otherwise; `terminal.close` ends the open session and is ignored
/// when none is open, as `terminal.resize` is; `agent.helloAck` asks for
/// nothing. The open transfer plays no part in any of them.
pub proof fn lemma_terminal_messages(
    slot_free: bool,
    session_open: bool,
    open_transfer: Option<u128>,
    f: ControlFields,
)
    ensures
        control_step_outcome(AgentControl::TerminalOpen, slot_free, session_open, open_transfer, f)
            == if slot_free {
            Ok::<ControlStep, AgentFault>(
                ControlStep::OpenTerminal {
                    cols: ((match f.cols {
                        Some(c) => c,
                        None => 80,
                    }) % 0x10000) as u16,
                    rows: ((match f.rows {
                        Some(r) => r,
                        None => 24,
                    }) % 0x10000) as u16,
                },
            )
        } else {
            Ok::<ControlStep, AgentFault>(ControlStep::RefuseBusy)
        },
        control_step_outcome(AgentControl::TerminalClose, slot_free, session_open, open_transfer, f)
            == if session_open {
            Ok::<ControlStep, AgentFault>(ControlStep::CloseTerminal)
        } else {
            Ok::<ControlStep, AgentFault>(ControlStep::Nothing)
        },
        !session_open ==> control_step_outcome(
            AgentControl::TerminalResize,
            slot_free,
            session_open,
            open_transfer,
            f,
        ) == Ok::<ControlStep, AgentFault>(ControlStep::Nothing),
        control_step_outcome(AgentControl::HelloAck, slot_free, session_open, open_transfer, f)
            == Ok::<ControlStep, AgentFault>(ControlStep::Nothing),
{
}

/// A transfer message acts on the transfer it names: `transfer.start`
/// accepts the named transfer; `transfer.fileEnd`, `transfer.complete` and
/// `transfer.abort` act on the open transfer when they name it (a file end
/// carrying its index and sent size, 0 standing in for a missing one) and
/// are ignored when they name another; a transfer id that is missing or not
/// a UUID is a protocol error. The terminal plays no part.
pub proof fn lemma_transfer_messages(
    kind: AgentControl,
    slot_free: bool,
    session_open: bool,
    open_transfer: Option<u128>,
    f: ControlFields,
)
    requires
        kind == AgentControl::TransferStart || kind == AgentControl::TransferFileEnd
            || kind == AgentControl::TransferComplete || kind == AgentControl::TransferAbort,
    ensures
        ({
            let r = control_step_outcome(kind, slot_free, session_open, open_transfer, f);
            let named = match f.transfer_id {
                Some(t) => uuid_value(t@),
                None => None,
            };
            &&& named is None ==> r == Err::<ControlStep, AgentFault>(
                AgentFault::Protocol("transferId is not a UUID"@),
            )
            &&& named is Some && kind == AgentControl::TransferStart ==> r == Ok::<
                ControlStep,
                AgentFault,
            >(ControlStep::StartTransfer { transfer_id: named->0 })
            &&& named is Some && kind != AgentControl::TransferStart && open_transfer != named ==> r
                == Ok::<ControlStep, AgentFault>(ControlStep::Nothing)
            &&& named is Some && open_transfer == named && kind == AgentControl::TransferFileEnd
                ==> r == Ok::<ControlStep, AgentFault>(
                ControlStep::FinishFile {
                    file_index: match f.file_index {
                        Some(i) => i,
                        None => 0,
                    },
                    sent_size: match f.sent_size {
                        Some(n) => n,
                        None => 0,
                    },
                },
            )
            &&& named is Some && open_transfer == named && kind == AgentControl::TransferComplete
                ==> r == Ok::<ControlStep, AgentFault>(ControlStep::CompleteTransfer)
            &&& named is Some && open_transfer == named && kind == AgentControl::TransferAbort
                ==> r == Ok::<ControlStep, AgentFault>(ControlStep::AbortTransfer)
            &&& r == control_step_outcome(kind, !slot_free, !session_open, open_transfer, f)
        }),
{
}

pub open spec fn control_step_view(r: Result<ControlStep, AgentError>) -> Result<ControlStep, AgentFault> {
    match r {
        Ok(s) => Ok(s),
        Err(e) => Err(e@),
    }
}

/// Decides what a control message asks of the agent. A transfer message
/// that names another transfer than the open one is ignored.
pub fn control_step(
    kind: AgentControl,
    slot_free: bool,
    session_open: bool,
    open_transfer: Option<u128>,
    f: ControlFields,
) -> (r: Result<ControlStep, AgentError>)
    ensures
        control_step_view(r) == control_step_outcome(kind, slot_free, session_open, open_transfer, f),
{
    match kind {
        AgentControl::HelloAck => Ok(ControlStep::Nothing),
        AgentControl::TerminalOpen => {
            if slot_free {
                let (cols, rows) = terminal_size(f.cols, f.rows);
                Ok(ControlStep::OpenTerminal { cols, rows })
            } else {
                Ok(ControlStep::RefuseBusy)
            }
        },
        AgentControl::TerminalResize => {
            if session_open {
                let (cols, rows) = terminal_size(f.cols, f.rows);
                Ok(ControlStep::ResizeTerminal { cols, rows })
            } else {
                Ok(ControlStep::Nothing)
            }
        },
        AgentControl::TerminalClose => {
            if session_open {
                Ok(ControlStep::CloseTerminal)
            } else {
                Ok(ControlStep::Nothing)
            }
        },
        _ => {
            proof {
                reveal_strlit("transferId");
                reveal_strlit(" is not a UUID");
                reveal_strlit("transferId is not a UUID");
                assert("transferId"@ + " is not a UUID"@ =~= "transferId is not a UUID"@);
            }
            let id = match uuid_field("transferId", f.transfer_id) {
                Ok(id) => id,
                Err(e) => return Err(e),
            };
            if kind == AgentControl::TransferStart {
                return Ok(ControlStep::StartTransfer { transfer_id: id });
            }
            let same = match open_transfer {
                Some(t) => t == id,
                None => false,
            };
            if !same {
                Ok(ControlStep::Nothing)
            } else if kind == AgentControl::TransferFileEnd {
                let file_index = match f.file_index {
                    Some(i) => i,
                    None => 0,
                };
                let sent_size = match f.sent_size {
                    Some(n) => n,
                    None => 0,
                };
                Ok(ControlStep::FinishFile { file_index, sent_size })
            } else if kind == AgentControl::TransferComplete {
                Ok(ControlStep::CompleteTransfer)
            } else {
                Ok(ControlStep::AbortTransfer)
            }
        },
    }
}

} // verus!
