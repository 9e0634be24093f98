//! What the gateway does with each message a socket receives: which peer it
//! goes to, which routes it opens or closes, and which close code ends the
//! connection when it must not pass. The applications parse the JSON, ask
//! the database and move the bytes; the decisions are here.

use vstd::prelude::*;
use crate::protocol::frame::{decode, decode_outcome, Frame, FrameError, KIND_FILE_CHUNK,
    KIND_TERMINAL_INPUT, KIND_TERMINAL_OUTPUT};
use crate::relay::error::{AppError, ErrorCode, STATUS_BAD_REQUEST};
use crate::relay::gateway::close;
use crate::relay::gateway::registry::{Registry, Route, SendError};
use crate::relay::gateway::{MAX_CONTROL_FRAME_BYTES, SUBPROTOCOL};
use crate::ids::{parse_uuid, uuid_value};
use crate::text::{chars_of, str_eq, string_from_chars, trim_chars, trimmed};

verus! {

/// Why the gateway closes a connection: the close code and a stable reason.
#[derive(Debug)]
pub struct Fault {
    pub code: u16,
    pub reason: String,
}

fn fault(code: u16, reason: &str) -> (r: Fault)
    ensures
        r.code == code,
        r.reason@ == reason@,
{
    Fault { code, reason: reason.to_owned() }
}

pub open spec fn fault_is(r: Fault, code: u16, reason: Seq<char>) -> bool {
    r.code == code && r.reason@ == reason
}

/// A control frame larger than the limit ends the connection.
pub fn check_frame_size(len: usize) -> (r: Result<(), Fault>)
    ensures
        len <= MAX_CONTROL_FRAME_BYTES ==> r is Ok,
        len > MAX_CONTROL_FRAME_BYTES ==> (r matches Err(f) && fault_is(
            f,
            close::TOO_LARGE,
            "CONTROL_FRAME_TOO_LARGE"@,
        )),
{
    if len > MAX_CONTROL_FRAME_BYTES {
        return Err(fault(close::TOO_LARGE, "CONTROL_FRAME_TOO_LARGE"));
    }
    Ok(())
}

/// A message for an agent that could not be queued: a closed lane means the
/// agent is gone, a full one that the sender outran its credit.
pub fn agent_send_failure(e: SendError) -> (r: Fault)
    ensures
        e == SendError::Closed ==> fault_is(r, close::FORBIDDEN, "DEVICE_OFFLINE"@),
        e == SendError::Full ==> fault_is(r, close::TOO_LARGE, "BACKPRESSURE_LIMIT"@),
{
    match e {
        SendError::Closed => fault(close::FORBIDDEN, "DEVICE_OFFLINE"),
        SendError::Full => fault(close::TOO_LARGE, "BACKPRESSURE_LIMIT"),
    }
}

/// A message for a control end that could not be queued: a control end that
/// went away is no fault of the agent, a full lane is.
pub fn control_send_failure(e: SendError) -> (r: Result<(), Fault>)
    ensures
        e == SendError::Closed ==> r is Ok,
        e == SendError::Full ==> (r matches Err(f) && fault_is(
            f,
            close::TOO_LARGE,
            "BACKPRESSURE_LIMIT"@,
        )),
{
    match e {
        SendError::Closed => Ok(()),
        SendError::Full => Err(fault(close::TOO_LARGE, "BACKPRESSURE_LIMIT")),
    }
}

/// The comma-separated protocols a handshake offers, one of which is
/// `termy.v1` once trimmed.
pub open spec fn offers_subprotocol(offered: Seq<char>) -> bool {
    exists|st: int, en: int|
        0 <= st <= en <= offered.len() && (st == 0 || offered[st - 1] == ',') && (en
            == offered.len() || offered[en] == ',') && (forall|j: int|
            st <= j < en ==> offered[j] != ',') && #[trigger] trimmed(offered.subrange(st, en))
            == SUBPROTOCOL@
}

/// Whether the piece `v[st..en]`, trimmed, is `termy.v1`.
fn piece_is_subprotocol(v: &Vec<char>, st: usize, en: usize) -> (r: bool)
    requires
        st <= en <= v.len(),
    ensures
        r == (trimmed(v@.subrange(st as int, en as int)) == SUBPROTOCOL@),
{
    let piece = string_from_chars(v.as_slice().split_at(en).0.split_at(st).1);
    assert(piece@ =~= v@.subrange(st as int, en as int));
    let t = trim_chars(piece.as_str());
    let name = string_from_chars(t.as_slice());
    str_eq(name.as_str(), SUBPROTOCOL)
}

/// Both WebSocket endpoints require the `termy.v1` subprotocol among those
/// the handshake offers.
pub fn require_subprotocol(offered: &str) -> (r: Result<(), AppError>)
    ensures
        offers_subprotocol(offered@) ==> r is Ok,
        !offers_subprotocol(offered@) ==> (r matches Err(e) && e.status == STATUS_BAD_REQUEST
            && e.code == ErrorCode::ProtocolError && e.message@
            == "the termy.v1 subprotocol is required"@),
{
    let v = chars_of(offered);
    let mut st: usize = 0;
    let mut i: usize = 0;
    while i < v.len()
        invariant
            v@ == offered@,
            st <= i <= v.len(),
            st == 0 || v@[st - 1] == ',',
            forall|j: int| st <= j < i ==> v@[j] != ',',
            forall|a: int, b: int|
                0 <= a <= b <= v@.len() && (a == 0 || v@[a - 1] == ',') && (b == v@.len() || v@[b]
                    == ',') && (forall|j: int| a <= j < b ==> v@[j] != ',') && a < st
                    ==> #[trigger] trimmed(v@.subrange(a, b)) != SUBPROTOCOL@,
        decreases v.len() - i,
    {
        if v[i] == ',' {
            if piece_is_subprotocol(&v, st, i) {
                assert(offers_subprotocol(offered@)) by {
                    assert(trimmed(offered@.subrange(st as int, i as int)) == SUBPROTOCOL@);
                }
                return Ok(());
            }
            proof {
                assert forall|a: int, b: int|
                    0 <= a <= b <= v@.len() && (a == 0 || v@[a - 1] == ',') && (b == v@.len()
                        || v@[b] == ',') && (forall|j: int| a <= j < b ==> v@[j] != ',') && a < i
                        + 1 implies #[trigger] trimmed(v@.subrange(a, b)) != SUBPROTOCOL@ by {
                    if a == st {
                        if b < i {
                            assert(v@[b] != ',');
                        }
                        if b > i {
                            assert(v@[i as int] != ',');
                        }
                    } else if a > st {
                        assert(v@[a - 1] != ',');
                    }
                }
            }
            st = i + 1;
        }
        i = i + 1;
    }
    if piece_is_subprotocol(&v, st, v.len()) {
        assert(offers_subprotocol(offered@)) by {
            assert(trimmed(offered@.subrange(st as int, v@.len() as int)) == SUBPROTOCOL@);
        }
        return Ok(());
    }
    assert forall|a: int, b: int|
        0 <= a <= b <= offered@.len() && (a == 0 || offered@[a - 1] == ',') && (b == offered@.len()
            || offered@[b] == ',') && (forall|j: int| a <= j < b ==> offered@[j] != ',') implies #[trigger] trimmed(
        offered@.subrange(a, b),
    ) != SUBPROTOCOL@ by {
        if a == st {
            if b < v@.len() {
                assert(v@[b] != ',');
            }
        } else if a > st {
            assert(v@[a - 1] != ',');
        }
    }
    Err(AppError::bad_request("the termy.v1 subprotocol is required"))
}

/// The number a UUID's 16 bytes spell, most significant first.
pub open spec fn be_value(b: Seq<u8>) -> nat
    decreases b.len(),
{
    if b.len() == 0 {
        0
    } else {
        be_value(b.drop_last()) * 256 + b.last() as nat
    }
}

pub open spec fn pow256(n: nat) -> nat
    decreases n,
{
    if n == 0 {
        1
    } else {
        256 * pow256((n - 1) as nat)
    }
}

proof fn lemma_be_value_bound(b: Seq<u8>)
    ensures
        be_value(b) < pow256(b.len()),
    decreases b.len(),
{
    if b.len() > 0 {
        lemma_be_value_bound(b.drop_last());
        assert(be_value(b.drop_last()) * 256 + 255 < pow256(b.len())) by (nonlinear_arith)
            requires
                be_value(b.drop_last()) < pow256((b.len() - 1) as nat),
                pow256(b.len()) == 256 * pow256((b.len() - 1) as nat),
        ;
    }
}

proof fn lemma_pow256_monotone(a: nat, b: nat)
    requires
        a <= b,
    ensures
        pow256(a) <= pow256(b),
    decreases b,
{
    if a < b {
        lemma_pow256_monotone(a, (b - 1) as nat);
    }
}

proof fn lemma_pow256_values()
    ensures
        pow256(15) == 0x1000000000000000000000000000000,
{
    reveal_with_fuel(pow256, 16);
}

/// The UUID of a frame's stream id, as its 128-bit number.
pub fn stream_key(id: &[u8; 16]) -> (r: u128)
    ensures
        r == be_value(id@),
{
    let mut acc: u128 = 0;
    let mut i: usize = 0;
    proof {
        lemma_pow256_values();
    }
    while i < 16
        invariant
            i <= 16,
            acc == be_value(id@.subrange(0, i as int)),
            pow256(15) == 0x1000000000000000000000000000000,
        decreases 16 - i,
    {
        proof {
            lemma_be_value_bound(id@.subrange(0, i as int));
            lemma_pow256_monotone(i as nat, 15);
        }
        assert(acc * 256 + 255 < 0x1_0000_0000_0000_0000_0000_0000_0000_0000) by (nonlinear_arith)
            requires
                acc < pow256(i as nat),
                pow256(i as nat) <= pow256(15),
                pow256(15) == 0x1000000000000000000000000000000,
        ;
        acc = acc * 256 + id[i] as u128;
        i = i + 1;
        assert(id@.subrange(0, i as int).drop_last() =~= id@.subrange(0, i - 1));
    }
    assert(id@.subrange(0, 16) =~= id@);
    acc
}

/// The messages a control end may send.
#[derive(Debug, Clone, Copy, PartialEq, Eq, Structural)]
pub enum ControlText {
    TerminalOpen,
    TransferStart,
    TerminalResize,
    TerminalClose,
    TransferFileEnd,
    TransferComplete,
    TransferAbort,
    /// Anything else, agent messages included: role confusion is a protocol
    /// error.
    Other,
}

pub open spec fn control_text_kind(t: Seq<char>) -> ControlText {
    if t == "terminal.open"@ {
        ControlText::TerminalOpen
    } else if t == "transfer.start"@ {
        ControlText::TransferStart
    } else if t == "terminal.resize"@ {
        ControlText::TerminalResize
    } else if t == "terminal.close"@ {
        ControlText::TerminalClose
    } else if t == "transfer.fileEnd"@ {
        ControlText::TransferFileEnd
    } else if t == "transfer.complete"@ {
        ControlText::TransferComplete
    } else if t == "transfer.abort"@ {
        ControlText::TransferAbort
    } else {
        ControlText::Other
    }
}

pub fn classify_control_text(msg_type: &str) -> (r: ControlText)
    ensures
        r == control_text_kind(msg_type@),
{
    if str_eq(msg_type, "terminal.open") {
        ControlText::TerminalOpen
    } else if str_eq(msg_type, "transfer.start") {
        ControlText::TransferStart
    } else if str_eq(msg_type, "terminal.resize") {
        ControlText::TerminalResize
    } else if str_eq(msg_type, "terminal.close") {
        ControlText::TerminalClose
    } else if str_eq(msg_type, "transfer.fileEnd") {
        ControlText::TransferFileEnd
    } else if str_eq(msg_type, "transfer.complete") {
        ControlText::TransferComplete
    } else if str_eq(msg_type, "transfer.abort") {
        ControlText::TransferAbort
    } else {
        ControlText::Other
    }
}

/// The route of `id` in `routes` if it belongs to `user_id`.
pub open spec fn owned_route(routes: Map<u128, Route>, id: u128, user_id: u128) -> Option<Route> {
    if routes.dom().contains(id) && routes[id].user_id == user_id {
        Some(routes[id])
    } else {
        None
    }
}

/// What routing a control end's message of kind `kind` does to `reg`, and
/// the device whose agent gets the message. The ids are those the message
/// carries (`None` when absent or not a UUID), and `owned` whether the
/// account owns the device the message names.
pub open spec fn control_text_outcome<H>(
    reg: Registry<H>,
    user_id: u128,
    kind: ControlText,
    device_id: Option<u128>,
    session_id: Option<u128>,
    transfer_id: Option<u128>,
    owned: bool,
) -> (Result<u128, (u16, Seq<char>)>, Map<u128, Route>, Map<u128, Route>) {
    let sessions = reg.sessions();
    let transfers = reg.transfers();
    let protocol = (close::PROTOCOL, "PROTOCOL_ERROR"@);
    let forbidden = (close::FORBIDDEN, "DEVICE_FORBIDDEN"@);
    let offline = (close::FORBIDDEN, "DEVICE_OFFLINE"@);
    match kind {
        ControlText::TerminalOpen | ControlText::TransferStart => match device_id {
            None => (Err(protocol), sessions, transfers),
            Some(d) => if !owned {
                (Err(forbidden), sessions, transfers)
            } else if !reg.agents().dom().contains(d) {
                (Err(offline), sessions, transfers)
            } else if kind == ControlText::TransferStart {
                match transfer_id {
                    None => (Err(protocol), sessions, transfers),
                    Some(t) => (
                        Ok(d),
                        sessions,
                        transfers.insert(t, Route { user_id, device_id: d }),
                    ),
                }
            } else {
                (Ok(d), sessions, transfers)
            },
        },
        ControlText::TerminalResize | ControlText::TerminalClose => match session_id {
            None => (Err(protocol), sessions, transfers),
            Some(s) => match owned_route(sessions, s, user_id) {
                None => (Err(forbidden), sessions, transfers),
                Some(route) => if !reg.agents().dom().contains(route.device_id) {
                    (Err(offline), sessions, transfers)
                } else if kind == ControlText::TerminalClose {
                    (Ok(route.device_id), sessions.remove(s), transfers)
                } else {
                    (Ok(route.device_id), sessions, transfers)
                },
            },
        },
        ControlText::TransferFileEnd | ControlText::TransferComplete | ControlText::TransferAbort => {
            match transfer_id {
                None => (Err(protocol), sessions, transfers),
                Some(t) => match owned_route(transfers, t, user_id) {
                    None => (Err(forbidden), sessions, transfers),
                    Some(route) => if !reg.agents().dom().contains(route.device_id) {
                        (Err(offline), sessions, transfers)
                    } else if kind == ControlText::TransferAbort {
                        (Ok(route.device_id), sessions, transfers.remove(t))
                    } else {
                        (Ok(route.device_id), sessions, transfers)
                    },
                },
            }
        },
        ControlText::Other => (Err(protocol), sessions, transfers),
    }
}

pub open spec fn fault_view(r: Result<u128, Fault>) -> Result<u128, (u16, Seq<char>)> {
    match r {
        Ok(d) => Ok(d),
        Err(f) => Err((f.code, f.reason@)),
    }
}

/// Routes a text message from a control end: checks that the account may
/// reach the device, opens or closes the routes the message starts or ends,
/// and gives the device whose agent the message is forwarded to.
pub fn route_control_text<H>(
    reg: &mut Registry<H>,
    user_id: u128,
    kind: ControlText,
    device_id: Option<u128>,
    session_id: Option<u128>,
    transfer_id: Option<u128>,
    owned: bool,
) -> (r: Result<u128, Fault>)
    ensures
        ({
            let (result, sessions, transfers) = control_text_outcome(
                *old(reg),
                user_id,
                kind,
                device_id,
                session_id,
                transfer_id,
                owned,
            );
            &&& fault_view(r) == result
            &&& final(reg).sessions() == sessions
            &&& final(reg).transfers() == transfers
        }),
        final(reg).agents() == old(reg).agents(),
        final(reg).controls() == old(reg).controls(),
{
    match kind {
        ControlText::TerminalOpen | ControlText::TransferStart => {
            let d = match device_id {
                None => return Err(fault(close::PROTOCOL, "PROTOCOL_ERROR")),
                Some(d) => d,
            };
            if !owned {
                return Err(fault(close::FORBIDDEN, "DEVICE_FORBIDDEN"));
            }
            if !reg.is_online(d) {
                return Err(fault(close::FORBIDDEN, "DEVICE_OFFLINE"));
            }
            if kind == ControlText::TransferStart {
                let t = match transfer_id {
                    None => return Err(fault(close::PROTOCOL, "PROTOCOL_ERROR")),
                    Some(t) => t,
                };
                reg.open_transfer(t, Route { user_id, device_id: d });
            }
            Ok(d)
        },
        ControlText::TerminalResize | ControlText::TerminalClose => {
            let s = match session_id {
                None => return Err(fault(close::PROTOCOL, "PROTOCOL_ERROR")),
                Some(s) => s,
            };
            let route = match reg.session_route(s) {
                Some(route) => if route.user_id == user_id {
                    route
                } else {
                    return Err(fault(close::FORBIDDEN, "DEVICE_FORBIDDEN"));
                },
                None => return Err(fault(close::FORBIDDEN, "DEVICE_FORBIDDEN")),
            };
            if !reg.is_online(route.device_id) {
                return Err(fault(close::FORBIDDEN, "DEVICE_OFFLINE"));
            }
            if kind == ControlText::TerminalClose {
                reg.close_session(s);
            }
            Ok(route.device_id)
        },
        ControlText::TransferFileEnd | ControlText::TransferComplete | ControlText::TransferAbort => {
            let t = match transfer_id {
                None => return Err(fault(close::PROTOCOL, "PROTOCOL_ERROR")),
                Some(t) => t,
            };
            let route = match reg.transfer_route(t) {
                Some(route) => if route.user_id == user_id {
                    route
                } else {
                    return Err(fault(close::FORBIDDEN, "DEVICE_FORBIDDEN"));
                },
                None => return Err(fault(close::FORBIDDEN, "DEVICE_FORBIDDEN")),
            };
            if !reg.is_online(route.device_id) {
                return Err(fault(close::FORBIDDEN, "DEVICE_OFFLINE"));
            }
            if kind == ControlText::TransferAbort {
                reg.close_transfer(t);
            }
            Ok(route.device_id)
        },
        ControlText::Other => Err(fault(close::PROTOCOL, "PROTOCOL_ERROR")),
    }
}

/// A transfer is routed by its own route: once `transfer.start` for `t` on
/// a device `d` that the account owns and that is online has succeeded, the
/// same account's `transfer.fileEnd`, `transfer.complete` and
/// `transfer.abort` naming `t` reach `d` while it stays online, whatever
/// session routes there are and whatever else the message carries; an abort
/// also drops the transfer's route, and none of them touches a session.
pub proof fn lemma_started_transfer_reaches_its_device<H>(
    reg: Registry<H>,
    later: Registry<H>,
    user_id: u128,
    d: u128,
    t: u128,
    start_session: Option<u128>,
    kind: ControlText,
    device_id: Option<u128>,
    session_id: Option<u128>,
    owned: bool,
)
    requires
        reg.agents().dom().contains(d),
        later.agents().dom().contains(d),
        later.transfers() == control_text_outcome(
            reg,
            user_id,
            ControlText::TransferStart,
            Some(d),
            start_session,
            Some(t),
            true,
        ).2,
        kind == ControlText::TransferFileEnd || kind == ControlText::TransferComplete
            || kind == ControlText::TransferAbort,
    ensures
        control_text_outcome(
            reg,
            user_id,
            ControlText::TransferStart,
            Some(d),
            start_session,
            Some(t),
            true,
        ).0 == Ok::<u128, (u16, Seq<char>)>(d),
        control_text_outcome(later, user_id, kind, device_id, session_id, Some(t), owned).0
            == Ok::<u128, (u16, Seq<char>)>(d),
        control_text_outcome(later, user_id, kind, device_id, session_id, Some(t), owned).1
            == later.sessions(),
        control_text_outcome(later, user_id, kind, device_id, session_id, Some(t), owned).2
            == if kind == ControlText::TransferAbort {
            later.transfers().remove(t)
        } else {
            later.transfers()
        },
{
    assert(later.transfers().dom().contains(t));
    assert(later.transfers()[t] == Route { user_id, device_id: d });
}

/// What a transfer's end, completion or abort does depends on the transfer
/// routes and the agents online, not on the session routes.
pub proof fn lemma_transfer_messages_ignore_sessions<H>(
    a: Registry<H>,
    b: Registry<H>,
    user_id: u128,
    kind: ControlText,
    device_id: Option<u128>,
    session_id: Option<u128>,
    transfer_id: Option<u128>,
    owned: bool,
)
    requires
        a.agents() == b.agents(),
        a.transfers() == b.transfers(),
        kind == ControlText::TransferFileEnd || kind == ControlText::TransferComplete
            || kind == ControlText::TransferAbort,
    ensures
        control_text_outcome(a, user_id, kind, device_id, session_id, transfer_id, owned).0
            == control_text_outcome(b, user_id, kind, device_id, session_id, transfer_id, owned).0,
        control_text_outcome(a, user_id, kind, device_id, session_id, transfer_id, owned).2
            == control_text_outcome(b, user_id, kind, device_id, session_id, transfer_id, owned).2,
        control_text_outcome(a, user_id, kind, device_id, session_id, transfer_id, owned).1
            == a.sessions(),
{
}

/// A session lives from the agent's `terminal.opened` to the first
/// `terminal.close`: once an online agent has reported session `s` opened
/// for an account, that account's `terminal.resize` and `terminal.close`
/// for `s` reach the agent's device while it stays online, and another
/// account's are refused as forbidden; after the agent reports `s` closed,
/// the account's messages for `s` are refused too.
pub proof fn lemma_opened_session_is_routed<H>(
    reg: Registry<H>,
    later: Registry<H>,
    device: u128,
    user_id: u128,
    other_user: u128,
    s: u128,
    kind: ControlText,
    device_id: Option<u128>,
    transfer_id: Option<u128>,
    owned: bool,
)
    requires
        later.agents().dom().contains(device),
        later.sessions() == agent_text_outcome(
            reg,
            device,
            user_id,
            AgentText::TerminalOpened,
            Some(s),
            transfer_id,
        ).1,
        other_user != user_id,
        kind == ControlText::TerminalResize || kind == ControlText::TerminalClose,
    ensures
        agent_text_outcome(reg, device, user_id, AgentText::TerminalOpened, Some(s), transfer_id).0
            == Ok::<AgentTextAction, (u16, Seq<char>)>(AgentTextAction::ForwardToControl),
        control_text_outcome(later, user_id, kind, device_id, Some(s), transfer_id, owned).0
            == Ok::<u128, (u16, Seq<char>)>(device),
        control_text_outcome(later, other_user, kind, device_id, Some(s), transfer_id, owned).0
            == Err::<u128, (u16, Seq<char>)>((close::FORBIDDEN, "DEVICE_FORBIDDEN"@)),
        agent_text_outcome(later, device, user_id, AgentText::TerminalClose, Some(s), transfer_id).0
            == Ok::<AgentTextAction, (u16, Seq<char>)>(AgentTextAction::ForwardToControl),
        !agent_text_outcome(
            later,
            device,
            user_id,
            AgentText::TerminalClose,
            Some(s),
            transfer_id,
        ).1.dom().contains(s),
        control_text_outcome(later, user_id, ControlText::TerminalClose, device_id, Some(s), transfer_id, owned).0
            == Ok::<u128, (u16, Seq<char>)>(device),
        !control_text_outcome(
            later,
            user_id,
            ControlText::TerminalClose,
            device_id,
            Some(s),
            transfer_id,
            owned,
        ).1.dom().contains(s),
{
    assert(later.sessions().dom().contains(s));
    assert(later.sessions()[s] == Route { user_id, device_id: device });
}

/// Routes a session's terminal traffic both ways: with a session route for
/// `s` held by an account on an online device, the account's terminal-input
/// frames for `s` go to that device on the lane terminal traffic shares,
/// and the device's terminal-output frames for `s` go to that account;
/// another account's input for `s` is refused as forbidden.
pub proof fn lemma_session_frames_follow_the_route<H>(
    reg: Registry<H>,
    input: Seq<u8>,
    output: Seq<u8>,
    s: u128,
    user_id: u128,
    other_user: u128,
    device: u128,
)
    requires
        reg.sessions().dom().contains(s),
        reg.sessions()[s] == (Route { user_id, device_id: device }),
        reg.agents().dom().contains(device),
        other_user != user_id,
        decode_outcome(input) is Ok,
        decode_outcome(input)->Ok_0.kind == KIND_TERMINAL_INPUT,
        be_value(decode_outcome(input)->Ok_0.stream_id) == s,
        decode_outcome(output) is Ok,
        decode_outcome(output)->Ok_0.kind == KIND_TERMINAL_OUTPUT,
        be_value(decode_outcome(output)->Ok_0.stream_id) == s,
    ensures
        control_binary_outcome(reg, user_id, input) == Ok::<(Lane, u128), (u16, Seq<char>)>(
            (Lane::Control, device),
        ),
        control_binary_outcome(reg, other_user, input) == Err::<(Lane, u128), (u16, Seq<char>)>(
            (close::FORBIDDEN, "DEVICE_FORBIDDEN"@),
        ),
        agent_binary_outcome(reg, device, output) == Ok::<u128, (u16, Seq<char>)>(user_id),
{
}

/// File chunks follow the transfer's route: with a transfer route for `t`
/// held by an account on an online device, the account's chunks for `t` go
/// to that device on the lane only chunks use, whatever session routes
/// there are; once the agent reports the transfer's result the route is
/// gone and the same chunks are refused.
pub proof fn lemma_chunks_follow_the_transfer<H>(
    reg: Registry<H>,
    later: Registry<H>,
    chunk: Seq<u8>,
    t: u128,
    user_id: u128,
    device: u128,
    session_id: Option<u128>,
)
    requires
        reg.transfers().dom().contains(t),
        reg.transfers()[t] == (Route { user_id, device_id: device }),
        reg.agents().dom().contains(device),
        decode_outcome(chunk) is Ok,
        decode_outcome(chunk)->Ok_0.kind == KIND_FILE_CHUNK,
        be_value(decode_outcome(chunk)->Ok_0.stream_id) == t,
        later.agents() == reg.agents(),
        later.transfers() == agent_text_outcome(
            reg,
            device,
            user_id,
            AgentText::TransferResult,
            session_id,
            Some(t),
        ).2,
    ensures
        control_binary_outcome(reg, user_id, chunk) == Ok::<(Lane, u128), (u16, Seq<char>)>(
            (Lane::File, device),
        ),
        agent_text_outcome(reg, device, user_id, AgentText::TransferResult, session_id, Some(t)).0
            == Ok::<AgentTextAction, (u16, Seq<char>)>(AgentTextAction::ForwardToControl),
        control_binary_outcome(later, user_id, chunk) == Err::<(Lane, u128), (u16, Seq<char>)>(
            (close::FORBIDDEN, "DEVICE_FORBIDDEN"@),
        ),
{
}

/// A control end reaches a device only if its account owns the device and
/// the device is online: `terminal.open` and `transfer.start` naming no
/// device are protocol errors, naming another account's device is
/// forbidden, naming an offline one is refused as offline, and otherwise
/// they go to the named device; `terminal.open` opens no route (the agent's
/// `terminal.opened` does), and `transfer.start` opens the transfer's route
/// for the account.
pub proof fn lemma_opening_needs_ownership_and_liveness<H>(
    reg: Registry<H>,
    user_id: u128,
    kind: ControlText,
    device_id: Option<u128>,
    session_id: Option<u128>,
    transfer_id: Option<u128>,
    owned: bool,
)
    requires
        kind == ControlText::TerminalOpen || kind == ControlText::TransferStart,
    ensures
        ({
            let (r, sessions, transfers) = control_text_outcome(
                reg,
                user_id,
                kind,
                device_id,
                session_id,
                transfer_id,
                owned,
            );
            &&& sessions == reg.sessions()
            &&& device_id is None ==> r == Err::<u128, (u16, Seq<char>)>(
                (close::PROTOCOL, "PROTOCOL_ERROR"@),
            )
            &&& device_id is Some && !owned ==> r == Err::<u128, (u16, Seq<char>)>(
                (close::FORBIDDEN, "DEVICE_FORBIDDEN"@),
            )
            &&& device_id is Some && owned && !reg.agents().dom().contains(device_id->0) ==> r
                == Err::<u128, (u16, Seq<char>)>((close::FORBIDDEN, "DEVICE_OFFLINE"@))
            &&& device_id is Some && owned && reg.agents().dom().contains(device_id->0) && kind
                == ControlText::TerminalOpen ==> r == Ok::<u128, (u16, Seq<char>)>(device_id->0)
                && transfers == reg.transfers()
            &&& device_id is Some && owned && reg.agents().dom().contains(device_id->0) && kind
                == ControlText::TransferStart && transfer_id is Some ==> r == Ok::<
                u128,
                (u16, Seq<char>),
            >(device_id->0) && transfers == reg.transfers().insert(
                transfer_id->0,
                Route { user_id, device_id: device_id->0 },
            )
            &&& device_id is Some && owned && reg.agents().dom().contains(device_id->0) && kind
                == ControlText::TransferStart && transfer_id is None ==> r == Err::<
                u128,
                (u16, Seq<char>),
            >((close::PROTOCOL, "PROTOCOL_ERROR"@))
            &&& r is Err ==> transfers == reg.transfers()
        }),
{
}

/// Which of an agent socket's lanes a frame goes on.
#[derive(Debug, Clone, Copy, PartialEq, Eq, Structural)]
pub enum Lane {
    /// Terminal input, on the lane that terminal output shares.
    Control,
    /// A file chunk, on the lane that only chunks use.
    File,
}

/// Where a binary frame from a control end goes: terminal input to the
/// agent of a session the account owns, a file chunk to the agent of a
/// transfer it owns; nothing else may come from a control end.
pub open spec fn control_binary_outcome<H>(reg: Registry<H>, user_id: u128, bytes: Seq<u8>) -> Result<
    (Lane, u128),
    (u16, Seq<char>),
> {
    match decode_outcome(bytes) {
        Err(_) => Err((close::PROTOCOL, "PROTOCOL_ERROR"@)),
        Ok(f) => {
            let id = be_value(f.stream_id) as u128;
            let (lane, routes) = if f.kind == KIND_TERMINAL_INPUT {
                (Lane::Control, reg.sessions())
            } else {
                (Lane::File, reg.transfers())
            };
            if f.kind != KIND_TERMINAL_INPUT && f.kind != KIND_FILE_CHUNK {
                Err((close::PROTOCOL, "PROTOCOL_ERROR"@))
            } else {
                match owned_route(routes, id, user_id) {
                    None => Err((close::FORBIDDEN, "DEVICE_FORBIDDEN"@)),
                    Some(route) => if !reg.agents().dom().contains(route.device_id) {
                        Err((close::FORBIDDEN, "DEVICE_OFFLINE"@))
                    } else {
                        Ok((lane, route.device_id))
                    },
                }
            }
        },
    }
}

pub open spec fn lane_view(r: Result<(Lane, u128), Fault>) -> Result<(Lane, u128), (u16, Seq<char>)> {
    match r {
        Ok(v) => Ok(v),
        Err(f) => Err((f.code, f.reason@)),
    }
}

/// Routes a binary frame from a control end.
pub fn route_control_binary<H>(reg: &Registry<H>, user_id: u128, bytes: &[u8]) -> (r: Result<
    (Lane, u128),
    Fault,
>)
    ensures
        lane_view(r) == control_binary_outcome(*reg, user_id, bytes@),
{
    let frame = match decode(bytes) {
        Err(_) => return Err(fault(close::PROTOCOL, "PROTOCOL_ERROR")),
        Ok(frame) => frame,
    };
    let id = stream_key(&frame.stream_id);
    let (lane, found) = if frame.kind == KIND_TERMINAL_INPUT {
        (Lane::Control, reg.session_route(id))
    } else if frame.kind == KIND_FILE_CHUNK {
        (Lane::File, reg.transfer_route(id))
    } else {
        return Err(fault(close::PROTOCOL, "PROTOCOL_ERROR"));
    };
    let route = match found {
        Some(route) => if route.user_id == user_id {
            route
        } else {
            return Err(fault(close::FORBIDDEN, "DEVICE_FORBIDDEN"));
        },
        None => return Err(fault(close::FORBIDDEN, "DEVICE_FORBIDDEN")),
    };
    if !reg.is_online(route.device_id) {
        return Err(fault(close::FORBIDDEN, "DEVICE_OFFLINE"));
    }
    Ok((lane, route.device_id))
}

/// The messages an agent may send.
#[derive(Debug, Clone, Copy, PartialEq, Eq, Structural)]
pub enum AgentText {
    Hello,
    Heartbeat,
    TerminalOpened,
    TerminalClose,
    /// `terminal.error` and `terminal.shellEvent`.
    TerminalNotice,
    /// `transfer.accepted` and `transfer.credit`.
    TransferProgress,
    TransferResult,
    /// Anything else, control messages included.
    Other,
}

pub open spec fn agent_text_kind(t: Seq<char>) -> AgentText {
    if t == "agent.hello"@ {
        AgentText::Hello
    } else if t == "agent.heartbeat"@ {
        AgentText::Heartbeat
    } else if t == "terminal.opened"@ {
        AgentText::TerminalOpened
    } else if t == "terminal.close"@ {
        AgentText::TerminalClose
    } else if t == "terminal.error"@ || t == "terminal.shellEvent"@ {
        AgentText::TerminalNotice
    } else if t == "transfer.accepted"@ || t == "transfer.credit"@ {
        AgentText::TransferProgress
    } else if t == "transfer.result"@ {
        AgentText::TransferResult
    } else {
        AgentText::Other
    }
}

pub fn classify_agent_text(msg_type: &str) -> (r: AgentText)
    ensures
        r == agent_text_kind(msg_type@),
{
    if str_eq(msg_type, "agent.hello") {
        AgentText::Hello
    } else if str_eq(msg_type, "agent.heartbeat") {
        AgentText::Heartbeat
    } else if str_eq(msg_type, "terminal.opened") {
        AgentText::TerminalOpened
    } else if str_eq(msg_type, "terminal.close") {
        AgentText::TerminalClose
    } else if str_eq(msg_type, "terminal.error") || str_eq(msg_type, "terminal.shellEvent") {
        AgentText::TerminalNotice
    } else if str_eq(msg_type, "transfer.accepted") || str_eq(msg_type, "transfer.credit") {
        AgentText::TransferProgress
    } else if str_eq(msg_type, "transfer.result") {
        AgentText::TransferResult
    } else {
        AgentText::Other
    }
}

/// What the gateway does with an agent's text message once routed.
#[derive(Debug, Clone, Copy, PartialEq, Eq, Structural)]
pub enum AgentTextAction {
    /// Answer with `agent.helloAck`.
    AckHello,
    /// Nothing to pass on.
    Nothing,
    /// Pass the message to the account's control end, if it is connected.
    ForwardToControl,
}

/// What routing an agent's message of kind `kind` does to `reg`, with the
/// ids the message carries.
pub open spec fn agent_text_outcome<H>(
    reg: Registry<H>,
    device_id: u128,
    user_id: u128,
    kind: AgentText,
    session_id: Option<u128>,
    transfer_id: Option<u128>,
) -> (Result<AgentTextAction, (u16, Seq<char>)>, Map<u128, Route>, Map<u128, Route>) {
    let sessions = reg.sessions();
    let transfers = reg.transfers();
    let protocol = (close::PROTOCOL, "PROTOCOL_ERROR"@);
    match kind {
        AgentText::Hello => if reg.agents().dom().contains(device_id) {
            (Ok(AgentTextAction::AckHello), sessions, transfers)
        } else {
            (Err((close::INTERNAL, "RELAY_INTERNAL"@)), sessions, transfers)
        },
        AgentText::Heartbeat => (Ok(AgentTextAction::Nothing), sessions, transfers),
        AgentText::TerminalOpened => match session_id {
            None => (Err(protocol), sessions, transfers),
            Some(s) => (
                Ok(AgentTextAction::ForwardToControl),
                sessions.insert(s, Route { user_id, device_id }),
                transfers,
            ),
        },
        AgentText::TerminalClose => match session_id {
            None => (Err(protocol), sessions, transfers),
            Some(s) => (Ok(AgentTextAction::ForwardToControl), sessions.remove(s), transfers),
        },
        AgentText::TerminalNotice | AgentText::TransferProgress => (
            Ok(AgentTextAction::ForwardToControl),
            sessions,
            transfers,
        ),
        AgentText::TransferResult => match transfer_id {
            None => (Err(protocol), sessions, transfers),
            Some(t) => (Ok(AgentTextAction::ForwardToControl), sessions, transfers.remove(t)),
        },
        AgentText::Other => (Err(protocol), sessions, transfers),
    }
}

pub open spec fn action_view(r: Result<AgentTextAction, Fault>) -> Result<
    AgentTextAction,
    (u16, Seq<char>),
> {
    match r {
        Ok(a) => Ok(a),
        Err(f) => Err((f.code, f.reason@)),
    }
}

/// Routes a text message from an agent, opening and closing the routes it
/// reports.
pub fn route_agent_text<H>(
    reg: &mut Registry<H>,
    device_id: u128,
    user_id: u128,
    kind: AgentText,
    session_id: Option<u128>,
    transfer_id: Option<u128>,
) -> (r: Result<AgentTextAction, Fault>)
    ensures
        ({
            let (result, sessions, transfers) = agent_text_outcome(
                *old(reg),
                device_id,
                user_id,
                kind,
                session_id,
                transfer_id,
            );
            &&& action_view(r) == result
            &&& final(reg).sessions() == sessions
            &&& final(reg).transfers() == transfers
        }),
        final(reg).agents() == old(reg).agents(),
        final(reg).controls() == old(reg).controls(),
{
    match kind {
        AgentText::Hello => if reg.is_online(device_id) {
            Ok(AgentTextAction::AckHello)
        } else {
            Err(fault(close::INTERNAL, "RELAY_INTERNAL"))
        },
        AgentText::Heartbeat => Ok(AgentTextAction::Nothing),
        AgentText::TerminalOpened => match session_id {
            None => Err(fault(close::PROTOCOL, "PROTOCOL_ERROR")),
            Some(s) => {
                reg.open_session(s, Route { user_id, device_id });
                Ok(AgentTextAction::ForwardToControl)
            },
        },
        AgentText::TerminalClose => match session_id {
            None => Err(fault(close::PROTOCOL, "PROTOCOL_ERROR")),
            Some(s) => {
                reg.close_session(s);
                Ok(AgentTextAction::ForwardToControl)
            },
        },
        AgentText::TerminalNotice | AgentText::TransferProgress => Ok(
            AgentTextAction::ForwardToControl,
        ),
        AgentText::TransferResult => match transfer_id {
            None => Err(fault(close::PROTOCOL, "PROTOCOL_ERROR")),
            Some(t) => {
                reg.close_transfer(t);
                Ok(AgentTextAction::ForwardToControl)
            },
        },
        AgentText::Other => Err(fault(close::PROTOCOL, "PROTOCOL_ERROR")),
    }
}

/// An agent's reports reach its account: `terminal.error`,
/// `terminal.shellEvent`, `transfer.accepted` and `transfer.credit` are
/// passed on to the control end, as `terminal.opened` is, and leave every
/// route as it was, whatever the registry and the ids they carry.
pub proof fn lemma_agent_reports_reach_control<H>(
    reg: Registry<H>,
    device_id: u128,
    user_id: u128,
    msg_type: Seq<char>,
    session_id: Option<u128>,
    transfer_id: Option<u128>,
    opened_session: u128,
)
    requires
        msg_type == "terminal.error"@ || msg_type == "terminal.shellEvent"@
            || msg_type == "transfer.accepted"@ || msg_type == "transfer.credit"@,
    ensures
        agent_text_outcome(
            reg,
            device_id,
            user_id,
            agent_text_kind(msg_type),
            session_id,
            transfer_id,
        ) == (
            Ok::<AgentTextAction, (u16, Seq<char>)>(AgentTextAction::ForwardToControl),
            reg.sessions(),
            reg.transfers(),
        ),
        agent_text_outcome(
            reg,
            device_id,
            user_id,
            agent_text_kind(msg_type),
            session_id,
            transfer_id,
        ).0 == agent_text_outcome(
            reg,
            device_id,
            user_id,
            agent_text_kind("terminal.opened"@),
            Some(opened_session),
            transfer_id,
        ).0,
{
    reveal_strlit("terminal.error");
    reveal_strlit("terminal.shellEvent");
    reveal_strlit("transfer.accepted");
    reveal_strlit("transfer.credit");
    reveal_strlit("agent.hello");
    reveal_strlit("agent.heartbeat");
    reveal_strlit("terminal.opened");
    reveal_strlit("terminal.close");
    let hello = "agent.hello"@;
    let heartbeat = "agent.heartbeat"@;
    let opened = "terminal.opened"@;
    let close_t = "terminal.close"@;
    let error_t = "terminal.error"@;
    let shell = "terminal.shellEvent"@;
    let accepted = "transfer.accepted"@;
    let credit = "transfer.credit"@;
    // Texts that differ at one position are different texts.
    assert(opened[0] != hello[0] && opened[0] != heartbeat[0]);
    assert(agent_text_kind(opened) == AgentText::TerminalOpened);
    assert(error_t[0] != hello[0] && error_t[0] != heartbeat[0] && error_t[9] != opened[9]
        && error_t[9] != close_t[9]);
    assert(shell[0] != hello[0] && shell[0] != heartbeat[0] && shell[9] != opened[9]
        && shell[9] != close_t[9]);
    assert(accepted[0] != hello[0] && accepted[0] != heartbeat[0] && accepted[1] != opened[1]
        && accepted[1] != close_t[1] && accepted[1] != error_t[1] && accepted[1] != shell[1]);
    assert(credit[0] != hello[0] && credit[0] != heartbeat[0] && credit[1] != opened[1]
        && credit[1] != close_t[1] && credit[1] != error_t[1] && credit[1] != shell[1]);
    assert(agent_text_kind(error_t) == AgentText::TerminalNotice);
    assert(agent_text_kind(shell) == AgentText::TerminalNotice);
    assert(agent_text_kind(accepted) == AgentText::TransferProgress);
    assert(agent_text_kind(credit) == AgentText::TransferProgress);
}

/// An agent's hello is acknowledged exactly when its device is registered
/// online, a heartbeat asks for nothing, and neither touches a route; a
/// message that only a control end may send, such as `terminal.open`,
/// coming from an agent is a protocol error.
pub proof fn lemma_agent_hello_heartbeat_and_role<H>(
    reg: Registry<H>,
    device_id: u128,
    user_id: u128,
    session_id: Option<u128>,
    transfer_id: Option<u128>,
)
    ensures
        agent_text_outcome(reg, device_id, user_id, AgentText::Hello, session_id, transfer_id).0
            == if reg.agents().dom().contains(device_id) {
            Ok::<AgentTextAction, (u16, Seq<char>)>(AgentTextAction::AckHello)
        } else {
            Err::<AgentTextAction, (u16, Seq<char>)>((close::INTERNAL, "RELAY_INTERNAL"@))
        },
        agent_text_outcome(reg, device_id, user_id, AgentText::Heartbeat, session_id, transfer_id)
            == (
            Ok::<AgentTextAction, (u16, Seq<char>)>(AgentTextAction::Nothing),
            reg.sessions(),
            reg.transfers(),
        ),
        agent_text_outcome(
            reg,
            device_id,
            user_id,
            agent_text_kind("terminal.open"@),
            session_id,
            transfer_id,
        ) == (
            Err::<AgentTextAction, (u16, Seq<char>)>((close::PROTOCOL, "PROTOCOL_ERROR"@)),
            reg.sessions(),
            reg.transfers(),
        ),
{
    reveal_strlit("terminal.open");
    reveal_strlit("terminal.error");
    reveal_strlit("terminal.shellEvent");
    reveal_strlit("transfer.accepted");
    reveal_strlit("transfer.credit");
    reveal_strlit("agent.hello");
    reveal_strlit("agent.heartbeat");
    reveal_strlit("terminal.opened");
    reveal_strlit("terminal.close");
    reveal_strlit("transfer.result");
    let t = "terminal.open"@;
    assert(t.len() != "terminal.opened"@.len());
    assert(t[0] != "agent.hello"@[0] && t[0] != "agent.heartbeat"@[0]);
    assert(t[9] != "terminal.close"@[9] && t[9] != "terminal.error"@[9]
        && t[9] != "terminal.shellEvent"@[9]);
    assert(t[1] != "transfer.accepted"@[1] && t[1] != "transfer.credit"@[1]
        && t[1] != "transfer.result"@[1]);
    assert(agent_text_kind(t) == AgentText::Other);
}

/// Where a binary frame from an agent goes: terminal output of one of the
/// device's own sessions goes to the account that holds the session;
/// anything else is a protocol error.
pub open spec fn agent_binary_outcome<H>(reg: Registry<H>, device_id: u128, bytes: Seq<u8>) -> Result<
    u128,
    (u16, Seq<char>),
> {
    match decode_outcome(bytes) {
        Err(_) => Err((close::PROTOCOL, "PROTOCOL_ERROR"@)),
        Ok(f) => {
            let id = be_value(f.stream_id) as u128;
            if f.kind != KIND_TERMINAL_OUTPUT {
                Err((close::PROTOCOL, "PROTOCOL_ERROR"@))
            } else if reg.sessions().dom().contains(id) && reg.sessions()[id].device_id == device_id {
                Ok(reg.sessions()[id].user_id)
            } else {
                Err((close::PROTOCOL, "PROTOCOL_ERROR"@))
            }
        },
    }
}

/// Routes a binary frame from an agent to the account it belongs to.
pub fn route_agent_binary<H>(reg: &Registry<H>, device_id: u128, bytes: &[u8]) -> (r: Result<
    u128,
    Fault,
>)
    ensures
        fault_view(r) == agent_binary_outcome(*reg, device_id, bytes@),
{
    let frame = match decode(bytes) {
        Err(_) => return Err(fault(close::PROTOCOL, "PROTOCOL_ERROR")),
        Ok(frame) => frame,
    };
    if frame.kind != KIND_TERMINAL_OUTPUT {
        return Err(fault(close::PROTOCOL, "PROTOCOL_ERROR"));
    }
    let id = stream_key(&frame.stream_id);
    match reg.session_route(id) {
        Some(route) => if route.device_id == device_id {
            Ok(route.user_id)
        } else {
            Err(fault(close::PROTOCOL, "PROTOCOL_ERROR"))
        },
        None => Err(fault(close::PROTOCOL, "PROTOCOL_ERROR")),
    }
}

/// The credential of an agent handshake, `Device <id>.<token>`: the id as
/// `uuid` reads it and the token. Anything else is no credential.
pub open spec fn device_credential(header: Seq<char>) -> Option<(u128, Seq<char>)> {
    let prefix = "Device "@;
    if header.len() < 7 || header.subrange(0, 7) != prefix {
        None
    } else {
        let c = trimmed(header.subrange(7, header.len() as int));
        if exists|i: int| 0 <= i < c.len() && c[i] == '.' {
            let i = choose|i: int|
                0 <= i < c.len() && c[i] == '.' && forall|j: int| 0 <= j < i ==> c[j] != '.';
            match uuid_value(c.subrange(0, i)) {
                Some(id) => Some((id, c.subrange(i + 1, c.len() as int))),
                None => None,
            }
        } else {
            None
        }
    }
}

/// Reads the credential of an agent handshake from its `Authorization`
/// header.
pub fn parse_device_credential(header: &str) -> (r: Option<(u128, String)>)
    ensures
        match device_credential(header@) {
            None => r is None,
            Some((id, token)) => r matches Some((i, t)) && i == id && t@ == token,
        },
{
    let v = chars_of(header);
    proof {
        reveal_strlit("Device ");
    }
    if v.len() < 7 || !(v[0] == 'D' && v[1] == 'e' && v[2] == 'v' && v[3] == 'i' && v[4] == 'c'
        && v[5] == 'e' && v[6] == ' ') {
        proof {
            if v@.len() >= 7 && header@.subrange(0, 7) == "Device "@ {
                assert(header@.subrange(0, 7)[0] == v@[0]);
                assert(header@.subrange(0, 7)[1] == v@[1]);
                assert(header@.subrange(0, 7)[2] == v@[2]);
                assert(header@.subrange(0, 7)[3] == v@[3]);
                assert(header@.subrange(0, 7)[4] == v@[4]);
                assert(header@.subrange(0, 7)[5] == v@[5]);
                assert(header@.subrange(0, 7)[6] == v@[6]);
            }
        }
        return None;
    }
    assert(header@.subrange(0, 7) =~= "Device "@);
    let rest = string_from_chars(v.as_slice().split_at(7).1);
    assert(rest@ =~= header@.subrange(7, header@.len() as int));
    let c = trim_chars(rest.as_str());
    let mut i: usize = 0;
    while i < c.len() && c[i] != '.'
        invariant
            i <= c.len(),
            forall|j: int| 0 <= j < i ==> c@[j] != '.',
        decreases c.len() - i,
    {
        i = i + 1;
    }
    if i == c.len() {
        return None;
    }
    let ghost k = choose|k: int| 0 <= k < c@.len() && c@[k] == '.' && forall|j: int| 0 <= j < k ==> c@[j] != '.';
    assert(0 <= i < c@.len() && c@[i as int] == '.' && forall|j: int| 0 <= j < i ==> c@[j] != '.');
    assert(k == i) by {
        if k < i {
            assert(c@[k] != '.');
        }
        if k > i {
            assert(c@[i as int] != '.');
        }
    }
    let (head, tail) = c.as_slice().split_at(i);
    let id_text = string_from_chars(head);
    let token = string_from_chars(tail.split_at(1).1);
    assert(id_text@ =~= c@.subrange(0, i as int));
    assert(token@ =~= c@.subrange(i + 1, c@.len() as int));
    match parse_uuid(id_text.as_str()) {
        Some(id) => Some((id, token)),
        None => None,
    }
}

} // verus!
