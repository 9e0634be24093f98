//! The WebSocket gateway: its constants, close codes and reasons, the
//! scheduling of a socket's two outbound lanes, and the registry of live
//! connections and routes.

use vstd::prelude::*;
use crate::text::{chars_of, concat, cut_to_bytes, is_char_boundary_at, string_from_chars};

pub mod close;
pub mod registry;
pub mod routing;
pub mod table;

verus! {

/// The WebSocket subprotocol both ends must offer.
pub const SUBPROTOCOL: &'static str = "termy.v1";
pub const HEARTBEAT_INTERVAL_MS: u64 = 20000;
/// No heartbeat or pong within this many seconds means the agent is offline.
pub const AGENT_OFFLINE_TIMEOUT_SECS: u64 = 50;
/// The largest control frame accepted.
pub const MAX_CONTROL_FRAME_BYTES: usize = 65536;
/// How much terminal and control traffic a socket writer sends before it
/// lets one file chunk through.
pub const TERMINAL_DRAIN_BUDGET: usize = 65536;
/// The longest close reason, in bytes.
pub const MAX_CLOSE_REASON_BYTES: usize = 123;

/// The rate-limit key of a WebSocket upgrade from one address.
pub fn ws_upgrade_rate_key(ip: &str) -> (r: String)
    ensures
        r@ == "ws-upgrade:"@ + ip@,
{
    concat("ws-upgrade:", ip)
}

/// Whether an agent last heard from at `last_seen` is offline at `now`
/// (both in nanoseconds of the relay's clock): silent for more than the
/// timeout. A clock reading before `last_seen` counts as no silence.
pub fn agent_timed_out(now: u128, last_seen: u128) -> (r: bool)
    ensures
        r == (now > last_seen && now - last_seen > AGENT_OFFLINE_TIMEOUT_SECS * 1_000_000_000),
{
    now > last_seen && now - last_seen > 50_000_000_000
}

/// A close reason carries a stable error code and nothing else, cut to the
/// 123 bytes a close frame allows; the cut must not fall inside a character
/// (std's `String::truncate` panics there).
pub fn close_reason(code: &str) -> (r: String)
    requires
        is_char_boundary_at(code@, MAX_CLOSE_REASON_BYTES as nat),
    ensures
        r@ == cut_to_bytes(code@, MAX_CLOSE_REASON_BYTES as nat),
{
    let v = chars_of(code);
    let cut = crate::text::cut_chars(&v, MAX_CLOSE_REASON_BYTES);
    string_from_chars(cut.as_slice())
}

/// Where a socket writer stands in its round over the two lanes.
#[derive(Debug, Clone, Copy, PartialEq, Eq, Structural)]
pub enum WriterPhase {
    /// Draining the control lane; `drained` bytes sent this round, and
    /// whether anything was sent this round.
    Control { drained: usize, sent_any: bool },
    /// The file lane gets its one message of the round.
    File { sent_any: bool },
    /// Both lanes were empty: waiting on both, control first.
    Idle,
    /// A lane closed or the socket is finished.
    Stopped,
}

/// What the writer learned from its last look at a lane.
#[derive(Debug, Clone, Copy, PartialEq, Eq, Structural)]
pub enum LaneEvent {
    /// A message of `len` bytes was taken and sent; `finished` when the
    /// socket is done with (a send failed or a close went out).
    Sent { len: usize, finished: bool },
    /// The lane held nothing.
    Empty,
    /// The lane's senders are all gone.
    Disconnected,
}

/// What the writer does next.
#[derive(Debug, Clone, Copy, PartialEq, Eq, Structural)]
pub enum WriterAction {
    TryControl,
    TryFile,
    /// Wait for either lane, control first.
    Wait,
    Stop,
}

/// The action a phase calls for.
pub open spec fn phase_action(p: WriterPhase) -> WriterAction {
    match p {
        WriterPhase::Control { drained, sent_any } => if drained < TERMINAL_DRAIN_BUDGET {
            WriterAction::TryControl
        } else {
            WriterAction::TryFile
        },
        WriterPhase::File { .. } => WriterAction::TryFile,
        WriterPhase::Idle => WriterAction::Wait,
        WriterPhase::Stopped => WriterAction::Stop,
    }
}

pub fn next_action(p: WriterPhase) -> (r: WriterAction)
    ensures
        r == phase_action(p),
{
    match p {
        WriterPhase::Control { drained, sent_any } => if drained < TERMINAL_DRAIN_BUDGET {
            WriterAction::TryControl
        } else {
            WriterAction::TryFile
        },
        WriterPhase::File { .. } => WriterAction::TryFile,
        WriterPhase::Idle => WriterAction::Wait,
        WriterPhase::Stopped => WriterAction::Stop,
    }
}

/// The phase after the writer, in phase `p`, took the action `p` calls for
/// and saw `e`. Terminal and control traffic go first, but after at most
/// the drain budget of it the file lane gets one message, so a chatty
/// terminal cannot starve a transfer; once a round sends nothing the writer
/// waits on both lanes.
pub open spec fn phase_after(p: WriterPhase, e: LaneEvent) -> WriterPhase {
    match e {
        LaneEvent::Disconnected => WriterPhase::Stopped,
        LaneEvent::Sent { finished: true, .. } => WriterPhase::Stopped,
        LaneEvent::Sent { len, finished: false } => match p {
            WriterPhase::Control { drained, sent_any } => if drained < TERMINAL_DRAIN_BUDGET {
                WriterPhase::Control {
                    drained: if drained + len > usize::MAX { usize::MAX } else { (drained + len) as usize },
                    sent_any: true,
                }
            } else {
                WriterPhase::Control { drained: 0, sent_any: false }
            },
            WriterPhase::File { .. } => WriterPhase::Control { drained: 0, sent_any: false },
            WriterPhase::Idle => WriterPhase::Control { drained: 0, sent_any: false },
            WriterPhase::Stopped => WriterPhase::Stopped,
        },
        LaneEvent::Empty => match p {
            WriterPhase::Control { drained, sent_any } => if drained < TERMINAL_DRAIN_BUDGET {
                WriterPhase::File { sent_any }
            } else if sent_any {
                WriterPhase::Control { drained: 0, sent_any: false }
            } else {
                WriterPhase::Idle
            },
            WriterPhase::File { sent_any } => if sent_any {
                WriterPhase::Control { drained: 0, sent_any: false }
            } else {
                WriterPhase::Idle
            },
            WriterPhase::Idle => WriterPhase::Idle,
            WriterPhase::Stopped => WriterPhase::Stopped,
        },
    }
}

pub fn writer_step(p: WriterPhase, e: LaneEvent) -> (r: WriterPhase)
    ensures
        r == phase_after(p, e),
{
    match e {
        LaneEvent::Disconnected => WriterPhase::Stopped,
        LaneEvent::Sent { len, finished } => {
            if finished {
                return WriterPhase::Stopped;
            }
            match p {
                WriterPhase::Control { drained, sent_any } => if drained < TERMINAL_DRAIN_BUDGET {
                    WriterPhase::Control { drained: drained.saturating_add(len), sent_any: true }
                } else {
                    WriterPhase::Control { drained: 0, sent_any: false }
                },
                WriterPhase::File { .. } => WriterPhase::Control { drained: 0, sent_any: false },
                WriterPhase::Idle => WriterPhase::Control { drained: 0, sent_any: false },
                WriterPhase::Stopped => WriterPhase::Stopped,
            }
        },
        LaneEvent::Empty => match p {
            WriterPhase::Control { drained, sent_any } => if drained < TERMINAL_DRAIN_BUDGET {
                WriterPhase::File { sent_any }
            } else if sent_any {
                WriterPhase::Control { drained: 0, sent_any: false }
            } else {
                WriterPhase::Idle
            },
            WriterPhase::File { sent_any } => if sent_any {
                WriterPhase::Control { drained: 0, sent_any: false }
            } else {
                WriterPhase::Idle
            },
            WriterPhase::Idle => WriterPhase::Idle,
            WriterPhase::Stopped => WriterPhase::Stopped,
        },
    }
}

/// Whether every message of `lens`, taken in turn from phase `p`, is one the
/// writer took from the control lane.
pub open spec fn all_from_control(p: WriterPhase, lens: Seq<usize>) -> bool
    decreases lens.len(),
{
    if lens.len() == 0 {
        true
    } else {
        &&& phase_action(p) == WriterAction::TryControl
        &&& all_from_control(
            phase_after(p, LaneEvent::Sent { len: lens[0], finished: false }),
            lens.drop_first(),
        )
    }
}

/// The file lane is never starved: from a control phase that has drained
/// `drained` bytes this round, a run of control messages of at least one
/// byte each that the writer sends before it next tries the file lane has
/// at most `TERMINAL_DRAIN_BUDGET - drained` messages.
pub proof fn lemma_file_lane_gets_a_turn(drained: usize, sent_any: bool, lens: Seq<usize>)
    requires
        all_from_control(WriterPhase::Control { drained, sent_any }, lens),
        lens.len() > 0,
        forall|i: int| 0 <= i < lens.len() ==> #[trigger] lens[i] >= 1,
    ensures
        drained + lens.len() <= TERMINAL_DRAIN_BUDGET,
    decreases lens.len(),
{
    let next = phase_after(
        WriterPhase::Control { drained, sent_any },
        LaneEvent::Sent { len: lens[0], finished: false },
    );
    let rest = lens.drop_first();
    assert(lens[0] >= 1);
    if rest.len() > 0 {
        assert forall|i: int| 0 <= i < rest.len() implies #[trigger] rest[i] >= 1 by {
            assert(rest[i] == lens[i + 1]);
        }
        match next {
            WriterPhase::Control { drained: d2, sent_any: s2 } => {
                lemma_file_lane_gets_a_turn(d2, s2, rest);
            },
            _ => {},
        }
    }
}

} // verus!
