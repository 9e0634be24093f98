//! The status the agent records for `termy-agent status` to read. It holds
//! no device token.

use vstd::prelude::*;

verus! {

/// Where the agent's connection to the relay stands.
#[derive(Debug, Clone, Copy, PartialEq, Eq, Structural)]
pub enum ConnectionState {
    Connecting,
    Connected,
    Disconnected,
}

impl ConnectionState {
    /// The lowercase name the status file uses.
    pub open spec fn name(self) -> Seq<char> {
        match self {
            ConnectionState::Connecting => "connecting"@,
            ConnectionState::Connected => "connected"@,
            ConnectionState::Disconnected => "disconnected"@,
        }
    }

    pub fn as_str(self) -> (r: &'static str)
        ensures
            r@ == self.name(),
    {
        match self {
            ConnectionState::Connecting => "connecting",
            ConnectionState::Connected => "connected",
            ConnectionState::Disconnected => "disconnected",
        }
    }
}

/// What the running agent last recorded.
#[derive(Debug, Clone, PartialEq, Eq)]
pub struct AgentState {
    pub pid: u32,
    pub connection: ConnectionState,
    pub last_connected_at: Option<String>,
    pub last_disconnected_at: Option<String>,
    pub session_active: bool,
    /// Set when the relay refused the device token, so that the status can
    /// say the agent needs binding again.
    pub needs_rebind: bool,
}

impl AgentState {
    /// The state of a process `pid` that has only started connecting.
    pub fn new(pid: u32) -> (r: Self)
        ensures
            r.pid == pid,
            r.connection == ConnectionState::Connecting,
            r.last_connected_at is None,
            r.last_disconnected_at is None,
            !r.session_active,
            !r.needs_rebind,
    {
        AgentState {
            pid,
            connection: ConnectionState::Connecting,
            last_connected_at: None,
            last_disconnected_at: None,
            session_active: false,
            needs_rebind: false,
        }
    }
}

} // verus!
