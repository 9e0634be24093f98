//! Agent-side logic: receive-path safety, the terminal stream codec, the
//! session slot and the values the agent reports.

use vstd::prelude::*;

pub mod client;
pub mod config;
pub mod identity;
pub mod paths;
pub mod pty;
pub mod register;
pub mod state;
pub mod termstream;

verus! {

/// Whether `\` separates path components on this host, which is so on
/// Windows alone (std's `std::path::is_separator`); the answer depends on
/// the platform the agent was built for.
#[verifier::external_body]
pub(crate) fn host_is_windows() -> (r: bool) {
    std::path::is_separator('\\')
}

/// Why an agent operation failed.
#[derive(Debug)]
pub enum AgentError {
    /// The configuration is missing, unreadable or invalid.
    Config(String),
    /// The peer broke the protocol.
    Protocol(String),
    /// The pseudo-terminal could not be set up or driven.
    Pty(String),
}

/// An agent error with its text taken as characters.
pub ghost enum AgentFault {
    Config(Seq<char>),
    Protocol(Seq<char>),
    Pty(Seq<char>),
}

impl View for AgentError {
    type V = AgentFault;

    open spec fn view(&self) -> AgentFault {
        match self {
            AgentError::Config(m) => AgentFault::Config(m@),
            AgentError::Protocol(m) => AgentFault::Protocol(m@),
            AgentError::Pty(m) => AgentFault::Pty(m@),
        }
    }
}

} // verus!
