//! Termy remote: the verified core of the relay, the agent and the wire
//! protocol they share.

pub mod agent;
pub mod encoding;
pub mod ids;
pub mod protocol;
pub mod relay;
pub mod text;
