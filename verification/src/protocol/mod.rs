//! The wire protocol shared by the relay, the agent and the control end:
//! the binary frame codec and the JSON control messages.

pub mod frame;
pub mod messages;
pub mod patterns;
