//! The JSON control messages of the wire protocol as typed values.
//!
//! Every message carries the same envelope (`protocolVersion`, `type`,
//! `requestId`, `deviceId`, `sessionId`) around a typed payload. Each
//! constrained field has a type of its own whose values all meet the schema:
//! pinned integers, identifiers, versions, paths and bounded strings can
//! only be made through their checked constructors. JSON text is read and
//! written by the applications around this library.

use vstd::prelude::*;
use crate::protocol::patterns::{
    check_safe_relative_path, check_semver, check_uuid, is_safe_relative_path_text,
    is_semver_text, is_uuid_text,
};
use crate::text::{chars_of, str_eq};
use self::error::ConversionError;
use self::supply::Supply;

pub mod builder;
pub mod error;
pub mod supply;

verus! {

/// The `agent.heartbeat` message.
#[derive(Clone, Debug)]
pub struct AgentHeartbeatMessage {
    pub device_id: Uuid,
    pub payload: AgentHeartbeatMessagePayload,
    pub protocol_version: AgentHeartbeatMessageProtocolVersion,
    pub request_id: Null,
    pub session_id: Null,
    pub type_: AgentHeartbeatMessageType,
}

impl AgentHeartbeatMessage {
    /// A builder with every field still unset.
    pub fn builder() -> (r: builder::AgentHeartbeatMessage)
        ensures
            r.all_unset(),
    {
        builder::AgentHeartbeatMessage::default()
    }
}

/// The payload of the `agent.heartbeat` message.
#[derive(Clone, Debug)]
pub struct AgentHeartbeatMessagePayload {
    pub timestamp: DateTime,
}

impl AgentHeartbeatMessagePayload {
    /// A builder with every field still unset.
    pub fn builder() -> (r: builder::AgentHeartbeatMessagePayload)
        ensures
            r.all_unset(),
    {
        builder::AgentHeartbeatMessagePayload::default()
    }
}

/// The `agent.helloAck` message.
#[derive(Clone, Debug)]
pub struct AgentHelloAckMessage {
    pub device_id: Uuid,
    pub payload: AgentHelloAckMessagePayload,
    pub protocol_version: AgentHelloAckMessageProtocolVersion,
    pub request_id: Uuid,
    pub session_id: Null,
    pub type_: AgentHelloAckMessageType,
}

impl AgentHelloAckMessage {
    /// A builder with every field still unset.
    pub fn builder() -> (r: builder::AgentHelloAckMessage)
        ensures
            r.all_unset(),
    {
        builder::AgentHelloAckMessage::default()
    }
}

/// The payload of the `agent.helloAck` message.
#[derive(Clone, Debug)]
pub struct AgentHelloAckMessagePayload {
    pub heartbeat_interval_ms: AgentHelloAckMessagePayloadHeartbeatIntervalMs,
    pub server_time: DateTime,
}

impl AgentHelloAckMessagePayload {
    /// A builder with every field still unset.
    pub fn builder() -> (r: builder::AgentHelloAckMessagePayload)
        ensures
            r.all_unset(),
    {
        builder::AgentHelloAckMessagePayload::default()
    }
}

/// The `agent.hello` message.
#[derive(Clone, Debug)]
pub struct AgentHelloMessage {
    pub device_id: Uuid,
    pub payload: AgentHelloMessagePayload,
    pub protocol_version: AgentHelloMessageProtocolVersion,
    pub request_id: Uuid,
    pub session_id: Null,
    pub type_: AgentHelloMessageType,
}

impl AgentHelloMessage {
    /// A builder with every field still unset.
    pub fn builder() -> (r: builder::AgentHelloMessage)
        ensures
            r.all_unset(),
    {
        builder::AgentHelloMessage::default()
    }
}

/// The payload of the `agent.hello` message.
#[derive(Clone, Debug)]
pub struct AgentHelloMessagePayload {
    pub agent_version: Semver,
    pub capabilities: Vec<Capability>,
    pub platform: Platform,
}

impl AgentHelloMessagePayload {
    /// A builder with every field still unset.
    pub fn builder() -> (r: builder::AgentHelloMessagePayload)
        ensures
            r.all_unset(),
    {
        builder::AgentHelloMessagePayload::default()
    }
}

/// One file of a transfer: its index in the batch, its path and its size.
#[derive(Clone, Debug)]
pub struct FileEntry {
    pub index: FileIndex,
    pub relative_path: SafeRelativePath,
    pub size: FileSize,
}

impl FileEntry {
    /// A builder with every field still unset.
    pub fn builder() -> (r: builder::FileEntry)
        ensures
            r.all_unset(),
    {
        builder::FileEntry::default()
    }
}

/// The `terminal.close` message.
#[derive(Clone, Debug)]
pub struct TerminalCloseMessage {
    pub device_id: Uuid,
    pub payload: TerminalCloseMessagePayload,
    pub protocol_version: TerminalCloseMessageProtocolVersion,
    pub request_id: Null,
    pub session_id: Uuid,
    pub type_: TerminalCloseMessageType,
}

impl TerminalCloseMessage {
    /// A builder with every field still unset.
    pub fn builder() -> (r: builder::TerminalCloseMessage)
        ensures
            r.all_unset(),
    {
        builder::TerminalCloseMessage::default()
    }
}

/// The payload of the `terminal.close` message.
#[derive(Clone, Debug)]
pub struct TerminalCloseMessagePayload {
    pub exit_code: Option<i32>,
    pub reason: TerminalCloseReason,
}

impl TerminalCloseMessagePayload {
    /// A builder with every field still unset.
    pub fn builder() -> (r: builder::TerminalCloseMessagePayload)
        ensures
            r.all_unset(),
    {
        builder::TerminalCloseMessagePayload::default()
    }
}

/// The `terminal.error` message.
#[derive(Clone, Debug)]
pub struct TerminalErrorMessage {
    pub device_id: Uuid,
    pub payload: TerminalErrorMessagePayload,
    pub protocol_version: TerminalErrorMessageProtocolVersion,
    pub request_id: UuidOrNull,
    pub session_id: UuidOrNull,
    pub type_: TerminalErrorMessageType,
}

impl TerminalErrorMessage {
    /// A builder with every field still unset.
    pub fn builder() -> (r: builder::TerminalErrorMessage)
        ensures
            r.all_unset(),
    {
        builder::TerminalErrorMessage::default()
    }
}

/// The payload of the `terminal.error` message.
#[derive(Clone, Debug)]
pub struct TerminalErrorMessagePayload {
    pub code: ErrorCode,
    pub message: TerminalErrorMessagePayloadMessage,
}

impl TerminalErrorMessagePayload {
    /// A builder with every field still unset.
    pub fn builder() -> (r: builder::TerminalErrorMessagePayload)
        ensures
            r.all_unset(),
    {
        builder::TerminalErrorMessagePayload::default()
    }
}

/// The `terminal.open` message.
#[derive(Clone, Debug)]
pub struct TerminalOpenMessage {
    pub device_id: Uuid,
    pub payload: TerminalOpenMessagePayload,
    pub protocol_version: TerminalOpenMessageProtocolVersion,
    pub request_id: Uuid,
    pub session_id: Null,
    pub type_: TerminalOpenMessageType,
}

impl TerminalOpenMessage {
    /// A builder with every field still unset.
    pub fn builder() -> (r: builder::TerminalOpenMessage)
        ensures
            r.all_unset(),
    {
        builder::TerminalOpenMessage::default()
    }
}

/// The payload of the `terminal.open` message.
#[derive(Clone, Debug)]
pub struct TerminalOpenMessagePayload {
    pub cols: Cols,
    pub rows: Rows,
}

impl TerminalOpenMessagePayload {
    /// A builder with every field still unset.
    pub fn builder() -> (r: builder::TerminalOpenMessagePayload)
        ensures
            r.all_unset(),
    {
        builder::TerminalOpenMessagePayload::default()
    }
}

/// The `terminal.opened` message.
#[derive(Clone, Debug)]
pub struct TerminalOpenedMessage {
    pub device_id: Uuid,
    pub payload: TerminalOpenedMessagePayload,
    pub protocol_version: TerminalOpenedMessageProtocolVersion,
    pub request_id: Uuid,
    pub session_id: Uuid,
    pub type_: TerminalOpenedMessageType,
}

impl TerminalOpenedMessage {
    /// A builder with every field still unset.
    pub fn builder() -> (r: builder::TerminalOpenedMessage)
        ensures
            r.all_unset(),
    {
        builder::TerminalOpenedMessage::default()
    }
}

/// The payload of the `terminal.opened` message.
#[derive(Clone, Debug)]
pub struct TerminalOpenedMessagePayload {
    pub shell: TerminalOpenedMessagePayloadShell,
}

impl TerminalOpenedMessagePayload {
    /// A builder with every field still unset.
    pub fn builder() -> (r: builder::TerminalOpenedMessagePayload)
        ensures
            r.all_unset(),
    {
        builder::TerminalOpenedMessagePayload::default()
    }
}

/// The `terminal.resize` message.
#[derive(Clone, Debug)]
pub struct TerminalResizeMessage {
    pub device_id: Uuid,
    pub payload: TerminalResizeMessagePayload,
    pub protocol_version: TerminalResizeMessageProtocolVersion,
    pub request_id: Null,
    pub session_id: Uuid,
    pub type_: TerminalResizeMessageType,
}

impl TerminalResizeMessage {
    /// A builder with every field still unset.
    pub fn builder() -> (r: builder::TerminalResizeMessage)
        ensures
            r.all_unset(),
    {
        builder::TerminalResizeMessage::default()
    }
}

/// The payload of the `terminal.resize` message.
#[derive(Clone, Debug)]
pub struct TerminalResizeMessagePayload {
    pub cols: Cols,
    pub rows: Rows,
}

impl TerminalResizeMessagePayload {
    /// A builder with every field still unset.
    pub fn builder() -> (r: builder::TerminalResizeMessagePayload)
        ensures
            r.all_unset(),
    {
        builder::TerminalResizeMessagePayload::default()
    }
}

/// The `terminal.shellEvent` message.
#[derive(Clone, Debug)]
pub struct TerminalShellEventMessage {
    pub device_id: Uuid,
    pub payload: TerminalShellEventMessagePayload,
    pub protocol_version: TerminalShellEventMessageProtocolVersion,
    pub request_id: Null,
    pub session_id: Uuid,
    pub type_: TerminalShellEventMessageType,
}

impl TerminalShellEventMessage {
    /// A builder with every field still unset.
    pub fn builder() -> (r: builder::TerminalShellEventMessage)
        ensures
            r.all_unset(),
    {
        builder::TerminalShellEventMessage::default()
    }
}

/// The payload of the `terminal.shellEvent` message.
#[derive(Clone, Debug)]
pub struct TerminalShellEventMessagePayload {
    pub exit_code: Option<i32>,
    pub source: ShellEventSource,
    pub type_: ShellEventName,
}

impl TerminalShellEventMessagePayload {
    /// A builder with every field still unset.
    pub fn builder() -> (r: builder::TerminalShellEventMessagePayload)
        ensures
            r.all_unset(),
    {
        builder::TerminalShellEventMessagePayload::default()
    }
}

/// The `transfer.abort` message.
#[derive(Clone, Debug)]
pub struct TransferAbortMessage {
    pub device_id: Uuid,
    pub payload: TransferAbortMessagePayload,
    pub protocol_version: TransferAbortMessageProtocolVersion,
    pub request_id: Null,
    pub session_id: Null,
    pub type_: TransferAbortMessageType,
}

impl TransferAbortMessage {
    /// A builder with every field still unset.
    pub fn builder() -> (r: builder::TransferAbortMessage)
        ensures
            r.all_unset(),
    {
        builder::TransferAbortMessage::default()
    }
}

/// The payload of the `transfer.abort` message.
#[derive(Clone, Debug)]
pub struct TransferAbortMessagePayload {
    pub code: ErrorCode,
    pub transfer_id: Uuid,
}

impl TransferAbortMessagePayload {
    /// A builder with every field still unset.
    pub fn builder() -> (r: builder::TransferAbortMessagePayload)
        ensures
            r.all_unset(),
    {
        builder::TransferAbortMessagePayload::default()
    }
}

/// The `transfer.accepted` message.
#[derive(Clone, Debug)]
pub struct TransferAcceptedMessage {
    pub device_id: Uuid,
    pub payload: TransferAcceptedMessagePayload,
    pub protocol_version: TransferAcceptedMessageProtocolVersion,
    pub request_id: Uuid,
    pub session_id: Null,
    pub type_: TransferAcceptedMessageType,
}

impl TransferAcceptedMessage {
    /// A builder with every field still unset.
    pub fn builder() -> (r: builder::TransferAcceptedMessage)
        ensures
            r.all_unset(),
    {
        builder::TransferAcceptedMessage::default()
    }
}

/// The payload of the `transfer.accepted` message.
#[derive(Clone, Debug)]
pub struct TransferAcceptedMessagePayload {
    pub granted_bytes: i64,
    pub transfer_id: Uuid,
}

impl TransferAcceptedMessagePayload {
    /// A builder with every field still unset.
    pub fn builder() -> (r: builder::TransferAcceptedMessagePayload)
        ensures
            r.all_unset(),
    {
        builder::TransferAcceptedMessagePayload::default()
    }
}

/// The `transfer.complete` message.
#[derive(Clone, Debug)]
pub struct TransferCompleteMessage {
    pub device_id: Uuid,
    pub payload: TransferCompleteMessagePayload,
    pub protocol_version: TransferCompleteMessageProtocolVersion,
    pub request_id: Null,
    pub session_id: Null,
    pub type_: TransferCompleteMessageType,
}

impl TransferCompleteMessage {
    /// A builder with every field still unset.
    pub fn builder() -> (r: builder::TransferCompleteMessage)
        ensures
            r.all_unset(),
    {
        builder::TransferCompleteMessage::default()
    }
}

/// The payload of the `transfer.complete` message.
#[derive(Clone, Debug)]
pub struct TransferCompleteMessagePayload {
    pub transfer_id: Uuid,
}

impl TransferCompleteMessagePayload {
    /// A builder with every field still unset.
    pub fn builder() -> (r: builder::TransferCompleteMessagePayload)
        ensures
            r.all_unset(),
    {
        builder::TransferCompleteMessagePayload::default()
    }
}

/// The `transfer.credit` message.
#[derive(Clone, Debug)]
pub struct TransferCreditMessage {
    pub device_id: Uuid,
    pub payload: TransferCreditMessagePayload,
    pub protocol_version: TransferCreditMessageProtocolVersion,
    pub request_id: Null,
    pub session_id: Null,
    pub type_: TransferCreditMessageType,
}

impl TransferCreditMessage {
    /// A builder with every field still unset.
    pub fn builder() -> (r: builder::TransferCreditMessage)
        ensures
            r.all_unset(),
    {
        builder::TransferCreditMessage::default()
    }
}

/// The payload of the `transfer.credit` message.
#[derive(Clone, Debug)]
pub struct TransferCreditMessagePayload {
    pub granted_bytes: i64,
    pub transfer_id: Uuid,
}

impl TransferCreditMessagePayload {
    /// A builder with every field still unset.
    pub fn builder() -> (r: builder::TransferCreditMessagePayload)
        ensures
            r.all_unset(),
    {
        builder::TransferCreditMessagePayload::default()
    }
}

/// The `transfer.fileEnd` message.
#[derive(Clone, Debug)]
pub struct TransferFileEndMessage {
    pub device_id: Uuid,
    pub payload: TransferFileEndMessagePayload,
    pub protocol_version: TransferFileEndMessageProtocolVersion,
    pub request_id: Null,
    pub session_id: Null,
    pub type_: TransferFileEndMessageType,
}

impl TransferFileEndMessage {
    /// A builder with every field still unset.
    pub fn builder() -> (r: builder::TransferFileEndMessage)
        ensures
            r.all_unset(),
    {
        builder::TransferFileEndMessage::default()
    }
}

/// The payload of the `transfer.fileEnd` message.
#[derive(Clone, Debug)]
pub struct TransferFileEndMessagePayload {
    pub file_index: FileIndex,
    pub sent_size: FileSize,
    pub transfer_id: Uuid,
}

impl TransferFileEndMessagePayload {
    /// A builder with every field still unset.
    pub fn builder() -> (r: builder::TransferFileEndMessagePayload)
        ensures
            r.all_unset(),
    {
        builder::TransferFileEndMessagePayload::default()
    }
}

/// The `transfer.result` message.
#[derive(Clone, Debug)]
pub struct TransferResultMessage {
    pub device_id: Uuid,
    pub payload: TransferResultMessagePayload,
    pub protocol_version: TransferResultMessageProtocolVersion,
    pub request_id: Null,
    pub session_id: Null,
    pub type_: TransferResultMessageType,
}

impl TransferResultMessage {
    /// A builder with every field still unset.
    pub fn builder() -> (r: builder::TransferResultMessage)
        ensures
            r.all_unset(),
    {
        builder::TransferResultMessage::default()
    }
}

/// The payload of the `transfer.result` message.
#[derive(Clone, Debug)]
pub struct TransferResultMessagePayload {
    pub code: Option<ErrorCode>,
    pub message: TransferResultMessagePayloadMessage,
    pub success: bool,
    pub transfer_id: Uuid,
}

impl TransferResultMessagePayload {
    /// A builder with every field still unset.
    pub fn builder() -> (r: builder::TransferResultMessagePayload)
        ensures
            r.all_unset(),
    {
        builder::TransferResultMessagePayload::default()
    }
}

/// The `transfer.start` message.
#[derive(Clone, Debug)]
pub struct TransferStartMessage {
    pub device_id: Uuid,
    pub payload: TransferStartMessagePayload,
    pub protocol_version: TransferStartMessageProtocolVersion,
    pub request_id: Uuid,
    pub session_id: Null,
    pub type_: TransferStartMessageType,
}

impl TransferStartMessage {
    /// A builder with every field still unset.
    pub fn builder() -> (r: builder::TransferStartMessage)
        ensures
            r.all_unset(),
    {
        builder::TransferStartMessage::default()
    }
}

/// The payload of the `transfer.start` message.
#[derive(Clone, Debug)]
pub struct TransferStartMessagePayload {
    pub entries: Vec<FileEntry>,
    pub root_note: SafeRelativePath,
    pub transfer_id: Uuid,
}

impl TransferStartMessagePayload {
    /// A builder with every field still unset.
    pub fn builder() -> (r: builder::TransferStartMessagePayload)
        ensures
            r.all_unset(),
    {
        builder::TransferStartMessagePayload::default()
    }
}

/// The protocol version, which the schema pins to 1.
#[derive(Clone, Copy, Debug)]
pub struct AgentHeartbeatMessageProtocolVersion(i64);

impl View for AgentHeartbeatMessageProtocolVersion {
    type V = i64;

    closed spec fn view(&self) -> i64 {
        self.0
    }
}

impl AgentHeartbeatMessageProtocolVersion {
    #[verifier::type_invariant]
    spec fn is_pinned(self) -> bool {
        self.0 == 1
    }

    /// Accepts 1 and nothing else.
    pub fn try_from(value: i64) -> (r: Result<Self, ConversionError>)
        ensures
            match r {
                Ok(v) => value == 1 && v@ == value,
                Err(e) => value != 1 && e.0@ == "invalid value"@,
            },
    {
        if value != 1 {
            Err(ConversionError("invalid value".to_owned()))
        } else {
            Ok(Self(value))
        }
    }

    /// The value held.
    pub fn get(&self) -> (r: i64)
        ensures
            r == self@,
            r == 1,
    {
        proof {
            use_type_invariant(self);
        }
        self.0
    }
}

/// The heartbeat interval in milliseconds, which the schema pins to 20000.
#[derive(Clone, Copy, Debug)]
pub struct AgentHelloAckMessagePayloadHeartbeatIntervalMs(i64);

impl View for AgentHelloAckMessagePayloadHeartbeatIntervalMs {
    type V = i64;

    closed spec fn view(&self) -> i64 {
        self.0
    }
}

impl AgentHelloAckMessagePayloadHeartbeatIntervalMs {
    #[verifier::type_invariant]
    spec fn is_pinned(self) -> bool {
        self.0 == 20000
    }

    /// Accepts 20000 and nothing else.
    pub fn try_from(value: i64) -> (r: Result<Self, ConversionError>)
        ensures
            match r {
                Ok(v) => value == 20000 && v@ == value,
                Err(e) => value != 20000 && e.0@ == "invalid value"@,
            },
    {
        if value != 20000 {
            Err(ConversionError("invalid value".to_owned()))
        } else {
            Ok(Self(value))
        }
    }

    /// The value held.
    pub fn get(&self) -> (r: i64)
        ensures
            r == self@,
            r == 20000,
    {
        proof {
            use_type_invariant(self);
        }
        self.0
    }
}

/// The protocol version, which the schema pins to 1.
#[derive(Clone, Copy, Debug)]
pub struct AgentHelloAckMessageProtocolVersion(i64);

impl View for AgentHelloAckMessageProtocolVersion {
    type V = i64;

    closed spec fn view(&self) -> i64 {
        self.0
    }
}

impl AgentHelloAckMessageProtocolVersion {
    #[verifier::type_invariant]
    spec fn is_pinned(self) -> bool {
        self.0 == 1
    }

    /// Accepts 1 and nothing else.
    pub fn try_from(value: i64) -> (r: Result<Self, ConversionError>)
        ensures
            match r {
                Ok(v) => value == 1 && v@ == value,
                Err(e) => value != 1 && e.0@ == "invalid value"@,
            },
    {
        if value != 1 {
            Err(ConversionError("invalid value".to_owned()))
        } else {
            Ok(Self(value))
        }
    }

    /// The value held.
    pub fn get(&self) -> (r: i64)
        ensures
            r == self@,
            r == 1,
    {
        proof {
            use_type_invariant(self);
        }
        self.0
    }
}

/// The protocol version, which the schema pins to 1.
#[derive(Clone, Copy, Debug)]
pub struct AgentHelloMessageProtocolVersion(i64);

impl View for AgentHelloMessageProtocolVersion {
    type V = i64;

    closed spec fn view(&self) -> i64 {
        self.0
    }
}

impl AgentHelloMessageProtocolVersion {
    #[verifier::type_invariant]
    spec fn is_pinned(self) -> bool {
        self.0 == 1
    }

    /// Accepts 1 and nothing else.
    pub fn try_from(value: i64) -> (r: Result<Self, ConversionError>)
        ensures
            match r {
                Ok(v) => value == 1 && v@ == value,
                Err(e) => value != 1 && e.0@ == "invalid value"@,
            },
    {
        if value != 1 {
            Err(ConversionError("invalid value".to_owned()))
        } else {
            Ok(Self(value))
        }
    }

    /// The value held.
    pub fn get(&self) -> (r: i64)
        ensures
            r == self@,
            r == 1,
    {
        proof {
            use_type_invariant(self);
        }
        self.0
    }
}

/// The protocol version, which the schema pins to 1.
#[derive(Clone, Copy, Debug)]
pub struct TerminalCloseMessageProtocolVersion(i64);

impl View for TerminalCloseMessageProtocolVersion {
    type V = i64;

    closed spec fn view(&self) -> i64 {
        self.0
    }
}

impl TerminalCloseMessageProtocolVersion {
    #[verifier::type_invariant]
    spec fn is_pinned(self) -> bool {
        self.0 == 1
    }

    /// Accepts 1 and nothing else.
    pub fn try_from(value: i64) -> (r: Result<Self, ConversionError>)
        ensures
            match r {
                Ok(v) => value == 1 && v@ == value,
                Err(e) => value != 1 && e.0@ == "invalid value"@,
            },
    {
        if value != 1 {
            Err(ConversionError("invalid value".to_owned()))
        } else {
            Ok(Self(value))
        }
    }

    /// The value held.
    pub fn get(&self) -> (r: i64)
        ensures
            r == self@,
            r == 1,
    {
        proof {
            use_type_invariant(self);
        }
        self.0
    }
}

/// The protocol version, which the schema pins to 1.
#[derive(Clone, Copy, Debug)]
pub struct TerminalErrorMessageProtocolVersion(i64);

impl View for TerminalErrorMessageProtocolVersion {
    type V = i64;

    closed spec fn view(&self) -> i64 {
        self.0
    }
}

impl TerminalErrorMessageProtocolVersion {
    #[verifier::type_invariant]
    spec fn is_pinned(self) -> bool {
        self.0 == 1
    }

    /// Accepts 1 and nothing else.
    pub fn try_from(value: i64) -> (r: Result<Self, ConversionError>)
        ensures
            match r {
                Ok(v) => value == 1 && v@ == value,
                Err(e) => value != 1 && e.0@ == "invalid value"@,
            },
    {
        if value != 1 {
            Err(ConversionError("invalid value".to_owned()))
        } else {
            Ok(Self(value))
        }
    }

    /// The value held.
    pub fn get(&self) -> (r: i64)
        ensures
            r == self@,
            r == 1,
    {
        proof {
            use_type_invariant(self);
        }
        self.0
    }
}

/// The protocol version, which the schema pins to 1.
#[derive(Clone, Copy, Debug)]
pub struct TerminalOpenMessageProtocolVersion(i64);

impl View for TerminalOpenMessageProtocolVersion {
    type V = i64;

    closed spec fn view(&self) -> i64 {
        self.0
    }
}

impl TerminalOpenMessageProtocolVersion {
    #[verifier::type_invariant]
    spec fn is_pinned(self) -> bool {
        self.0 == 1
    }

    /// Accepts 1 and nothing else.
    pub fn try_from(value: i64) -> (r: Result<Self, ConversionError>)
        ensures
            match r {
                Ok(v) => value == 1 && v@ == value,
                Err(e) => value != 1 && e.0@ == "invalid value"@,
            },
    {
        if value != 1 {
            Err(ConversionError("invalid value".to_owned()))
        } else {
            Ok(Self(value))
        }
    }

    /// The value held.
    pub fn get(&self) -> (r: i64)
        ensures
            r == self@,
            r == 1,
    {
        proof {
            use_type_invariant(self);
        }
        self.0
    }
}

/// The protocol version, which the schema pins to 1.
#[derive(Clone, Copy, Debug)]
pub struct TerminalOpenedMessageProtocolVersion(i64);

impl View for TerminalOpenedMessageProtocolVersion {
    type V = i64;

    closed spec fn view(&self) -> i64 {
        self.0
    }
}

impl TerminalOpenedMessageProtocolVersion {
    #[verifier::type_invariant]
    spec fn is_pinned(self) -> bool {
        self.0 == 1
    }

    /// Accepts 1 and nothing else.
    pub fn try_from(value: i64) -> (r: Result<Self, ConversionError>)
        ensures
            match r {
                Ok(v) => value == 1 && v@ == value,
                Err(e) => value != 1 && e.0@ == "invalid value"@,
            },
    {
        if value != 1 {
            Err(ConversionError("invalid value".to_owned()))
        } else {
            Ok(Self(value))
        }
    }

    /// The value held.
    pub fn get(&self) -> (r: i64)
        ensures
            r == self@,
            r == 1,
    {
        proof {
            use_type_invariant(self);
        }
        self.0
    }
}

/// The protocol version, which the schema pins to 1.
#[derive(Clone, Copy, Debug)]
pub struct TerminalResizeMessageProtocolVersion(i64);

impl View for TerminalResizeMessageProtocolVersion {
    type V = i64;

    closed spec fn view(&self) -> i64 {
        self.0
    }
}

impl TerminalResizeMessageProtocolVersion {
    #[verifier::type_invariant]
    spec fn is_pinned(self) -> bool {
        self.0 == 1
    }

    /// Accepts 1 and nothing else.
    pub fn try_from(value: i64) -> (r: Result<Self, ConversionError>)
        ensures
            match r {
                Ok(v) => value == 1 && v@ == value,
                Err(e) => value != 1 && e.0@ == "invalid value"@,
            },
    {
        if value != 1 {
            Err(ConversionError("invalid value".to_owned()))
        } else {
            Ok(Self(value))
        }
    }

    /// The value held.
    pub fn get(&self) -> (r: i64)
        ensures
            r == self@,
            r == 1,
    {
        proof {
            use_type_invariant(self);
        }
        self.0
    }
}

/// The protocol version, which the schema pins to 1.
#[derive(Clone, Copy, Debug)]
pub struct TerminalShellEventMessageProtocolVersion(i64);

impl View for TerminalShellEventMessageProtocolVersion {
    type V = i64;

    closed spec fn view(&self) -> i64 {
        self.0
    }
}

impl TerminalShellEventMessageProtocolVersion {
    #[verifier::type_invariant]
    spec fn is_pinned(self) -> bool {
        self.0 == 1
    }

    /// Accepts 1 and nothing else.
    pub fn try_from(value: i64) -> (r: Result<Self, ConversionError>)
        ensures
            match r {
                Ok(v) => value == 1 && v@ == value,
                Err(e) => value != 1 && e.0@ == "invalid value"@,
            },
    {
        if value != 1 {
            Err(ConversionError("invalid value".to_owned()))
        } else {
            Ok(Self(value))
        }
    }

    /// The value held.
    pub fn get(&self) -> (r: i64)
        ensures
            r == self@,
            r == 1,
    {
        proof {
            use_type_invariant(self);
        }
        self.0
    }
}

/// The protocol version, which the schema pins to 1.
#[derive(Clone, Copy, Debug)]
pub struct TransferAbortMessageProtocolVersion(i64);

impl View for TransferAbortMessageProtocolVersion {
    type V = i64;

    closed spec fn view(&self) -> i64 {
        self.0
    }
}

impl TransferAbortMessageProtocolVersion {
    #[verifier::type_invariant]
    spec fn is_pinned(self) -> bool {
        self.0 == 1
    }

    /// Accepts 1 and nothing else.
    pub fn try_from(value: i64) -> (r: Result<Self, ConversionError>)
        ensures
            match r {
                Ok(v) => value == 1 && v@ == value,
                Err(e) => value != 1 && e.0@ == "invalid value"@,
            },
    {
        if value != 1 {
            Err(ConversionError("invalid value".to_owned()))
        } else {
            Ok(Self(value))
        }
    }

    /// The value held.
    pub fn get(&self) -> (r: i64)
        ensures
            r == self@,
            r == 1,
    {
        proof {
            use_type_invariant(self);
        }
        self.0
    }
}

/// The protocol version, which the schema pins to 1.
#[derive(Clone, Copy, Debug)]
pub struct TransferAcceptedMessageProtocolVersion(i64);

impl View for TransferAcceptedMessageProtocolVersion {
    type V = i64;

    closed spec fn view(&self) -> i64 {
        self.0
    }
}

impl TransferAcceptedMessageProtocolVersion {
    #[verifier::type_invariant]
    spec fn is_pinned(self) -> bool {
        self.0 == 1
    }

    /// Accepts 1 and nothing else.
    pub fn try_from(value: i64) -> (r: Result<Self, ConversionError>)
        ensures
            match r {
                Ok(v) => value == 1 && v@ == value,
                Err(e) => value != 1 && e.0@ == "invalid value"@,
            },
    {
        if value != 1 {
            Err(ConversionError("invalid value".to_owned()))
        } else {
            Ok(Self(value))
        }
    }

    /// The value held.
    pub fn get(&self) -> (r: i64)
        ensures
            r == self@,
            r == 1,
    {
        proof {
            use_type_invariant(self);
        }
        self.0
    }
}

/// The protocol version, which the schema pins to 1.
#[derive(Clone, Copy, Debug)]
pub struct TransferCompleteMessageProtocolVersion(i64);

impl View for TransferCompleteMessageProtocolVersion {
    type V = i64;

    closed spec fn view(&self) -> i64 {
        self.0
    }
}

impl TransferCompleteMessageProtocolVersion {
    #[verifier::type_invariant]
    spec fn is_pinned(self) -> bool {
        self.0 == 1
    }

    /// Accepts 1 and nothing else.
    pub fn try_from(value: i64) -> (r: Result<Self, ConversionError>)
        ensures
            match r {
                Ok(v) => value == 1 && v@ == value,
                Err(e) => value != 1 && e.0@ == "invalid value"@,
            },
    {
        if value != 1 {
            Err(ConversionError("invalid value".to_owned()))
        } else {
            Ok(Self(value))
        }
    }

    /// The value held.
    pub fn get(&self) -> (r: i64)
        ensures
            r == self@,
            r == 1,
    {
        proof {
            use_type_invariant(self);
        }
        self.0
    }
}

/// The protocol version, which the schema pins to 1.
#[derive(Clone, Copy, Debug)]
pub struct TransferCreditMessageProtocolVersion(i64);

impl View for TransferCreditMessageProtocolVersion {
    type V = i64;

    closed spec fn view(&self) -> i64 {
        self.0
    }
}

impl TransferCreditMessageProtocolVersion {
    #[verifier::type_invariant]
    spec fn is_pinned(self) -> bool {
        self.0 == 1
    }

    /// Accepts 1 and nothing else.
    pub fn try_from(value: i64) -> (r: Result<Self, ConversionError>)
        ensures
            match r {
                Ok(v) => value == 1 && v@ == value,
                Err(e) => value != 1 && e.0@ == "invalid value"@,
            },
    {
        if value != 1 {
            Err(ConversionError("invalid value".to_owned()))
        } else {
            Ok(Self(value))
        }
    }

    /// The value held.
    pub fn get(&self) -> (r: i64)
        ensures
            r == self@,
            r == 1,
    {
        proof {
            use_type_invariant(self);
        }
        self.0
    }
}

/// The protocol version, which the schema pins to 1.
#[derive(Clone, Copy, Debug)]
pub struct TransferFileEndMessageProtocolVersion(i64);

impl View for TransferFileEndMessageProtocolVersion {
    type V = i64;

    closed spec fn view(&self) -> i64 {
        self.0
    }
}

impl TransferFileEndMessageProtocolVersion {
    #[verifier::type_invariant]
    spec fn is_pinned(self) -> bool {
        self.0 == 1
    }

    /// Accepts 1 and nothing else.
    pub fn try_from(value: i64) -> (r: Result<Self, ConversionError>)
        ensures
            match r {
                Ok(v) => value == 1 && v@ == value,
                Err(e) => value != 1 && e.0@ == "invalid value"@,
            },
    {
        if value != 1 {
            Err(ConversionError("invalid value".to_owned()))
        } else {
            Ok(Self(value))
        }
    }

    /// The value held.
    pub fn get(&self) -> (r: i64)
        ensures
            r == self@,
            r == 1,
    {
        proof {
            use_type_invariant(self);
        }
        self.0
    }
}

/// The protocol version, which the schema pins to 1.
#[derive(Clone, Copy, Debug)]
pub struct TransferResultMessageProtocolVersion(i64);

impl View for TransferResultMessageProtocolVersion {
    type V = i64;

    closed spec fn view(&self) -> i64 {
        self.0
    }
}

impl TransferResultMessageProtocolVersion {
    #[verifier::type_invariant]
    spec fn is_pinned(self) -> bool {
        self.0 == 1
    }

    /// Accepts 1 and nothing else.
    pub fn try_from(value: i64) -> (r: Result<Self, ConversionError>)
        ensures
            match r {
                Ok(v) => value == 1 && v@ == value,
                Err(e) => value != 1 && e.0@ == "invalid value"@,
            },
    {
        if value != 1 {
            Err(ConversionError("invalid value".to_owned()))
        } else {
            Ok(Self(value))
        }
    }

    /// The value held.
    pub fn get(&self) -> (r: i64)
        ensures
            r == self@,
            r == 1,
    {
        proof {
            use_type_invariant(self);
        }
        self.0
    }
}

/// The protocol version, which the schema pins to 1.
#[derive(Clone, Copy, Debug)]
pub struct TransferStartMessageProtocolVersion(i64);

impl View for TransferStartMessageProtocolVersion {
    type V = i64;

    closed spec fn view(&self) -> i64 {
        self.0
    }
}

impl TransferStartMessageProtocolVersion {
    #[verifier::type_invariant]
    spec fn is_pinned(self) -> bool {
        self.0 == 1
    }

    /// Accepts 1 and nothing else.
    pub fn try_from(value: i64) -> (r: Result<Self, ConversionError>)
        ensures
            match r {
                Ok(v) => value == 1 && v@ == value,
                Err(e) => value != 1 && e.0@ == "invalid value"@,
            },
    {
        if value != 1 {
            Err(ConversionError("invalid value".to_owned()))
        } else {
            Ok(Self(value))
        }
    }

    /// The value held.
    pub fn get(&self) -> (r: i64)
        ensures
            r == self@,
            r == 1,
    {
        proof {
            use_type_invariant(self);
        }
        self.0
    }
}

/// The `type` discriminant of the `agent.heartbeat` message.
#[derive(Clone, Copy, Debug, PartialEq, Eq, Structural, Hash, PartialOrd, Ord)]
pub enum AgentHeartbeatMessageType {
    AgentHeartbeat,
}

impl AgentHeartbeatMessageType {
    /// The spelling on the wire.
    pub open spec fn wire(self) -> Seq<char> {
        match self {
            AgentHeartbeatMessageType::AgentHeartbeat => "agent.heartbeat"@,
        }
    }

    pub fn as_str(self) -> (r: &'static str)
        ensures
            r@ == self.wire(),
    {
        match self {
            AgentHeartbeatMessageType::AgentHeartbeat => "agent.heartbeat",
        }
    }

    /// The value spelled `value` on the wire.
    pub fn from_str(value: &str) -> (r: Result<Self, ConversionError>)
        ensures
            match r {
                Ok(v) => v.wire() == value@,
                Err(e) => (forall|v: Self| v.wire() != value@) && e.0@ == "invalid value"@,
            },
    {
        if str_eq(value, "agent.heartbeat") {
            return Ok(AgentHeartbeatMessageType::AgentHeartbeat);
        }
        Err(ConversionError("invalid value".to_owned()))
    }
}

/// The `type` discriminant of the `agent.helloAck` message.
#[derive(Clone, Copy, Debug, PartialEq, Eq, Structural, Hash, PartialOrd, Ord)]
pub enum AgentHelloAckMessageType {
    AgentHelloAck,
}

impl AgentHelloAckMessageType {
    /// The spelling on the wire.
    pub open spec fn wire(self) -> Seq<char> {
        match self {
            AgentHelloAckMessageType::AgentHelloAck => "agent.helloAck"@,
        }
    }

    pub fn as_str(self) -> (r: &'static str)
        ensures
            r@ == self.wire(),
    {
        match self {
            AgentHelloAckMessageType::AgentHelloAck => "agent.helloAck",
        }
    }

    /// The value spelled `value` on the wire.
    pub fn from_str(value: &str) -> (r: Result<Self, ConversionError>)
        ensures
            match r {
                Ok(v) => v.wire() == value@,
                Err(e) => (forall|v: Self| v.wire() != value@) && e.0@ == "invalid value"@,
            },
    {
        if str_eq(value, "agent.helloAck") {
            return Ok(AgentHelloAckMessageType::AgentHelloAck);
        }
        Err(ConversionError("invalid value".to_owned()))
    }
}

/// The `type` discriminant of the `agent.hello` message.
#[derive(Clone, Copy, Debug, PartialEq, Eq, Structural, Hash, PartialOrd, Ord)]
pub enum AgentHelloMessageType {
    AgentHello,
}

impl AgentHelloMessageType {
    /// The spelling on the wire.
    pub open spec fn wire(self) -> Seq<char> {
        match self {
            AgentHelloMessageType::AgentHello => "agent.hello"@,
        }
    }

    pub fn as_str(self) -> (r: &'static str)
        ensures
            r@ == self.wire(),
    {
        match self {
            AgentHelloMessageType::AgentHello => "agent.hello",
        }
    }

    /// The value spelled `value` on the wire.
    pub fn from_str(value: &str) -> (r: Result<Self, ConversionError>)
        ensures
            match r {
                Ok(v) => v.wire() == value@,
                Err(e) => (forall|v: Self| v.wire() != value@) && e.0@ == "invalid value"@,
            },
    {
        if str_eq(value, "agent.hello") {
            return Ok(AgentHelloMessageType::AgentHello);
        }
        Err(ConversionError("invalid value".to_owned()))
    }
}

/// What an agent can serve.
#[derive(Clone, Copy, Debug, PartialEq, Eq, Structural, Hash, PartialOrd, Ord)]
pub enum Capability {
    Terminal,
    FileTransfer,
}

impl Capability {
    /// The spelling on the wire.
    pub open spec fn wire(self) -> Seq<char> {
        match self {
            Capability::Terminal => "terminal"@,
            Capability::FileTransfer => "file-transfer"@,
        }
    }

    pub fn as_str(self) -> (r: &'static str)
        ensures
            r@ == self.wire(),
    {
        match self {
            Capability::Terminal => "terminal",
            Capability::FileTransfer => "file-transfer",
        }
    }

    /// The value spelled `value` on the wire.
    pub fn from_str(value: &str) -> (r: Result<Self, ConversionError>)
        ensures
            match r {
                Ok(v) => v.wire() == value@,
                Err(e) => (forall|v: Self| v.wire() != value@) && e.0@ == "invalid value"@,
            },
    {
        if str_eq(value, "terminal") {
            return Ok(Capability::Terminal);
        }
        if str_eq(value, "file-transfer") {
            return Ok(Capability::FileTransfer);
        }
        Err(ConversionError("invalid value".to_owned()))
    }

    /// No two values share a spelling, so `from_str` gives back the value
    /// `as_str` spelled.
    pub proof fn lemma_wire_injective(a: Self, b: Self)
        ensures
            a.wire() == b.wire() ==> a == b,
    {
        reveal_strlit("terminal");
        reveal_strlit("file-transfer");
        if a.wire() == b.wire() {
            assert(a.wire().len() == b.wire().len());
        }
    }
}

/// The error codes shared by every end of the protocol.
#[derive(Clone, Copy, Debug, PartialEq, Eq, Structural, Hash, PartialOrd, Ord)]
pub enum ErrorCode {
    AuthExpired,
    AuthInvalid,
    PairingCodeInvalid,
    DeviceForbidden,
    DeviceOffline,
    DeviceBusy,
    ShellStartFailed,
    RelayDisconnected,
    InvalidDrop,
    InvalidPath,
    WriteFailed,
    TransferFailed,
    QuotaExceeded,
    RateLimited,
    BackpressureLimit,
    SessionTimeout,
    ProtocolError,
    InternalError,
}

impl ErrorCode {
    /// The spelling on the wire.
    pub open spec fn wire(self) -> Seq<char> {
        match self {
            ErrorCode::AuthExpired => "AUTH_EXPIRED"@,
            ErrorCode::AuthInvalid => "AUTH_INVALID"@,
            ErrorCode::PairingCodeInvalid => "PAIRING_CODE_INVALID"@,
            ErrorCode::DeviceForbidden => "DEVICE_FORBIDDEN"@,
            ErrorCode::DeviceOffline => "DEVICE_OFFLINE"@,
            ErrorCode::DeviceBusy => "DEVICE_BUSY"@,
            ErrorCode::ShellStartFailed => "SHELL_START_FAILED"@,
            ErrorCode::RelayDisconnected => "RELAY_DISCONNECTED"@,
            ErrorCode::InvalidDrop => "INVALID_DROP"@,
            ErrorCode::InvalidPath => "INVALID_PATH"@,
            ErrorCode::WriteFailed => "WRITE_FAILED"@,
            ErrorCode::TransferFailed => "TRANSFER_FAILED"@,
            ErrorCode::QuotaExceeded => "QUOTA_EXCEEDED"@,
            ErrorCode::RateLimited => "RATE_LIMITED"@,
            ErrorCode::BackpressureLimit => "BACKPRESSURE_LIMIT"@,
            ErrorCode::SessionTimeout => "SESSION_TIMEOUT"@,
            ErrorCode::ProtocolError => "PROTOCOL_ERROR"@,
            ErrorCode::InternalError => "INTERNAL_ERROR"@,
        }
    }

    pub fn as_str(self) -> (r: &'static str)
        ensures
            r@ == self.wire(),
    {
        match self {
            ErrorCode::AuthExpired => "AUTH_EXPIRED",
            ErrorCode::AuthInvalid => "AUTH_INVALID",
            ErrorCode::PairingCodeInvalid => "PAIRING_CODE_INVALID",
            ErrorCode::DeviceForbidden => "DEVICE_FORBIDDEN",
            ErrorCode::DeviceOffline => "DEVICE_OFFLINE",
            ErrorCode::DeviceBusy => "DEVICE_BUSY",
            ErrorCode::ShellStartFailed => "SHELL_START_FAILED",
            ErrorCode::RelayDisconnected => "RELAY_DISCONNECTED",
            ErrorCode::InvalidDrop => "INVALID_DROP",
            ErrorCode::InvalidPath => "INVALID_PATH",
            ErrorCode::WriteFailed => "WRITE_FAILED",
            ErrorCode::TransferFailed => "TRANSFER_FAILED",
            ErrorCode::QuotaExceeded => "QUOTA_EXCEEDED",
            ErrorCode::RateLimited => "RATE_LIMITED",
            ErrorCode::BackpressureLimit => "BACKPRESSURE_LIMIT",
            ErrorCode::SessionTimeout => "SESSION_TIMEOUT",
            ErrorCode::ProtocolError => "PROTOCOL_ERROR",
            ErrorCode::InternalError => "INTERNAL_ERROR",
        }
    }

    /// The value spelled `value` on the wire.
    pub fn from_str(value: &str) -> (r: Result<Self, ConversionError>)
        ensures
            match r {
                Ok(v) => v.wire() == value@,
                Err(e) => (forall|v: Self| v.wire() != value@) && e.0@ == "invalid value"@,
            },
    {
        if str_eq(value, "AUTH_EXPIRED") {
            return Ok(ErrorCode::AuthExpired);
        }
        if str_eq(value, "AUTH_INVALID") {
            return Ok(ErrorCode::AuthInvalid);
        }
        if str_eq(value, "PAIRING_CODE_INVALID") {
            return Ok(ErrorCode::PairingCodeInvalid);
        }
        if str_eq(value, "DEVICE_FORBIDDEN") {
            return Ok(ErrorCode::DeviceForbidden);
        }
        if str_eq(value, "DEVICE_OFFLINE") {
            return Ok(ErrorCode::DeviceOffline);
        }
        if str_eq(value, "DEVICE_BUSY") {
            return Ok(ErrorCode::DeviceBusy);
        }
        if str_eq(value, "SHELL_START_FAILED") {
            return Ok(ErrorCode::ShellStartFailed);
        }
        if str_eq(value, "RELAY_DISCONNECTED") {
            return Ok(ErrorCode::RelayDisconnected);
        }
        if str_eq(value, "INVALID_DROP") {
            return Ok(ErrorCode::InvalidDrop);
        }
        if str_eq(value, "INVALID_PATH") {
            return Ok(ErrorCode::InvalidPath);
        }
        if str_eq(value, "WRITE_FAILED") {
            return Ok(ErrorCode::WriteFailed);
        }
        if str_eq(value, "TRANSFER_FAILED") {
            return Ok(ErrorCode::TransferFailed);
        }
        if str_eq(value, "QUOTA_EXCEEDED") {
            return Ok(ErrorCode::QuotaExceeded);
        }
        if str_eq(value, "RATE_LIMITED") {
            return Ok(ErrorCode::RateLimited);
        }
        if str_eq(value, "BACKPRESSURE_LIMIT") {
            return Ok(ErrorCode::BackpressureLimit);
        }
        if str_eq(value, "SESSION_TIMEOUT") {
            return Ok(ErrorCode::SessionTimeout);
        }
        if str_eq(value, "PROTOCOL_ERROR") {
            return Ok(ErrorCode::ProtocolError);
        }
        if str_eq(value, "INTERNAL_ERROR") {
            return Ok(ErrorCode::InternalError);
        }
        Err(ConversionError("invalid value".to_owned()))
    }

    /// No two values share a spelling, so `from_str` gives back the value
    /// `as_str` spelled.
    pub proof fn lemma_wire_injective(a: Self, b: Self)
        ensures
            a.wire() == b.wire() ==> a == b,
    {
        reveal_strlit("AUTH_EXPIRED");
        reveal_strlit("AUTH_INVALID");
        reveal_strlit("PAIRING_CODE_INVALID");
        reveal_strlit("DEVICE_FORBIDDEN");
        reveal_strlit("DEVICE_OFFLINE");
        reveal_strlit("DEVICE_BUSY");
        reveal_strlit("SHELL_START_FAILED");
        reveal_strlit("RELAY_DISCONNECTED");
        reveal_strlit("INVALID_DROP");
        reveal_strlit("INVALID_PATH");
        reveal_strlit("WRITE_FAILED");
        reveal_strlit("TRANSFER_FAILED");
        reveal_strlit("QUOTA_EXCEEDED");
        reveal_strlit("RATE_LIMITED");
        reveal_strlit("BACKPRESSURE_LIMIT");
        reveal_strlit("SESSION_TIMEOUT");
        reveal_strlit("PROTOCOL_ERROR");
        reveal_strlit("INTERNAL_ERROR");
        if a.wire() == b.wire() {
            assert(a.wire().len() == b.wire().len());
            assert(a.wire()[0] == b.wire()[0]);
            assert(a.wire()[5] == b.wire()[5]);
            assert(a.wire()[8] == b.wire()[8]);
        }
    }
}

/// The platforms an agent runs on.
#[derive(Clone, Copy, Debug, PartialEq, Eq, Structural, Hash, PartialOrd, Ord)]
pub enum Platform {
    WindowsX64,
    UbuntuX64,
}

impl Platform {
    /// The spelling on the wire.
    pub open spec fn wire(self) -> Seq<char> {
        match self {
            Platform::WindowsX64 => "windows-x64"@,
            Platform::UbuntuX64 => "ubuntu-x64"@,
        }
    }

    pub fn as_str(self) -> (r: &'static str)
        ensures
            r@ == self.wire(),
    {
        match self {
            Platform::WindowsX64 => "windows-x64",
            Platform::UbuntuX64 => "ubuntu-x64",
        }
    }

    /// The value spelled `value` on the wire.
    pub fn from_str(value: &str) -> (r: Result<Self, ConversionError>)
        ensures
            match r {
                Ok(v) => v.wire() == value@,
                Err(e) => (forall|v: Self| v.wire() != value@) && e.0@ == "invalid value"@,
            },
    {
        if str_eq(value, "windows-x64") {
            return Ok(Platform::WindowsX64);
        }
        if str_eq(value, "ubuntu-x64") {
            return Ok(Platform::UbuntuX64);
        }
        Err(ConversionError("invalid value".to_owned()))
    }

    /// No two values share a spelling, so `from_str` gives back the value
    /// `as_str` spelled.
    pub proof fn lemma_wire_injective(a: Self, b: Self)
        ensures
            a.wire() == b.wire() ==> a == b,
    {
        reveal_strlit("windows-x64");
        reveal_strlit("ubuntu-x64");
        if a.wire() == b.wire() {
            assert(a.wire().len() == b.wire().len());
        }
    }
}

/// The shell-integration events an agent reports.
#[derive(Clone, Copy, Debug, PartialEq, Eq, Structural, Hash, PartialOrd, Ord)]
pub enum ShellEventName {
    PromptStart,
    CommandStart,
    CommandExecuted,
    CommandEnd,
}

impl ShellEventName {
    /// The spelling on the wire.
    pub open spec fn wire(self) -> Seq<char> {
        match self {
            ShellEventName::PromptStart => "prompt_start"@,
            ShellEventName::CommandStart => "command_start"@,
            ShellEventName::CommandExecuted => "command_executed"@,
            ShellEventName::CommandEnd => "command_end"@,
        }
    }

    pub fn as_str(self) -> (r: &'static str)
        ensures
            r@ == self.wire(),
    {
        match self {
            ShellEventName::PromptStart => "prompt_start",
            ShellEventName::CommandStart => "command_start",
            ShellEventName::CommandExecuted => "command_executed",
            ShellEventName::CommandEnd => "command_end",
        }
    }

    /// The value spelled `value` on the wire.
    pub fn from_str(value: &str) -> (r: Result<Self, ConversionError>)
        ensures
            match r {
                Ok(v) => v.wire() == value@,
                Err(e) => (forall|v: Self| v.wire() != value@) && e.0@ == "invalid value"@,
            },
    {
        if str_eq(value, "prompt_start") {
            return Ok(ShellEventName::PromptStart);
        }
        if str_eq(value, "command_start") {
            return Ok(ShellEventName::CommandStart);
        }
        if str_eq(value, "command_executed") {
            return Ok(ShellEventName::CommandExecuted);
        }
        if str_eq(value, "command_end") {
            return Ok(ShellEventName::CommandEnd);
        }
        Err(ConversionError("invalid value".to_owned()))
    }

    /// No two values share a spelling, so `from_str` gives back the value
    /// `as_str` spelled.
    pub proof fn lemma_wire_injective(a: Self, b: Self)
        ensures
            a.wire() == b.wire() ==> a == b,
    {
        reveal_strlit("prompt_start");
        reveal_strlit("command_start");
        reveal_strlit("command_executed");
        reveal_strlit("command_end");
        if a.wire() == b.wire() {
            assert(a.wire().len() == b.wire().len());
        }
    }
}

/// The terminal escape family a shell event came from.
#[derive(Clone, Copy, Debug, PartialEq, Eq, Structural, Hash, PartialOrd, Ord)]
pub enum ShellEventSource {
    Osc133,
    Osc633,
}

impl ShellEventSource {
    /// The spelling on the wire.
    pub open spec fn wire(self) -> Seq<char> {
        match self {
            ShellEventSource::Osc133 => "osc133"@,
            ShellEventSource::Osc633 => "osc633"@,
        }
    }

    pub fn as_str(self) -> (r: &'static str)
        ensures
            r@ == self.wire(),
    {
        match self {
            ShellEventSource::Osc133 => "osc133",
            ShellEventSource::Osc633 => "osc633",
        }
    }

    /// The value spelled `value` on the wire.
    pub fn from_str(value: &str) -> (r: Result<Self, ConversionError>)
        ensures
            match r {
                Ok(v) => v.wire() == value@,
                Err(e) => (forall|v: Self| v.wire() != value@) && e.0@ == "invalid value"@,
            },
    {
        if str_eq(value, "osc133") {
            return Ok(ShellEventSource::Osc133);
        }
        if str_eq(value, "osc633") {
            return Ok(ShellEventSource::Osc633);
        }
        Err(ConversionError("invalid value".to_owned()))
    }

    /// No two values share a spelling, so `from_str` gives back the value
    /// `as_str` spelled.
    pub proof fn lemma_wire_injective(a: Self, b: Self)
        ensures
            a.wire() == b.wire() ==> a == b,
    {
        reveal_strlit("osc133");
        reveal_strlit("osc633");
        if a.wire() == b.wire() {
            assert(a.wire().len() == b.wire().len());
            assert(a.wire()[3] == b.wire()[3]);
        }
    }
}

/// The `type` discriminant of the `terminal.close` message.
#[derive(Clone, Copy, Debug, PartialEq, Eq, Structural, Hash, PartialOrd, Ord)]
pub enum TerminalCloseMessageType {
    TerminalClose,
}

impl TerminalCloseMessageType {
    /// The spelling on the wire.
    pub open spec fn wire(self) -> Seq<char> {
        match self {
            TerminalCloseMessageType::TerminalClose => "terminal.close"@,
        }
    }

    pub fn as_str(self) -> (r: &'static str)
        ensures
            r@ == self.wire(),
    {
        match self {
            TerminalCloseMessageType::TerminalClose => "terminal.close",
        }
    }

    /// The value spelled `value` on the wire.
    pub fn from_str(value: &str) -> (r: Result<Self, ConversionError>)
        ensures
            match r {
                Ok(v) => v.wire() == value@,
                Err(e) => (forall|v: Self| v.wire() != value@) && e.0@ == "invalid value"@,
            },
    {
        if str_eq(value, "terminal.close") {
            return Ok(TerminalCloseMessageType::TerminalClose);
        }
        Err(ConversionError("invalid value".to_owned()))
    }
}

/// Why a terminal session closed.
#[derive(Clone, Copy, Debug, PartialEq, Eq, Structural, Hash, PartialOrd, Ord)]
pub enum TerminalCloseReason {
    User,
    PeerDisconnected,
    ShellExited,
    Error,
}

impl TerminalCloseReason {
    /// The spelling on the wire.
    pub open spec fn wire(self) -> Seq<char> {
        match self {
            TerminalCloseReason::User => "user"@,
            TerminalCloseReason::PeerDisconnected => "peer_disconnected"@,
            TerminalCloseReason::ShellExited => "shell_exited"@,
            TerminalCloseReason::Error => "error"@,
        }
    }

    pub fn as_str(self) -> (r: &'static str)
        ensures
            r@ == self.wire(),
    {
        match self {
            TerminalCloseReason::User => "user",
            TerminalCloseReason::PeerDisconnected => "peer_disconnected",
            TerminalCloseReason::ShellExited => "shell_exited",
            TerminalCloseReason::Error => "error",
        }
    }

    /// The value spelled `value` on the wire.
    pub fn from_str(value: &str) -> (r: Result<Self, ConversionError>)
        ensures
            match r {
                Ok(v) => v.wire() == value@,
                Err(e) => (forall|v: Self| v.wire() != value@) && e.0@ == "invalid value"@,
            },
    {
        if str_eq(value, "user") {
            return Ok(TerminalCloseReason::User);
        }
        if str_eq(value, "peer_disconnected") {
            return Ok(TerminalCloseReason::PeerDisconnected);
        }
        if str_eq(value, "shell_exited") {
            return Ok(TerminalCloseReason::ShellExited);
        }
        if str_eq(value, "error") {
            return Ok(TerminalCloseReason::Error);
        }
        Err(ConversionError("invalid value".to_owned()))
    }

    /// No two values share a spelling, so `from_str` gives back the value
    /// `as_str` spelled.
    pub proof fn lemma_wire_injective(a: Self, b: Self)
        ensures
            a.wire() == b.wire() ==> a == b,
    {
        reveal_strlit("user");
        reveal_strlit("peer_disconnected");
        reveal_strlit("shell_exited");
        reveal_strlit("error");
        if a.wire() == b.wire() {
            assert(a.wire().len() == b.wire().len());
        }
    }
}

/// The `type` discriminant of the `terminal.error` message.
#[derive(Clone, Copy, Debug, PartialEq, Eq, Structural, Hash, PartialOrd, Ord)]
pub enum TerminalErrorMessageType {
    TerminalError,
}

impl TerminalErrorMessageType {
    /// The spelling on the wire.
    pub open spec fn wire(self) -> Seq<char> {
        match self {
            TerminalErrorMessageType::TerminalError => "terminal.error"@,
        }
    }

    pub fn as_str(self) -> (r: &'static str)
        ensures
            r@ == self.wire(),
    {
        match self {
            TerminalErrorMessageType::TerminalError => "terminal.error",
        }
    }

    /// The value spelled `value` on the wire.
    pub fn from_str(value: &str) -> (r: Result<Self, ConversionError>)
        ensures
            match r {
                Ok(v) => v.wire() == value@,
                Err(e) => (forall|v: Self| v.wire() != value@) && e.0@ == "invalid value"@,
            },
    {
        if str_eq(value, "terminal.error") {
            return Ok(TerminalErrorMessageType::TerminalError);
        }
        Err(ConversionError("invalid value".to_owned()))
    }
}

/// The `type` discriminant of the `terminal.open` message.
#[derive(Clone, Copy, Debug, PartialEq, Eq, Structural, Hash, PartialOrd, Ord)]
pub enum TerminalOpenMessageType {
    TerminalOpen,
}

impl TerminalOpenMessageType {
    /// The spelling on the wire.
    pub open spec fn wire(self) -> Seq<char> {
        match self {
            TerminalOpenMessageType::TerminalOpen => "terminal.open"@,
        }
    }

    pub fn as_str(self) -> (r: &'static str)
        ensures
            r@ == self.wire(),
    {
        match self {
            TerminalOpenMessageType::TerminalOpen => "terminal.open",
        }
    }

    /// The value spelled `value` on the wire.
    pub fn from_str(value: &str) -> (r: Result<Self, ConversionError>)
        ensures
            match r {
                Ok(v) => v.wire() == value@,
                Err(e) => (forall|v: Self| v.wire() != value@) && e.0@ == "invalid value"@,
            },
    {
        if str_eq(value, "terminal.open") {
            return Ok(TerminalOpenMessageType::TerminalOpen);
        }
        Err(ConversionError("invalid value".to_owned()))
    }
}

/// The `type` discriminant of the `terminal.opened` message.
#[derive(Clone, Copy, Debug, PartialEq, Eq, Structural, Hash, PartialOrd, Ord)]
pub enum TerminalOpenedMessageType {
    TerminalOpened,
}

impl TerminalOpenedMessageType {
    /// The spelling on the wire.
    pub open spec fn wire(self) -> Seq<char> {
        match self {
            TerminalOpenedMessageType::TerminalOpened => "terminal.opened"@,
        }
    }

    pub fn as_str(self) -> (r: &'static str)
        ensures
            r@ == self.wire(),
    {
        match self {
            TerminalOpenedMessageType::TerminalOpened => "terminal.opened",
        }
    }

    /// The value spelled `value` on the wire.
    pub fn from_str(value: &str) -> (r: Result<Self, ConversionError>)
        ensures
            match r {
                Ok(v) => v.wire() == value@,
                Err(e) => (forall|v: Self| v.wire() != value@) && e.0@ == "invalid value"@,
            },
    {
        if str_eq(value, "terminal.opened") {
            return Ok(TerminalOpenedMessageType::TerminalOpened);
        }
        Err(ConversionError("invalid value".to_owned()))
    }
}

/// The `type` discriminant of the `terminal.resize` message.
#[derive(Clone, Copy, Debug, PartialEq, Eq, Structural, Hash, PartialOrd, Ord)]
pub enum TerminalResizeMessageType {
    TerminalResize,
}

impl TerminalResizeMessageType {
    /// The spelling on the wire.
    pub open spec fn wire(self) -> Seq<char> {
        match self {
            TerminalResizeMessageType::TerminalResize => "terminal.resize"@,
        }
    }

    pub fn as_str(self) -> (r: &'static str)
        ensures
            r@ == self.wire(),
    {
        match self {
            TerminalResizeMessageType::TerminalResize => "terminal.resize",
        }
    }

    /// The value spelled `value` on the wire.
    pub fn from_str(value: &str) -> (r: Result<Self, ConversionError>)
        ensures
            match r {
                Ok(v) => v.wire() == value@,
                Err(e) => (forall|v: Self| v.wire() != value@) && e.0@ == "invalid value"@,
            },
    {
        if str_eq(value, "terminal.resize") {
            return Ok(TerminalResizeMessageType::TerminalResize);
        }
        Err(ConversionError("invalid value".to_owned()))
    }
}

/// The `type` discriminant of the `terminal.shellEvent` message.
#[derive(Clone, Copy, Debug, PartialEq, Eq, Structural, Hash, PartialOrd, Ord)]
pub enum TerminalShellEventMessageType {
    TerminalShellEvent,
}

impl TerminalShellEventMessageType {
    /// The spelling on the wire.
    pub open spec fn wire(self) -> Seq<char> {
        match self {
            TerminalShellEventMessageType::TerminalShellEvent => "terminal.shellEvent"@,
        }
    }

    pub fn as_str(self) -> (r: &'static str)
        ensures
            r@ == self.wire(),
    {
        match self {
            TerminalShellEventMessageType::TerminalShellEvent => "terminal.shellEvent",
        }
    }

    /// The value spelled `value` on the wire.
    pub fn from_str(value: &str) -> (r: Result<Self, ConversionError>)
        ensures
            match r {
                Ok(v) => v.wire() == value@,
                Err(e) => (forall|v: Self| v.wire() != value@) && e.0@ == "invalid value"@,
            },
    {
        if str_eq(value, "terminal.shellEvent") {
            return Ok(TerminalShellEventMessageType::TerminalShellEvent);
        }
        Err(ConversionError("invalid value".to_owned()))
    }
}

/// The `type` discriminant of the `transfer.abort` message.
#[derive(Clone, Copy, Debug, PartialEq, Eq, Structural, Hash, PartialOrd, Ord)]
pub enum TransferAbortMessageType {
    TransferAbort,
}

impl TransferAbortMessageType {
    /// The spelling on the wire.
    pub open spec fn wire(self) -> Seq<char> {
        match self {
            TransferAbortMessageType::TransferAbort => "transfer.abort"@,
        }
    }

    pub fn as_str(self) -> (r: &'static str)
        ensures
            r@ == self.wire(),
    {
        match self {
            TransferAbortMessageType::TransferAbort => "transfer.abort",
        }
    }

    /// The value spelled `value` on the wire.
    pub fn from_str(value: &str) -> (r: Result<Self, ConversionError>)
        ensures
            match r {
                Ok(v) => v.wire() == value@,
                Err(e) => (forall|v: Self| v.wire() != value@) && e.0@ == "invalid value"@,
            },
    {
        if str_eq(value, "transfer.abort") {
            return Ok(TransferAbortMessageType::TransferAbort);
        }
        Err(ConversionError("invalid value".to_owned()))
    }
}

/// The `type` discriminant of the `transfer.accepted` message.
#[derive(Clone, Copy, Debug, PartialEq, Eq, Structural, Hash, PartialOrd, Ord)]
pub enum TransferAcceptedMessageType {
    TransferAccepted,
}

impl TransferAcceptedMessageType {
    /// The spelling on the wire.
    pub open spec fn wire(self) -> Seq<char> {
        match self {
            TransferAcceptedMessageType::TransferAccepted => "transfer.accepted"@,
        }
    }

    pub fn as_str(self) -> (r: &'static str)
        ensures
            r@ == self.wire(),
    {
        match self {
            TransferAcceptedMessageType::TransferAccepted => "transfer.accepted",
        }
    }

    /// The value spelled `value` on the wire.
    pub fn from_str(value: &str) -> (r: Result<Self, ConversionError>)
        ensures
            match r {
                Ok(v) => v.wire() == value@,
                Err(e) => (forall|v: Self| v.wire() != value@) && e.0@ == "invalid value"@,
            },
    {
        if str_eq(value, "transfer.accepted") {
            return Ok(TransferAcceptedMessageType::TransferAccepted);
        }
        Err(ConversionError("invalid value".to_owned()))
    }
}

/// The `type` discriminant of the `transfer.complete` message.
#[derive(Clone, Copy, Debug, PartialEq, Eq, Structural, Hash, PartialOrd, Ord)]
pub enum TransferCompleteMessageType {
    TransferComplete,
}

impl TransferCompleteMessageType {
    /// The spelling on the wire.
    pub open spec fn wire(self) -> Seq<char> {
        match self {
            TransferCompleteMessageType::TransferComplete => "transfer.complete"@,
        }
    }

    pub fn as_str(self) -> (r: &'static str)
        ensures
            r@ == self.wire(),
    {
        match self {
            TransferCompleteMessageType::TransferComplete => "transfer.complete",
        }
    }

    /// The value spelled `value` on the wire.
    pub fn from_str(value: &str) -> (r: Result<Self, ConversionError>)
        ensures
            match r {
                Ok(v) => v.wire() == value@,
                Err(e) => (forall|v: Self| v.wire() != value@) && e.0@ == "invalid value"@,
            },
    {
        if str_eq(value, "transfer.complete") {
            return Ok(TransferCompleteMessageType::TransferComplete);
        }
        Err(ConversionError("invalid value".to_owned()))
    }
}

/// The `type` discriminant of the `transfer.credit` message.
#[derive(Clone, Copy, Debug, PartialEq, Eq, Structural, Hash, PartialOrd, Ord)]
pub enum TransferCreditMessageType {
    TransferCredit,
}

impl TransferCreditMessageType {
    /// The spelling on the wire.
    pub open spec fn wire(self) -> Seq<char> {
        match self {
            TransferCreditMessageType::TransferCredit => "transfer.credit"@,
        }
    }

    pub fn as_str(self) -> (r: &'static str)
        ensures
            r@ == self.wire(),
    {
        match self {
            TransferCreditMessageType::TransferCredit => "transfer.credit",
        }
    }

    /// The value spelled `value` on the wire.
    pub fn from_str(value: &str) -> (r: Result<Self, ConversionError>)
        ensures
            match r {
                Ok(v) => v.wire() == value@,
                Err(e) => (forall|v: Self| v.wire() != value@) && e.0@ == "invalid value"@,
            },
    {
        if str_eq(value, "transfer.credit") {
            return Ok(TransferCreditMessageType::TransferCredit);
        }
        Err(ConversionError("invalid value".to_owned()))
    }
}

/// The `type` discriminant of the `transfer.fileEnd` message.
#[derive(Clone, Copy, Debug, PartialEq, Eq, Structural, Hash, PartialOrd, Ord)]
pub enum TransferFileEndMessageType {
    TransferFileEnd,
}

impl TransferFileEndMessageType {
    /// The spelling on the wire.
    pub open spec fn wire(self) -> Seq<char> {
        match self {
            TransferFileEndMessageType::TransferFileEnd => "transfer.fileEnd"@,
        }
    }

    pub fn as_str(self) -> (r: &'static str)
        ensures
            r@ == self.wire(),
    {
        match self {
            TransferFileEndMessageType::TransferFileEnd => "transfer.fileEnd",
        }
    }

    /// The value spelled `value` on the wire.
    pub fn from_str(value: &str) -> (r: Result<Self, ConversionError>)
        ensures
            match r {
                Ok(v) => v.wire() == value@,
                Err(e) => (forall|v: Self| v.wire() != value@) && e.0@ == "invalid value"@,
            },
    {
        if str_eq(value, "transfer.fileEnd") {
            return Ok(TransferFileEndMessageType::TransferFileEnd);
        }
        Err(ConversionError("invalid value".to_owned()))
    }
}

/// The `type` discriminant of the `transfer.result` message.
#[derive(Clone, Copy, Debug, PartialEq, Eq, Structural, Hash, PartialOrd, Ord)]
pub enum TransferResultMessageType {
    TransferResult,
}

impl TransferResultMessageType {
    /// The spelling on the wire.
    pub open spec fn wire(self) -> Seq<char> {
        match self {
            TransferResultMessageType::TransferResult => "transfer.result"@,
        }
    }

    pub fn as_str(self) -> (r: &'static str)
        ensures
            r@ == self.wire(),
    {
        match self {
            TransferResultMessageType::TransferResult => "transfer.result",
        }
    }

    /// The value spelled `value` on the wire.
    pub fn from_str(value: &str) -> (r: Result<Self, ConversionError>)
        ensures
            match r {
                Ok(v) => v.wire() == value@,
                Err(e) => (forall|v: Self| v.wire() != value@) && e.0@ == "invalid value"@,
            },
    {
        if str_eq(value, "transfer.result") {
            return Ok(TransferResultMessageType::TransferResult);
        }
        Err(ConversionError("invalid value".to_owned()))
    }
}

/// The `type` discriminant of the `transfer.start` message.
#[derive(Clone, Copy, Debug, PartialEq, Eq, Structural, Hash, PartialOrd, Ord)]
pub enum TransferStartMessageType {
    TransferStart,
}

impl TransferStartMessageType {
    /// The spelling on the wire.
    pub open spec fn wire(self) -> Seq<char> {
        match self {
            TransferStartMessageType::TransferStart => "transfer.start"@,
        }
    }

    pub fn as_str(self) -> (r: &'static str)
        ensures
            r@ == self.wire(),
    {
        match self {
            TransferStartMessageType::TransferStart => "transfer.start",
        }
    }

    /// The value spelled `value` on the wire.
    pub fn from_str(value: &str) -> (r: Result<Self, ConversionError>)
        ensures
            match r {
                Ok(v) => v.wire() == value@,
                Err(e) => (forall|v: Self| v.wire() != value@) && e.0@ == "invalid value"@,
            },
    {
        if str_eq(value, "transfer.start") {
            return Ok(TransferStartMessageType::TransferStart);
        }
        Err(ConversionError("invalid value".to_owned()))
    }
}

// ------------------------------------------------------ checked strings --

/// A UUID in its canonical lowercase spelling.
#[derive(Debug, PartialEq, Eq, Hash, PartialOrd, Ord)]
pub struct Uuid(String);

impl Clone for Uuid {
    fn clone(&self) -> (r: Self)
        ensures
            r@ == self@,
    {
        proof {
            use_type_invariant(self);
        }
        Uuid(self.0.clone())
    }
}

impl View for Uuid {
    type V = Seq<char>;

    closed spec fn view(&self) -> Seq<char> {
        self.0@
    }
}

impl Uuid {
    #[verifier::type_invariant]
    spec fn matches_pattern(self) -> bool {
        is_uuid_text(self.0@)
    }

    /// `value`, if it matches the schema's pattern.
    pub fn from_str(value: &str) -> (r: Result<Self, ConversionError>)
        ensures
            match r {
                Ok(v) => is_uuid_text(value@) && v@ == value@,
                Err(e) => !is_uuid_text(value@) && e.0@ == "doesn't match pattern \"^[0-9a-f]{8}-[0-9a-f]{4}-[0-9a-f]{4}-[0-9a-f]{4}-[0-9a-f]{12}$\""@,
            },
    {
        if !check_uuid(value) {
            return Err(ConversionError("doesn't match pattern \"^[0-9a-f]{8}-[0-9a-f]{4}-[0-9a-f]{4}-[0-9a-f]{4}-[0-9a-f]{12}$\"".to_owned()));
        }
        Ok(Uuid(value.to_owned()))
    }

    pub fn as_str(&self) -> (r: &str)
        ensures
            r@ == self@,
            is_uuid_text(r@),
    {
        proof {
            use_type_invariant(self);
        }
        self.0.as_str()
    }

    pub fn into_string(self) -> (r: String)
        ensures
            r@ == self@,
            is_uuid_text(r@),
    {
        proof {
            use_type_invariant(&self);
        }
        self.0
    }
}

/// A semantic version, `MAJOR.MINOR.PATCH` with optional pre-release and
/// build tags.
#[derive(Debug, PartialEq, Eq, Hash, PartialOrd, Ord)]
pub struct Semver(String);

impl Clone for Semver {
    fn clone(&self) -> (r: Self)
        ensures
            r@ == self@,
    {
        proof {
            use_type_invariant(self);
        }
        Semver(self.0.clone())
    }
}

impl View for Semver {
    type V = Seq<char>;

    closed spec fn view(&self) -> Seq<char> {
        self.0@
    }
}

impl Semver {
    #[verifier::type_invariant]
    spec fn matches_pattern(self) -> bool {
        is_semver_text(self.0@)
    }

    /// `value`, if it matches the schema's pattern.
    pub fn from_str(value: &str) -> (r: Result<Self, ConversionError>)
        ensures
            match r {
                Ok(v) => is_semver_text(value@) && v@ == value@,
                Err(e) => !is_semver_text(value@) && e.0@ == "doesn't match pattern \"^(0|[1-9]\\d*)\\.(0|[1-9]\\d*)\\.(0|[1-9]\\d*)(?:-[0-9A-Za-z-.]+)?(?:\\+[0-9A-Za-z-.]+)?$\""@,
            },
    {
        if !check_semver(value) {
            return Err(ConversionError("doesn't match pattern \"^(0|[1-9]\\d*)\\.(0|[1-9]\\d*)\\.(0|[1-9]\\d*)(?:-[0-9A-Za-z-.]+)?(?:\\+[0-9A-Za-z-.]+)?$\"".to_owned()));
        }
        Ok(Semver(value.to_owned()))
    }

    pub fn as_str(&self) -> (r: &str)
        ensures
            r@ == self@,
            is_semver_text(r@),
    {
        proof {
            use_type_invariant(self);
        }
        self.0.as_str()
    }

    pub fn into_string(self) -> (r: String)
        ensures
            r@ == self@,
            is_semver_text(r@),
    {
        proof {
            use_type_invariant(&self);
        }
        self.0
    }
}

/// A vault-relative path that can neither climb out of the vault nor name
/// a root, a drive or a directory.
#[derive(Debug, PartialEq, Eq, Hash, PartialOrd, Ord)]
pub struct SafeRelativePath(String);

impl Clone for SafeRelativePath {
    fn clone(&self) -> (r: Self)
        ensures
            r@ == self@,
    {
        proof {
            use_type_invariant(self);
        }
        SafeRelativePath(self.0.clone())
    }
}

impl View for SafeRelativePath {
    type V = Seq<char>;

    closed spec fn view(&self) -> Seq<char> {
        self.0@
    }
}

impl SafeRelativePath {
    #[verifier::type_invariant]
    spec fn matches_pattern(self) -> bool {
        is_safe_relative_path_text(self.0@)
    }

    /// `value`, if it matches the schema's pattern.
    pub fn from_str(value: &str) -> (r: Result<Self, ConversionError>)
        ensures
            match r {
                Ok(v) => is_safe_relative_path_text(value@) && v@ == value@,
                Err(e) => !is_safe_relative_path_text(value@) && e.0@ == "doesn't match pattern \"^(?!/)(?![A-Za-z]:)(?!.*\\\\)(?!.*//)(?!.*(^|/)\\.\\.(/|$))(?!.*(^|/)\\.(/|$))[^\\u0000]*[^\\u0000/]$\""@,
            },
    {
        if !check_safe_relative_path(value) {
            return Err(ConversionError("doesn't match pattern \"^(?!/)(?![A-Za-z]:)(?!.*\\\\)(?!.*//)(?!.*(^|/)\\.\\.(/|$))(?!.*(^|/)\\.(/|$))[^\\u0000]*[^\\u0000/]$\"".to_owned()));
        }
        Ok(SafeRelativePath(value.to_owned()))
    }

    pub fn as_str(&self) -> (r: &str)
        ensures
            r@ == self@,
            is_safe_relative_path_text(r@),
    {
        proof {
            use_type_invariant(self);
        }
        self.0.as_str()
    }

    pub fn into_string(self) -> (r: String)
        ensures
            r@ == self@,
            is_safe_relative_path_text(r@),
    {
        proof {
            use_type_invariant(&self);
        }
        self.0
    }
}

/// The human-readable text of a terminal error: 1 to 512 characters.
#[derive(Debug, PartialEq, Eq, Hash, PartialOrd, Ord)]
pub struct TerminalErrorMessagePayloadMessage(String);

impl Clone for TerminalErrorMessagePayloadMessage {
    fn clone(&self) -> (r: Self)
        ensures
            r@ == self@,
    {
        proof {
            use_type_invariant(self);
        }
        TerminalErrorMessagePayloadMessage(self.0.clone())
    }
}

impl View for TerminalErrorMessagePayloadMessage {
    type V = Seq<char>;

    closed spec fn view(&self) -> Seq<char> {
        self.0@
    }
}

impl TerminalErrorMessagePayloadMessage {
    #[verifier::type_invariant]
    spec fn within_bounds(self) -> bool {
        1 <= self.0@.len() <= 512
    }

    /// `value`, if its length in characters is within the schema's bounds.
    pub fn from_str(value: &str) -> (r: Result<Self, ConversionError>)
        ensures
            match r {
                Ok(v) => 1 <= value@.len() <= 512 && v@ == value@,
                Err(e) => (value@.len() > 512 && e.0@ == "longer than 512 characters"@) || (value@.len() < 1 && e.0@
                    == "shorter than 1 characters"@),
            },
    {
        let n = chars_of(value).len();
        if n > 512 {
            return Err(ConversionError("longer than 512 characters".to_owned()));
        }
        if n < 1 {
            return Err(ConversionError("shorter than 1 characters".to_owned()));
        }
        Ok(TerminalErrorMessagePayloadMessage(value.to_owned()))
    }

    pub fn as_str(&self) -> (r: &str)
        ensures
            r@ == self@,
            1 <= r@.len() <= 512,
    {
        proof {
            use_type_invariant(self);
        }
        self.0.as_str()
    }

    pub fn into_string(self) -> (r: String)
        ensures
            r@ == self@,
            1 <= r@.len() <= 512,
    {
        proof {
            use_type_invariant(&self);
        }
        self.0
    }
}

/// The shell a terminal session runs: 1 to 260 characters.
#[derive(Debug, PartialEq, Eq, Hash, PartialOrd, Ord)]
pub struct TerminalOpenedMessagePayloadShell(String);

impl Clone for TerminalOpenedMessagePayloadShell {
    fn clone(&self) -> (r: Self)
        ensures
            r@ == self@,
    {
        proof {
            use_type_invariant(self);
        }
        TerminalOpenedMessagePayloadShell(self.0.clone())
    }
}

impl View for TerminalOpenedMessagePayloadShell {
    type V = Seq<char>;

    closed spec fn view(&self) -> Seq<char> {
        self.0@
    }
}

impl TerminalOpenedMessagePayloadShell {
    #[verifier::type_invariant]
    spec fn within_bounds(self) -> bool {
        1 <= self.0@.len() <= 260
    }

    /// `value`, if its length in characters is within the schema's bounds.
    pub fn from_str(value: &str) -> (r: Result<Self, ConversionError>)
        ensures
            match r {
                Ok(v) => 1 <= value@.len() <= 260 && v@ == value@,
                Err(e) => (value@.len() > 260 && e.0@ == "longer than 260 characters"@) || (value@.len() < 1 && e.0@
                    == "shorter than 1 characters"@),
            },
    {
        let n = chars_of(value).len();
        if n > 260 {
            return Err(ConversionError("longer than 260 characters".to_owned()));
        }
        if n < 1 {
            return Err(ConversionError("shorter than 1 characters".to_owned()));
        }
        Ok(TerminalOpenedMessagePayloadShell(value.to_owned()))
    }

    pub fn as_str(&self) -> (r: &str)
        ensures
            r@ == self@,
            1 <= r@.len() <= 260,
    {
        proof {
            use_type_invariant(self);
        }
        self.0.as_str()
    }

    pub fn into_string(self) -> (r: String)
        ensures
            r@ == self@,
            1 <= r@.len() <= 260,
    {
        proof {
            use_type_invariant(&self);
        }
        self.0
    }
}

/// The human-readable text of a transfer result: at most 512 characters.
#[derive(Debug, PartialEq, Eq, Hash, PartialOrd, Ord)]
pub struct TransferResultMessagePayloadMessage(String);

impl Clone for TransferResultMessagePayloadMessage {
    fn clone(&self) -> (r: Self)
        ensures
            r@ == self@,
    {
        proof {
            use_type_invariant(self);
        }
        TransferResultMessagePayloadMessage(self.0.clone())
    }
}

impl View for TransferResultMessagePayloadMessage {
    type V = Seq<char>;

    closed spec fn view(&self) -> Seq<char> {
        self.0@
    }
}

impl TransferResultMessagePayloadMessage {
    #[verifier::type_invariant]
    spec fn within_bounds(self) -> bool {
        self.0@.len() <= 512
    }

    /// `value`, if its length in characters is within the schema's bounds.
    pub fn from_str(value: &str) -> (r: Result<Self, ConversionError>)
        ensures
            match r {
                Ok(v) => value@.len() <= 512 && v@ == value@,
                Err(e) => value@.len() > 512 && e.0@ == "longer than 512 characters"@,
            },
    {
        let n = chars_of(value).len();
        if n > 512 {
            return Err(ConversionError("longer than 512 characters".to_owned()));
        }
        Ok(TransferResultMessagePayloadMessage(value.to_owned()))
    }

    pub fn as_str(&self) -> (r: &str)
        ensures
            r@ == self@,
            r@.len() <= 512,
    {
        proof {
            use_type_invariant(self);
        }
        self.0.as_str()
    }

    pub fn into_string(self) -> (r: String)
        ensures
            r@ == self@,
            r@.len() <= 512,
    {
        proof {
            use_type_invariant(&self);
        }
        self.0
    }
}

// ---------------------------------------------------------- plain values --

/// A terminal width in columns, never zero.
#[derive(Clone, Copy, Debug)]
pub struct Cols(u64);

impl View for Cols {
    type V = u64;

    closed spec fn view(&self) -> u64 {
        self.0
    }
}

impl Cols {
    #[verifier::type_invariant]
    spec fn is_nonzero(self) -> bool {
        self.0 != 0
    }

    /// `value`, unless it is zero.
    pub fn new(value: u64) -> (r: Option<Self>)
        ensures
            match r {
                Some(v) => value != 0 && v@ == value,
                None => value == 0,
            },
    {
        if value == 0 {
            None
        } else {
            Some(Cols(value))
        }
    }

    pub fn get(&self) -> (r: u64)
        ensures
            r == self@,
            r != 0,
    {
        proof {
            use_type_invariant(self);
        }
        self.0
    }
}

/// A terminal height in rows, never zero.
#[derive(Clone, Copy, Debug)]
pub struct Rows(u64);

impl View for Rows {
    type V = u64;

    closed spec fn view(&self) -> u64 {
        self.0
    }
}

impl Rows {
    #[verifier::type_invariant]
    spec fn is_nonzero(self) -> bool {
        self.0 != 0
    }

    /// `value`, unless it is zero.
    pub fn new(value: u64) -> (r: Option<Self>)
        ensures
            match r {
                Some(v) => value != 0 && v@ == value,
                None => value == 0,
            },
    {
        if value == 0 {
            None
        } else {
            Some(Rows(value))
        }
    }

    pub fn get(&self) -> (r: u64)
        ensures
            r == self@,
            r != 0,
    {
        proof {
            use_type_invariant(self);
        }
        self.0
    }
}

/// The index of a file within its transfer batch.
#[derive(Clone, Copy, Debug, PartialEq, Eq, Structural)]
pub struct FileIndex(pub u8);

/// A file size in bytes.
#[derive(Clone, Copy, Debug, PartialEq, Eq, Structural)]
pub struct FileSize(pub i64);

/// An instant in UTC: whole seconds since the Unix epoch and the nanoseconds
/// past them.
#[derive(Clone, Copy, Debug, PartialEq, Eq, Structural)]
pub struct DateTime {
    pub seconds: i64,
    pub nanos: u32,
}

/// JSON `null`: what an envelope field holds when a message leaves it empty.
#[derive(Clone, Copy, Debug, PartialEq, Eq, Structural)]
pub struct Null;

/// A UUID, or JSON `null`.
#[derive(Clone, Debug)]
pub struct UuidOrNull(pub Option<Uuid>);

// --------------------------------------------------------- any message --

/// Any control message.
#[derive(Clone, Debug)]
pub enum ControlMessage {
    AgentHeartbeatMessage(AgentHeartbeatMessage),
    AgentHelloMessage(AgentHelloMessage),
    AgentHelloAckMessage(AgentHelloAckMessage),
    TerminalCloseMessage(TerminalCloseMessage),
    TerminalErrorMessage(TerminalErrorMessage),
    TerminalOpenMessage(TerminalOpenMessage),
    TerminalOpenedMessage(TerminalOpenedMessage),
    TerminalResizeMessage(TerminalResizeMessage),
    TerminalShellEventMessage(TerminalShellEventMessage),
    TransferAbortMessage(TransferAbortMessage),
    TransferAcceptedMessage(TransferAcceptedMessage),
    TransferCompleteMessage(TransferCompleteMessage),
    TransferCreditMessage(TransferCreditMessage),
    TransferFileEndMessage(TransferFileEndMessage),
    TransferResultMessage(TransferResultMessage),
    TransferStartMessage(TransferStartMessage),
}

impl From<AgentHeartbeatMessage> for ControlMessage {
    fn from(value: AgentHeartbeatMessage) -> (r: Self) {
        ControlMessage::AgentHeartbeatMessage(value)
    }
}

impl vstd::std_specs::convert::FromSpecImpl<AgentHeartbeatMessage> for ControlMessage {
    open spec fn obeys_from_spec() -> bool {
        true
    }

    open spec fn from_spec(v: AgentHeartbeatMessage) -> Self {
        ControlMessage::AgentHeartbeatMessage(v)
    }
}

impl From<AgentHelloMessage> for ControlMessage {
    fn from(value: AgentHelloMessage) -> (r: Self) {
        ControlMessage::AgentHelloMessage(value)
    }
}

impl vstd::std_specs::convert::FromSpecImpl<AgentHelloMessage> for ControlMessage {
    open spec fn obeys_from_spec() -> bool {
        true
    }

    open spec fn from_spec(v: AgentHelloMessage) -> Self {
        ControlMessage::AgentHelloMessage(v)
    }
}

impl From<AgentHelloAckMessage> for ControlMessage {
    fn from(value: AgentHelloAckMessage) -> (r: Self) {
        ControlMessage::AgentHelloAckMessage(value)
    }
}

impl vstd::std_specs::convert::FromSpecImpl<AgentHelloAckMessage> for ControlMessage {
    open spec fn obeys_from_spec() -> bool {
        true
    }

    open spec fn from_spec(v: AgentHelloAckMessage) -> Self {
        ControlMessage::AgentHelloAckMessage(v)
    }
}

impl From<TerminalCloseMessage> for ControlMessage {
    fn from(value: TerminalCloseMessage) -> (r: Self) {
        ControlMessage::TerminalCloseMessage(value)
    }
}

impl vstd::std_specs::convert::FromSpecImpl<TerminalCloseMessage> for ControlMessage {
    open spec fn obeys_from_spec() -> bool {
        true
    }

    open spec fn from_spec(v: TerminalCloseMessage) -> Self {
        ControlMessage::TerminalCloseMessage(v)
    }
}

impl From<TerminalErrorMessage> for ControlMessage {
    fn from(value: TerminalErrorMessage) -> (r: Self) {
        ControlMessage::TerminalErrorMessage(value)
    }
}

impl vstd::std_specs::convert::FromSpecImpl<TerminalErrorMessage> for ControlMessage {
    open spec fn obeys_from_spec() -> bool {
        true
    }

    open spec fn from_spec(v: TerminalErrorMessage) -> Self {
        ControlMessage::TerminalErrorMessage(v)
    }
}

impl From<TerminalOpenMessage> for ControlMessage {
    fn from(value: TerminalOpenMessage) -> (r: Self) {
        ControlMessage::TerminalOpenMessage(value)
    }
}

impl vstd::std_specs::convert::FromSpecImpl<TerminalOpenMessage> for ControlMessage {
    open spec fn obeys_from_spec() -> bool {
        true
    }

    open spec fn from_spec(v: TerminalOpenMessage) -> Self {
        ControlMessage::TerminalOpenMessage(v)
    }
}

impl From<TerminalOpenedMessage> for ControlMessage {
    fn from(value: TerminalOpenedMessage) -> (r: Self) {
        ControlMessage::TerminalOpenedMessage(value)
    }
}

impl vstd::std_specs::convert::FromSpecImpl<TerminalOpenedMessage> for ControlMessage {
    open spec fn obeys_from_spec() -> bool {
        true
    }

    open spec fn from_spec(v: TerminalOpenedMessage) -> Self {
        ControlMessage::TerminalOpenedMessage(v)
    }
}

impl From<TerminalResizeMessage> for ControlMessage {
    fn from(value: TerminalResizeMessage) -> (r: Self) {
        ControlMessage::TerminalResizeMessage(value)
    }
}

impl vstd::std_specs::convert::FromSpecImpl<TerminalResizeMessage> for ControlMessage {
    open spec fn obeys_from_spec() -> bool {
        true
    }

    open spec fn from_spec(v: TerminalResizeMessage) -> Self {
        ControlMessage::TerminalResizeMessage(v)
    }
}

impl From<TerminalShellEventMessage> for ControlMessage {
    fn from(value: TerminalShellEventMessage) -> (r: Self) {
        ControlMessage::TerminalShellEventMessage(value)
    }
}

impl vstd::std_specs::convert::FromSpecImpl<TerminalShellEventMessage> for ControlMessage {
    open spec fn obeys_from_spec() -> bool {
        true
    }

    open spec fn from_spec(v: TerminalShellEventMessage) -> Self {
        ControlMessage::TerminalShellEventMessage(v)
    }
}

impl From<TransferAbortMessage> for ControlMessage {
    fn from(value: TransferAbortMessage) -> (r: Self) {
        ControlMessage::TransferAbortMessage(value)
    }
}

impl vstd::std_specs::convert::FromSpecImpl<TransferAbortMessage> for ControlMessage {
    open spec fn obeys_from_spec() -> bool {
        true
    }

    open spec fn from_spec(v: TransferAbortMessage) -> Self {
        ControlMessage::TransferAbortMessage(v)
    }
}

impl From<TransferAcceptedMessage> for ControlMessage {
    fn from(value: TransferAcceptedMessage) -> (r: Self) {
        ControlMessage::TransferAcceptedMessage(value)
    }
}

impl vstd::std_specs::convert::FromSpecImpl<TransferAcceptedMessage> for ControlMessage {
    open spec fn obeys_from_spec() -> bool {
        true
    }

    open spec fn from_spec(v: TransferAcceptedMessage) -> Self {
        ControlMessage::TransferAcceptedMessage(v)
    }
}

impl From<TransferCompleteMessage> for ControlMessage {
    fn from(value: TransferCompleteMessage) -> (r: Self) {
        ControlMessage::TransferCompleteMessage(value)
    }
}

impl vstd::std_specs::convert::FromSpecImpl<TransferCompleteMessage> for ControlMessage {
    open spec fn obeys_from_spec() -> bool {
        true
    }

    open spec fn from_spec(v: TransferCompleteMessage) -> Self {
        ControlMessage::TransferCompleteMessage(v)
    }
}

impl From<TransferCreditMessage> for ControlMessage {
    fn from(value: TransferCreditMessage) -> (r: Self) {
        ControlMessage::TransferCreditMessage(value)
    }
}

impl vstd::std_specs::convert::FromSpecImpl<TransferCreditMessage> for ControlMessage {
    open spec fn obeys_from_spec() -> bool {
        true
    }

    open spec fn from_spec(v: TransferCreditMessage) -> Self {
        ControlMessage::TransferCreditMessage(v)
    }
}

impl From<TransferFileEndMessage> for ControlMessage {
    fn from(value: TransferFileEndMessage) -> (r: Self) {
        ControlMessage::TransferFileEndMessage(value)
    }
}

impl vstd::std_specs::convert::FromSpecImpl<TransferFileEndMessage> for ControlMessage {
    open spec fn obeys_from_spec() -> bool {
        true
    }

    open spec fn from_spec(v: TransferFileEndMessage) -> Self {
        ControlMessage::TransferFileEndMessage(v)
    }
}

impl From<TransferResultMessage> for ControlMessage {
    fn from(value: TransferResultMessage) -> (r: Self) {
        ControlMessage::TransferResultMessage(value)
    }
}

impl vstd::std_specs::convert::FromSpecImpl<TransferResultMessage> for ControlMessage {
    open spec fn obeys_from_spec() -> bool {
        true
    }

    open spec fn from_spec(v: TransferResultMessage) -> Self {
        ControlMessage::TransferResultMessage(v)
    }
}

impl From<TransferStartMessage> for ControlMessage {
    fn from(value: TransferStartMessage) -> (r: Self) {
        ControlMessage::TransferStartMessage(value)
    }
}

impl vstd::std_specs::convert::FromSpecImpl<TransferStartMessage> for ControlMessage {
    open spec fn obeys_from_spec() -> bool {
        true
    }

    open spec fn from_spec(v: TransferStartMessage) -> Self {
        ControlMessage::TransferStartMessage(v)
    }
}


// ------------------------------------------------ builder conversions --

/// An `i64` supplied for a `AgentHeartbeatMessageProtocolVersion` goes through its checked constructor.
impl Supply<AgentHeartbeatMessageProtocolVersion> for i64 {
    open spec fn converts_to(&self, r: Result<AgentHeartbeatMessageProtocolVersion, ConversionError>) -> bool {
        match r {
            Ok(v) => *self == 1 && v@ == *self,
            Err(e) => *self != 1 && e.0@ == "invalid value"@,
        }
    }

    fn supply(self) -> (r: Result<AgentHeartbeatMessageProtocolVersion, ConversionError>) {
        AgentHeartbeatMessageProtocolVersion::try_from(self)
    }
}

/// An `i64` supplied for a `AgentHelloAckMessagePayloadHeartbeatIntervalMs` goes through its checked constructor.
impl Supply<AgentHelloAckMessagePayloadHeartbeatIntervalMs> for i64 {
    open spec fn converts_to(&self, r: Result<AgentHelloAckMessagePayloadHeartbeatIntervalMs, ConversionError>) -> bool {
        match r {
            Ok(v) => *self == 20000 && v@ == *self,
            Err(e) => *self != 20000 && e.0@ == "invalid value"@,
        }
    }

    fn supply(self) -> (r: Result<AgentHelloAckMessagePayloadHeartbeatIntervalMs, ConversionError>) {
        AgentHelloAckMessagePayloadHeartbeatIntervalMs::try_from(self)
    }
}

/// An `i64` supplied for a `AgentHelloAckMessageProtocolVersion` goes through its checked constructor.
impl Supply<AgentHelloAckMessageProtocolVersion> for i64 {
    open spec fn converts_to(&self, r: Result<AgentHelloAckMessageProtocolVersion, ConversionError>) -> bool {
        match r {
            Ok(v) => *self == 1 && v@ == *self,
            Err(e) => *self != 1 && e.0@ == "invalid value"@,
        }
    }

    fn supply(self) -> (r: Result<AgentHelloAckMessageProtocolVersion, ConversionError>) {
        AgentHelloAckMessageProtocolVersion::try_from(self)
    }
}

/// An `i64` supplied for a `AgentHelloMessageProtocolVersion` goes through its checked constructor.
impl Supply<AgentHelloMessageProtocolVersion> for i64 {
    open spec fn converts_to(&self, r: Result<AgentHelloMessageProtocolVersion, ConversionError>) -> bool {
        match r {
            Ok(v) => *self == 1 && v@ == *self,
            Err(e) => *self != 1 && e.0@ == "invalid value"@,
        }
    }

    fn supply(self) -> (r: Result<AgentHelloMessageProtocolVersion, ConversionError>) {
        AgentHelloMessageProtocolVersion::try_from(self)
    }
}

/// An `i64` supplied for a `TerminalCloseMessageProtocolVersion` goes through its checked constructor.
impl Supply<TerminalCloseMessageProtocolVersion> for i64 {
    open spec fn converts_to(&self, r: Result<TerminalCloseMessageProtocolVersion, ConversionError>) -> bool {
        match r {
            Ok(v) => *self == 1 && v@ == *self,
            Err(e) => *self != 1 && e.0@ == "invalid value"@,
        }
    }

    fn supply(self) -> (r: Result<TerminalCloseMessageProtocolVersion, ConversionError>) {
        TerminalCloseMessageProtocolVersion::try_from(self)
    }
}

/// An `i64` supplied for a `TerminalErrorMessageProtocolVersion` goes through its checked constructor.
impl Supply<TerminalErrorMessageProtocolVersion> for i64 {
    open spec fn converts_to(&self, r: Result<TerminalErrorMessageProtocolVersion, ConversionError>) -> bool {
        match r {
            Ok(v) => *self == 1 && v@ == *self,
            Err(e) => *self != 1 && e.0@ == "invalid value"@,
        }
    }

    fn supply(self) -> (r: Result<TerminalErrorMessageProtocolVersion, ConversionError>) {
        TerminalErrorMessageProtocolVersion::try_from(self)
    }
}

/// An `i64` supplied for a `TerminalOpenMessageProtocolVersion` goes through its checked constructor.
impl Supply<TerminalOpenMessageProtocolVersion> for i64 {
    open spec fn converts_to(&self, r: Result<TerminalOpenMessageProtocolVersion, ConversionError>) -> bool {
        match r {
            Ok(v) => *self == 1 && v@ == *self,
            Err(e) => *self != 1 && e.0@ == "invalid value"@,
        }
    }

    fn supply(self) -> (r: Result<TerminalOpenMessageProtocolVersion, ConversionError>) {
        TerminalOpenMessageProtocolVersion::try_from(self)
    }
}

/// An `i64` supplied for a `TerminalOpenedMessageProtocolVersion` goes through its checked constructor.
impl Supply<TerminalOpenedMessageProtocolVersion> for i64 {
    open spec fn converts_to(&self, r: Result<TerminalOpenedMessageProtocolVersion, ConversionError>) -> bool {
        match r {
            Ok(v) => *self == 1 && v@ == *self,
            Err(e) => *self != 1 && e.0@ == "invalid value"@,
        }
    }

    fn supply(self) -> (r: Result<TerminalOpenedMessageProtocolVersion, ConversionError>) {
        TerminalOpenedMessageProtocolVersion::try_from(self)
    }
}

/// An `i64` supplied for a `TerminalResizeMessageProtocolVersion` goes through its checked constructor.
impl Supply<TerminalResizeMessageProtocolVersion> for i64 {
    open spec fn converts_to(&self, r: Result<TerminalResizeMessageProtocolVersion, ConversionError>) -> bool {
        match r {
            Ok(v) => *self == 1 && v@ == *self,
            Err(e) => *self != 1 && e.0@ == "invalid value"@,
        }
    }

    fn supply(self) -> (r: Result<TerminalResizeMessageProtocolVersion, ConversionError>) {
        TerminalResizeMessageProtocolVersion::try_from(self)
    }
}

/// An `i64` supplied for a `TerminalShellEventMessageProtocolVersion` goes through its checked constructor.
impl Supply<TerminalShellEventMessageProtocolVersion> for i64 {
    open spec fn converts_to(&self, r: Result<TerminalShellEventMessageProtocolVersion, ConversionError>) -> bool {
        match r {
            Ok(v) => *self == 1 && v@ == *self,
            Err(e) => *self != 1 && e.0@ == "invalid value"@,
        }
    }

    fn supply(self) -> (r: Result<TerminalShellEventMessageProtocolVersion, ConversionError>) {
        TerminalShellEventMessageProtocolVersion::try_from(self)
    }
}

/// An `i64` supplied for a `TransferAbortMessageProtocolVersion` goes through its checked constructor.
impl Supply<TransferAbortMessageProtocolVersion> for i64 {
    open spec fn converts_to(&self, r: Result<TransferAbortMessageProtocolVersion, ConversionError>) -> bool {
        match r {
            Ok(v) => *self == 1 && v@ == *self,
            Err(e) => *self != 1 && e.0@ == "invalid value"@,
        }
    }

    fn supply(self) -> (r: Result<TransferAbortMessageProtocolVersion, ConversionError>) {
        TransferAbortMessageProtocolVersion::try_from(self)
    }
}

/// An `i64` supplied for a `TransferAcceptedMessageProtocolVersion` goes through its checked constructor.
impl Supply<TransferAcceptedMessageProtocolVersion> for i64 {
    open spec fn converts_to(&self, r: Result<TransferAcceptedMessageProtocolVersion, ConversionError>) -> bool {
        match r {
            Ok(v) => *self == 1 && v@ == *self,
            Err(e) => *self != 1 && e.0@ == "invalid value"@,
        }
    }

    fn supply(self) -> (r: Result<TransferAcceptedMessageProtocolVersion, ConversionError>) {
        TransferAcceptedMessageProtocolVersion::try_from(self)
    }
}

/// An `i64` supplied for a `TransferCompleteMessageProtocolVersion` goes through its checked constructor.
impl Supply<TransferCompleteMessageProtocolVersion> for i64 {
    open spec fn converts_to(&self, r: Result<TransferCompleteMessageProtocolVersion, ConversionError>) -> bool {
        match r {
            Ok(v) => *self == 1 && v@ == *self,
            Err(e) => *self != 1 && e.0@ == "invalid value"@,
        }
    }

    fn supply(self) -> (r: Result<TransferCompleteMessageProtocolVersion, ConversionError>) {
        TransferCompleteMessageProtocolVersion::try_from(self)
    }
}

/// An `i64` supplied for a `TransferCreditMessageProtocolVersion` goes through its checked constructor.
impl Supply<TransferCreditMessageProtocolVersion> for i64 {
    open spec fn converts_to(&self, r: Result<TransferCreditMessageProtocolVersion, ConversionError>) -> bool {
        match r {
            Ok(v) => *self == 1 && v@ == *self,
            Err(e) => *self != 1 && e.0@ == "invalid value"@,
        }
    }

    fn supply(self) -> (r: Result<TransferCreditMessageProtocolVersion, ConversionError>) {
        TransferCreditMessageProtocolVersion::try_from(self)
    }
}

/// An `i64` supplied for a `TransferFileEndMessageProtocolVersion` goes through its checked constructor.
impl Supply<TransferFileEndMessageProtocolVersion> for i64 {
    open spec fn converts_to(&self, r: Result<TransferFileEndMessageProtocolVersion, ConversionError>) -> bool {
        match r {
            Ok(v) => *self == 1 && v@ == *self,
            Err(e) => *self != 1 && e.0@ == "invalid value"@,
        }
    }

    fn supply(self) -> (r: Result<TransferFileEndMessageProtocolVersion, ConversionError>) {
        TransferFileEndMessageProtocolVersion::try_from(self)
    }
}

/// An `i64` supplied for a `TransferResultMessageProtocolVersion` goes through its checked constructor.
impl Supply<TransferResultMessageProtocolVersion> for i64 {
    open spec fn converts_to(&self, r: Result<TransferResultMessageProtocolVersion, ConversionError>) -> bool {
        match r {
            Ok(v) => *self == 1 && v@ == *self,
            Err(e) => *self != 1 && e.0@ == "invalid value"@,
        }
    }

    fn supply(self) -> (r: Result<TransferResultMessageProtocolVersion, ConversionError>) {
        TransferResultMessageProtocolVersion::try_from(self)
    }
}

/// An `i64` supplied for a `TransferStartMessageProtocolVersion` goes through its checked constructor.
impl Supply<TransferStartMessageProtocolVersion> for i64 {
    open spec fn converts_to(&self, r: Result<TransferStartMessageProtocolVersion, ConversionError>) -> bool {
        match r {
            Ok(v) => *self == 1 && v@ == *self,
            Err(e) => *self != 1 && e.0@ == "invalid value"@,
        }
    }

    fn supply(self) -> (r: Result<TransferStartMessageProtocolVersion, ConversionError>) {
        TransferStartMessageProtocolVersion::try_from(self)
    }
}

/// Text supplied for a `AgentHeartbeatMessageType` goes through its checked constructor.
impl<'a> Supply<AgentHeartbeatMessageType> for &'a str {
    open spec fn converts_to(&self, r: Result<AgentHeartbeatMessageType, ConversionError>) -> bool {
        match r {
            Ok(v) => v.wire() == (*self)@,
            Err(e) => (forall|v: AgentHeartbeatMessageType| v.wire() != (*self)@) && e.0@ == "invalid value"@,
        }
    }

    fn supply(self) -> (r: Result<AgentHeartbeatMessageType, ConversionError>) {
        AgentHeartbeatMessageType::from_str(self)
    }
}

impl Supply<AgentHeartbeatMessageType> for String {
    open spec fn converts_to(&self, r: Result<AgentHeartbeatMessageType, ConversionError>) -> bool {
        match r {
            Ok(v) => v.wire() == (*self)@,
            Err(e) => (forall|v: AgentHeartbeatMessageType| v.wire() != (*self)@) && e.0@ == "invalid value"@,
        }
    }

    fn supply(self) -> (r: Result<AgentHeartbeatMessageType, ConversionError>) {
        AgentHeartbeatMessageType::from_str(self.as_str())
    }
}

/// Text supplied for a `AgentHelloAckMessageType` goes through its checked constructor.
impl<'a> Supply<AgentHelloAckMessageType> for &'a str {
    open spec fn converts_to(&self, r: Result<AgentHelloAckMessageType, ConversionError>) -> bool {
        match r {
            Ok(v) => v.wire() == (*self)@,
            Err(e) => (forall|v: AgentHelloAckMessageType| v.wire() != (*self)@) && e.0@ == "invalid value"@,
        }
    }

    fn supply(self) -> (r: Result<AgentHelloAckMessageType, ConversionError>) {
        AgentHelloAckMessageType::from_str(self)
    }
}

impl Supply<AgentHelloAckMessageType> for String {
    open spec fn converts_to(&self, r: Result<AgentHelloAckMessageType, ConversionError>) -> bool {
        match r {
            Ok(v) => v.wire() == (*self)@,
            Err(e) => (forall|v: AgentHelloAckMessageType| v.wire() != (*self)@) && e.0@ == "invalid value"@,
        }
    }

    fn supply(self) -> (r: Result<AgentHelloAckMessageType, ConversionError>) {
        AgentHelloAckMessageType::from_str(self.as_str())
    }
}

/// Text supplied for a `AgentHelloMessageType` goes through its checked constructor.
impl<'a> Supply<AgentHelloMessageType> for &'a str {
    open spec fn converts_to(&self, r: Result<AgentHelloMessageType, ConversionError>) -> bool {
        match r {
            Ok(v) => v.wire() == (*self)@,
            Err(e) => (forall|v: AgentHelloMessageType| v.wire() != (*self)@) && e.0@ == "invalid value"@,
        }
    }

    fn supply(self) -> (r: Result<AgentHelloMessageType, ConversionError>) {
        AgentHelloMessageType::from_str(self)
    }
}

impl Supply<AgentHelloMessageType> for String {
    open spec fn converts_to(&self, r: Result<AgentHelloMessageType, ConversionError>) -> bool {
        match r {
            Ok(v) => v.wire() == (*self)@,
            Err(e) => (forall|v: AgentHelloMessageType| v.wire() != (*self)@) && e.0@ == "invalid value"@,
        }
    }

    fn supply(self) -> (r: Result<AgentHelloMessageType, ConversionError>) {
        AgentHelloMessageType::from_str(self.as_str())
    }
}

/// Text supplied for a `Capability` goes through its checked constructor.
impl<'a> Supply<Capability> for &'a str {
    open spec fn converts_to(&self, r: Result<Capability, ConversionError>) -> bool {
        match r {
            Ok(v) => v.wire() == (*self)@,
            Err(e) => (forall|v: Capability| v.wire() != (*self)@) && e.0@ == "invalid value"@,
        }
    }

    fn supply(self) -> (r: Result<Capability, ConversionError>) {
        Capability::from_str(self)
    }
}

impl Supply<Capability> for String {
    open spec fn converts_to(&self, r: Result<Capability, ConversionError>) -> bool {
        match r {
            Ok(v) => v.wire() == (*self)@,
            Err(e) => (forall|v: Capability| v.wire() != (*self)@) && e.0@ == "invalid value"@,
        }
    }

    fn supply(self) -> (r: Result<Capability, ConversionError>) {
        Capability::from_str(self.as_str())
    }
}

/// Text supplied for a `ErrorCode` goes through its checked constructor.
impl<'a> Supply<ErrorCode> for &'a str {
    open spec fn converts_to(&self, r: Result<ErrorCode, ConversionError>) -> bool {
        match r {
            Ok(v) => v.wire() == (*self)@,
            Err(e) => (forall|v: ErrorCode| v.wire() != (*self)@) && e.0@ == "invalid value"@,
        }
    }

    fn supply(self) -> (r: Result<ErrorCode, ConversionError>) {
        ErrorCode::from_str(self)
    }
}

impl Supply<ErrorCode> for String {
    open spec fn converts_to(&self, r: Result<ErrorCode, ConversionError>) -> bool {
        match r {
            Ok(v) => v.wire() == (*self)@,
            Err(e) => (forall|v: ErrorCode| v.wire() != (*self)@) && e.0@ == "invalid value"@,
        }
    }

    fn supply(self) -> (r: Result<ErrorCode, ConversionError>) {
        ErrorCode::from_str(self.as_str())
    }
}

/// Text supplied for a `Platform` goes through its checked constructor.
impl<'a> Supply<Platform> for &'a str {
    open spec fn converts_to(&self, r: Result<Platform, ConversionError>) -> bool {
        match r {
            Ok(v) => v.wire() == (*self)@,
            Err(e) => (forall|v: Platform| v.wire() != (*self)@) && e.0@ == "invalid value"@,
        }
    }

    fn supply(self) -> (r: Result<Platform, ConversionError>) {
        Platform::from_str(self)
    }
}

impl Supply<Platform> for String {
    open spec fn converts_to(&self, r: Result<Platform, ConversionError>) -> bool {
        match r {
            Ok(v) => v.wire() == (*self)@,
            Err(e) => (forall|v: Platform| v.wire() != (*self)@) && e.0@ == "invalid value"@,
        }
    }

    fn supply(self) -> (r: Result<Platform, ConversionError>) {
        Platform::from_str(self.as_str())
    }
}

/// Text supplied for a `ShellEventName` goes through its checked constructor.
impl<'a> Supply<ShellEventName> for &'a str {
    open spec fn converts_to(&self, r: Result<ShellEventName, ConversionError>) -> bool {
        match r {
            Ok(v) => v.wire() == (*self)@,
            Err(e) => (forall|v: ShellEventName| v.wire() != (*self)@) && e.0@ == "invalid value"@,
        }
    }

    fn supply(self) -> (r: Result<ShellEventName, ConversionError>) {
        ShellEventName::from_str(self)
    }
}

impl Supply<ShellEventName> for String {
    open spec fn converts_to(&self, r: Result<ShellEventName, ConversionError>) -> bool {
        match r {
            Ok(v) => v.wire() == (*self)@,
            Err(e) => (forall|v: ShellEventName| v.wire() != (*self)@) && e.0@ == "invalid value"@,
        }
    }

    fn supply(self) -> (r: Result<ShellEventName, ConversionError>) {
        ShellEventName::from_str(self.as_str())
    }
}

/// Text supplied for a `ShellEventSource` goes through its checked constructor.
impl<'a> Supply<ShellEventSource> for &'a str {
    open spec fn converts_to(&self, r: Result<ShellEventSource, ConversionError>) -> bool {
        match r {
            Ok(v) => v.wire() == (*self)@,
            Err(e) => (forall|v: ShellEventSource| v.wire() != (*self)@) && e.0@ == "invalid value"@,
        }
    }

    fn supply(self) -> (r: Result<ShellEventSource, ConversionError>) {
        ShellEventSource::from_str(self)
    }
}

impl Supply<ShellEventSource> for String {
    open spec fn converts_to(&self, r: Result<ShellEventSource, ConversionError>) -> bool {
        match r {
            Ok(v) => v.wire() == (*self)@,
            Err(e) => (forall|v: ShellEventSource| v.wire() != (*self)@) && e.0@ == "invalid value"@,
        }
    }

    fn supply(self) -> (r: Result<ShellEventSource, ConversionError>) {
        ShellEventSource::from_str(self.as_str())
    }
}

/// Text supplied for a `TerminalCloseMessageType` goes through its checked constructor.
impl<'a> Supply<TerminalCloseMessageType> for &'a str {
    open spec fn converts_to(&self, r: Result<TerminalCloseMessageType, ConversionError>) -> bool {
        match r {
            Ok(v) => v.wire() == (*self)@,
            Err(e) => (forall|v: TerminalCloseMessageType| v.wire() != (*self)@) && e.0@ == "invalid value"@,
        }
    }

    fn supply(self) -> (r: Result<TerminalCloseMessageType, ConversionError>) {
        TerminalCloseMessageType::from_str(self)
    }
}

impl Supply<TerminalCloseMessageType> for String {
    open spec fn converts_to(&self, r: Result<TerminalCloseMessageType, ConversionError>) -> bool {
        match r {
            Ok(v) => v.wire() == (*self)@,
            Err(e) => (forall|v: TerminalCloseMessageType| v.wire() != (*self)@) && e.0@ == "invalid value"@,
        }
    }

    fn supply(self) -> (r: Result<TerminalCloseMessageType, ConversionError>) {
        TerminalCloseMessageType::from_str(self.as_str())
    }
}

/// Text supplied for a `TerminalCloseReason` goes through its checked constructor.
impl<'a> Supply<TerminalCloseReason> for &'a str {
    open spec fn converts_to(&self, r: Result<TerminalCloseReason, ConversionError>) -> bool {
        match r {
            Ok(v) => v.wire() == (*self)@,
            Err(e) => (forall|v: TerminalCloseReason| v.wire() != (*self)@) && e.0@ == "invalid value"@,
        }
    }

    fn supply(self) -> (r: Result<TerminalCloseReason, ConversionError>) {
        TerminalCloseReason::from_str(self)
    }
}

impl Supply<TerminalCloseReason> for String {
    open spec fn converts_to(&self, r: Result<TerminalCloseReason, ConversionError>) -> bool {
        match r {
            Ok(v) => v.wire() == (*self)@,
            Err(e) => (forall|v: TerminalCloseReason| v.wire() != (*self)@) && e.0@ == "invalid value"@,
        }
    }

    fn supply(self) -> (r: Result<TerminalCloseReason, ConversionError>) {
        TerminalCloseReason::from_str(self.as_str())
    }
}

/// Text supplied for a `TerminalErrorMessageType` goes through its checked constructor.
impl<'a> Supply<TerminalErrorMessageType> for &'a str {
    open spec fn converts_to(&self, r: Result<TerminalErrorMessageType, ConversionError>) -> bool {
        match r {
            Ok(v) => v.wire() == (*self)@,
            Err(e) => (forall|v: TerminalErrorMessageType| v.wire() != (*self)@) && e.0@ == "invalid value"@,
        }
    }

    fn supply(self) -> (r: Result<TerminalErrorMessageType, ConversionError>) {
        TerminalErrorMessageType::from_str(self)
    }
}

impl Supply<TerminalErrorMessageType> for String {
    open spec fn converts_to(&self, r: Result<TerminalErrorMessageType, ConversionError>) -> bool {
        match r {
            Ok(v) => v.wire() == (*self)@,
            Err(e) => (forall|v: TerminalErrorMessageType| v.wire() != (*self)@) && e.0@ == "invalid value"@,
        }
    }

    fn supply(self) -> (r: Result<TerminalErrorMessageType, ConversionError>) {
        TerminalErrorMessageType::from_str(self.as_str())
    }
}

/// Text supplied for a `TerminalOpenMessageType` goes through its checked constructor.
impl<'a> Supply<TerminalOpenMessageType> for &'a str {
    open spec fn converts_to(&self, r: Result<TerminalOpenMessageType, ConversionError>) -> bool {
        match r {
            Ok(v) => v.wire() == (*self)@,
            Err(e) => (forall|v: TerminalOpenMessageType| v.wire() != (*self)@) && e.0@ == "invalid value"@,
        }
    }

    fn supply(self) -> (r: Result<TerminalOpenMessageType, ConversionError>) {
        TerminalOpenMessageType::from_str(self)
    }
}

impl Supply<TerminalOpenMessageType> for String {
    open spec fn converts_to(&self, r: Result<TerminalOpenMessageType, ConversionError>) -> bool {
        match r {
            Ok(v) => v.wire() == (*self)@,
            Err(e) => (forall|v: TerminalOpenMessageType| v.wire() != (*self)@) && e.0@ == "invalid value"@,
        }
    }

    fn supply(self) -> (r: Result<TerminalOpenMessageType, ConversionError>) {
        TerminalOpenMessageType::from_str(self.as_str())
    }
}

/// Text supplied for a `TerminalOpenedMessageType` goes through its checked constructor.
impl<'a> Supply<TerminalOpenedMessageType> for &'a str {
    open spec fn converts_to(&self, r: Result<TerminalOpenedMessageType, ConversionError>) -> bool {
        match r {
            Ok(v) => v.wire() == (*self)@,
            Err(e) => (forall|v: TerminalOpenedMessageType| v.wire() != (*self)@) && e.0@ == "invalid value"@,
        }
    }

    fn supply(self) -> (r: Result<TerminalOpenedMessageType, ConversionError>) {
        TerminalOpenedMessageType::from_str(self)
    }
}

impl Supply<TerminalOpenedMessageType> for String {
    open spec fn converts_to(&self, r: Result<TerminalOpenedMessageType, ConversionError>) -> bool {
        match r {
            Ok(v) => v.wire() == (*self)@,
            Err(e) => (forall|v: TerminalOpenedMessageType| v.wire() != (*self)@) && e.0@ == "invalid value"@,
        }
    }

    fn supply(self) -> (r: Result<TerminalOpenedMessageType, ConversionError>) {
        TerminalOpenedMessageType::from_str(self.as_str())
    }
}

/// Text supplied for a `TerminalResizeMessageType` goes through its checked constructor.
impl<'a> Supply<TerminalResizeMessageType> for &'a str {
    open spec fn converts_to(&self, r: Result<TerminalResizeMessageType, ConversionError>) -> bool {
        match r {
            Ok(v) => v.wire() == (*self)@,
            Err(e) => (forall|v: TerminalResizeMessageType| v.wire() != (*self)@) && e.0@ == "invalid value"@,
        }
    }

    fn supply(self) -> (r: Result<TerminalResizeMessageType, ConversionError>) {
        TerminalResizeMessageType::from_str(self)
    }
}

impl Supply<TerminalResizeMessageType> for String {
    open spec fn converts_to(&self, r: Result<TerminalResizeMessageType, ConversionError>) -> bool {
        match r {
            Ok(v) => v.wire() == (*self)@,
            Err(e) => (forall|v: TerminalResizeMessageType| v.wire() != (*self)@) && e.0@ == "invalid value"@,
        }
    }

    fn supply(self) -> (r: Result<TerminalResizeMessageType, ConversionError>) {
        TerminalResizeMessageType::from_str(self.as_str())
    }
}

/// Text supplied for a `TerminalShellEventMessageType` goes through its checked constructor.
impl<'a> Supply<TerminalShellEventMessageType> for &'a str {
    open spec fn converts_to(&self, r: Result<TerminalShellEventMessageType, ConversionError>) -> bool {
        match r {
            Ok(v) => v.wire() == (*self)@,
            Err(e) => (forall|v: TerminalShellEventMessageType| v.wire() != (*self)@) && e.0@ == "invalid value"@,
        }
    }

    fn supply(self) -> (r: Result<TerminalShellEventMessageType, ConversionError>) {
        TerminalShellEventMessageType::from_str(self)
    }
}

impl Supply<TerminalShellEventMessageType> for String {
    open spec fn converts_to(&self, r: Result<TerminalShellEventMessageType, ConversionError>) -> bool {
        match r {
            Ok(v) => v.wire() == (*self)@,
            Err(e) => (forall|v: TerminalShellEventMessageType| v.wire() != (*self)@) && e.0@ == "invalid value"@,
        }
    }

    fn supply(self) -> (r: Result<TerminalShellEventMessageType, ConversionError>) {
        TerminalShellEventMessageType::from_str(self.as_str())
    }
}

/// Text supplied for a `TransferAbortMessageType` goes through its checked constructor.
impl<'a> Supply<TransferAbortMessageType> for &'a str {
    open spec fn converts_to(&self, r: Result<TransferAbortMessageType, ConversionError>) -> bool {
        match r {
            Ok(v) => v.wire() == (*self)@,
            Err(e) => (forall|v: TransferAbortMessageType| v.wire() != (*self)@) && e.0@ == "invalid value"@,
        }
    }

    fn supply(self) -> (r: Result<TransferAbortMessageType, ConversionError>) {
        TransferAbortMessageType::from_str(self)
    }
}

impl Supply<TransferAbortMessageType> for String {
    open spec fn converts_to(&self, r: Result<TransferAbortMessageType, ConversionError>) -> bool {
        match r {
            Ok(v) => v.wire() == (*self)@,
            Err(e) => (forall|v: TransferAbortMessageType| v.wire() != (*self)@) && e.0@ == "invalid value"@,
        }
    }

    fn supply(self) -> (r: Result<TransferAbortMessageType, ConversionError>) {
        TransferAbortMessageType::from_str(self.as_str())
    }
}

/// Text supplied for a `TransferAcceptedMessageType` goes through its checked constructor.
impl<'a> Supply<TransferAcceptedMessageType> for &'a str {
    open spec fn converts_to(&self, r: Result<TransferAcceptedMessageType, ConversionError>) -> bool {
        match r {
            Ok(v) => v.wire() == (*self)@,
            Err(e) => (forall|v: TransferAcceptedMessageType| v.wire() != (*self)@) && e.0@ == "invalid value"@,
        }
    }

    fn supply(self) -> (r: Result<TransferAcceptedMessageType, ConversionError>) {
        TransferAcceptedMessageType::from_str(self)
    }
}

impl Supply<TransferAcceptedMessageType> for String {
    open spec fn converts_to(&self, r: Result<TransferAcceptedMessageType, ConversionError>) -> bool {
        match r {
            Ok(v) => v.wire() == (*self)@,
            Err(e) => (forall|v: TransferAcceptedMessageType| v.wire() != (*self)@) && e.0@ == "invalid value"@,
        }
    }

    fn supply(self) -> (r: Result<TransferAcceptedMessageType, ConversionError>) {
        TransferAcceptedMessageType::from_str(self.as_str())
    }
}

/// Text supplied for a `TransferCompleteMessageType` goes through its checked constructor.
impl<'a> Supply<TransferCompleteMessageType> for &'a str {
    open spec fn converts_to(&self, r: Result<TransferCompleteMessageType, ConversionError>) -> bool {
        match r {
            Ok(v) => v.wire() == (*self)@,
            Err(e) => (forall|v: TransferCompleteMessageType| v.wire() != (*self)@) && e.0@ == "invalid value"@,
        }
    }

    fn supply(self) -> (r: Result<TransferCompleteMessageType, ConversionError>) {
        TransferCompleteMessageType::from_str(self)
    }
}

impl Supply<TransferCompleteMessageType> for String {
    open spec fn converts_to(&self, r: Result<TransferCompleteMessageType, ConversionError>) -> bool {
        match r {
            Ok(v) => v.wire() == (*self)@,
            Err(e) => (forall|v: TransferCompleteMessageType| v.wire() != (*self)@) && e.0@ == "invalid value"@,
        }
    }

    fn supply(self) -> (r: Result<TransferCompleteMessageType, ConversionError>) {
        TransferCompleteMessageType::from_str(self.as_str())
    }
}

/// Text supplied for a `TransferCreditMessageType` goes through its checked constructor.
impl<'a> Supply<TransferCreditMessageType> for &'a str {
    open spec fn converts_to(&self, r: Result<TransferCreditMessageType, ConversionError>) -> bool {
        match r {
            Ok(v) => v.wire() == (*self)@,
            Err(e) => (forall|v: TransferCreditMessageType| v.wire() != (*self)@) && e.0@ == "invalid value"@,
        }
    }

    fn supply(self) -> (r: Result<TransferCreditMessageType, ConversionError>) {
        TransferCreditMessageType::from_str(self)
    }
}

impl Supply<TransferCreditMessageType> for String {
    open spec fn converts_to(&self, r: Result<TransferCreditMessageType, ConversionError>) -> bool {
        match r {
            Ok(v) => v.wire() == (*self)@,
            Err(e) => (forall|v: TransferCreditMessageType| v.wire() != (*self)@) && e.0@ == "invalid value"@,
        }
    }

    fn supply(self) -> (r: Result<TransferCreditMessageType, ConversionError>) {
        TransferCreditMessageType::from_str(self.as_str())
    }
}

/// Text supplied for a `TransferFileEndMessageType` goes through its checked constructor.
impl<'a> Supply<TransferFileEndMessageType> for &'a str {
    open spec fn converts_to(&self, r: Result<TransferFileEndMessageType, ConversionError>) -> bool {
        match r {
            Ok(v) => v.wire() == (*self)@,
            Err(e) => (forall|v: TransferFileEndMessageType| v.wire() != (*self)@) && e.0@ == "invalid value"@,
        }
    }

    fn supply(self) -> (r: Result<TransferFileEndMessageType, ConversionError>) {
        TransferFileEndMessageType::from_str(self)
    }
}

impl Supply<TransferFileEndMessageType> for String {
    open spec fn converts_to(&self, r: Result<TransferFileEndMessageType, ConversionError>) -> bool {
        match r {
            Ok(v) => v.wire() == (*self)@,
            Err(e) => (forall|v: TransferFileEndMessageType| v.wire() != (*self)@) && e.0@ == "invalid value"@,
        }
    }

    fn supply(self) -> (r: Result<TransferFileEndMessageType, ConversionError>) {
        TransferFileEndMessageType::from_str(self.as_str())
    }
}

/// Text supplied for a `TransferResultMessageType` goes through its checked constructor.
impl<'a> Supply<TransferResultMessageType> for &'a str {
    open spec fn converts_to(&self, r: Result<TransferResultMessageType, ConversionError>) -> bool {
        match r {
            Ok(v) => v.wire() == (*self)@,
            Err(e) => (forall|v: TransferResultMessageType| v.wire() != (*self)@) && e.0@ == "invalid value"@,
        }
    }

    fn supply(self) -> (r: Result<TransferResultMessageType, ConversionError>) {
        TransferResultMessageType::from_str(self)
    }
}

impl Supply<TransferResultMessageType> for String {
    open spec fn converts_to(&self, r: Result<TransferResultMessageType, ConversionError>) -> bool {
        match r {
            Ok(v) => v.wire() == (*self)@,
            Err(e) => (forall|v: TransferResultMessageType| v.wire() != (*self)@) && e.0@ == "invalid value"@,
        }
    }

    fn supply(self) -> (r: Result<TransferResultMessageType, ConversionError>) {
        TransferResultMessageType::from_str(self.as_str())
    }
}

/// Text supplied for a `TransferStartMessageType` goes through its checked constructor.
impl<'a> Supply<TransferStartMessageType> for &'a str {
    open spec fn converts_to(&self, r: Result<TransferStartMessageType, ConversionError>) -> bool {
        match r {
            Ok(v) => v.wire() == (*self)@,
            Err(e) => (forall|v: TransferStartMessageType| v.wire() != (*self)@) && e.0@ == "invalid value"@,
        }
    }

    fn supply(self) -> (r: Result<TransferStartMessageType, ConversionError>) {
        TransferStartMessageType::from_str(self)
    }
}

impl Supply<TransferStartMessageType> for String {
    open spec fn converts_to(&self, r: Result<TransferStartMessageType, ConversionError>) -> bool {
        match r {
            Ok(v) => v.wire() == (*self)@,
            Err(e) => (forall|v: TransferStartMessageType| v.wire() != (*self)@) && e.0@ == "invalid value"@,
        }
    }

    fn supply(self) -> (r: Result<TransferStartMessageType, ConversionError>) {
        TransferStartMessageType::from_str(self.as_str())
    }
}

/// Text supplied for a `Uuid` goes through its checked constructor.
impl<'a> Supply<Uuid> for &'a str {
    open spec fn converts_to(&self, r: Result<Uuid, ConversionError>) -> bool {
        match r {
            Ok(v) => is_uuid_text((*self)@) && v@ == (*self)@,
            Err(e) => !is_uuid_text((*self)@) && e.0@ == "doesn't match pattern \"^[0-9a-f]{8}-[0-9a-f]{4}-[0-9a-f]{4}-[0-9a-f]{4}-[0-9a-f]{12}$\""@,
        }
    }

    fn supply(self) -> (r: Result<Uuid, ConversionError>) {
        Uuid::from_str(self)
    }
}

impl Supply<Uuid> for String {
    open spec fn converts_to(&self, r: Result<Uuid, ConversionError>) -> bool {
        match r {
            Ok(v) => is_uuid_text((*self)@) && v@ == (*self)@,
            Err(e) => !is_uuid_text((*self)@) && e.0@ == "doesn't match pattern \"^[0-9a-f]{8}-[0-9a-f]{4}-[0-9a-f]{4}-[0-9a-f]{4}-[0-9a-f]{12}$\""@,
        }
    }

    fn supply(self) -> (r: Result<Uuid, ConversionError>) {
        Uuid::from_str(self.as_str())
    }
}

/// Text supplied for a `Semver` goes through its checked constructor.
impl<'a> Supply<Semver> for &'a str {
    open spec fn converts_to(&self, r: Result<Semver, ConversionError>) -> bool {
        match r {
            Ok(v) => is_semver_text((*self)@) && v@ == (*self)@,
            Err(e) => !is_semver_text((*self)@) && e.0@ == "doesn't match pattern \"^(0|[1-9]\\d*)\\.(0|[1-9]\\d*)\\.(0|[1-9]\\d*)(?:-[0-9A-Za-z-.]+)?(?:\\+[0-9A-Za-z-.]+)?$\""@,
        }
    }

    fn supply(self) -> (r: Result<Semver, ConversionError>) {
        Semver::from_str(self)
    }
}

impl Supply<Semver> for String {
    open spec fn converts_to(&self, r: Result<Semver, ConversionError>) -> bool {
        match r {
            Ok(v) => is_semver_text((*self)@) && v@ == (*self)@,
            Err(e) => !is_semver_text((*self)@) && e.0@ == "doesn't match pattern \"^(0|[1-9]\\d*)\\.(0|[1-9]\\d*)\\.(0|[1-9]\\d*)(?:-[0-9A-Za-z-.]+)?(?:\\+[0-9A-Za-z-.]+)?$\""@,
        }
    }

    fn supply(self) -> (r: Result<Semver, ConversionError>) {
        Semver::from_str(self.as_str())
    }
}

/// Text supplied for a `SafeRelativePath` goes through its checked constructor.
impl<'a> Supply<SafeRelativePath> for &'a str {
    open spec fn converts_to(&self, r: Result<SafeRelativePath, ConversionError>) -> bool {
        match r {
            Ok(v) => is_safe_relative_path_text((*self)@) && v@ == (*self)@,
            Err(e) => !is_safe_relative_path_text((*self)@) && e.0@ == "doesn't match pattern \"^(?!/)(?![A-Za-z]:)(?!.*\\\\)(?!.*//)(?!.*(^|/)\\.\\.(/|$))(?!.*(^|/)\\.(/|$))[^\\u0000]*[^\\u0000/]$\""@,
        }
    }

    fn supply(self) -> (r: Result<SafeRelativePath, ConversionError>) {
        SafeRelativePath::from_str(self)
    }
}

impl Supply<SafeRelativePath> for String {
    open spec fn converts_to(&self, r: Result<SafeRelativePath, ConversionError>) -> bool {
        match r {
            Ok(v) => is_safe_relative_path_text((*self)@) && v@ == (*self)@,
            Err(e) => !is_safe_relative_path_text((*self)@) && e.0@ == "doesn't match pattern \"^(?!/)(?![A-Za-z]:)(?!.*\\\\)(?!.*//)(?!.*(^|/)\\.\\.(/|$))(?!.*(^|/)\\.(/|$))[^\\u0000]*[^\\u0000/]$\""@,
        }
    }

    fn supply(self) -> (r: Result<SafeRelativePath, ConversionError>) {
        SafeRelativePath::from_str(self.as_str())
    }
}

/// Text supplied for a `TerminalErrorMessagePayloadMessage` goes through its checked constructor.
impl<'a> Supply<TerminalErrorMessagePayloadMessage> for &'a str {
    open spec fn converts_to(&self, r: Result<TerminalErrorMessagePayloadMessage, ConversionError>) -> bool {
        match r {
            Ok(v) => 1 <= (*self)@.len() <= 512 && v@ == (*self)@,
            Err(e) => ((*self)@.len() > 512 && e.0@ == "longer than 512 characters"@) || ((*self)@.len() < 1 && e.0@
                == "shorter than 1 characters"@),
        }
    }

    fn supply(self) -> (r: Result<TerminalErrorMessagePayloadMessage, ConversionError>) {
        TerminalErrorMessagePayloadMessage::from_str(self)
    }
}

impl Supply<TerminalErrorMessagePayloadMessage> for String {
    open spec fn converts_to(&self, r: Result<TerminalErrorMessagePayloadMessage, ConversionError>) -> bool {
        match r {
            Ok(v) => 1 <= (*self)@.len() <= 512 && v@ == (*self)@,
            Err(e) => ((*self)@.len() > 512 && e.0@ == "longer than 512 characters"@) || ((*self)@.len() < 1 && e.0@
                == "shorter than 1 characters"@),
        }
    }

    fn supply(self) -> (r: Result<TerminalErrorMessagePayloadMessage, ConversionError>) {
        TerminalErrorMessagePayloadMessage::from_str(self.as_str())
    }
}

/// Text supplied for a `TerminalOpenedMessagePayloadShell` goes through its checked constructor.
impl<'a> Supply<TerminalOpenedMessagePayloadShell> for &'a str {
    open spec fn converts_to(&self, r: Result<TerminalOpenedMessagePayloadShell, ConversionError>) -> bool {
        match r {
            Ok(v) => 1 <= (*self)@.len() <= 260 && v@ == (*self)@,
            Err(e) => ((*self)@.len() > 260 && e.0@ == "longer than 260 characters"@) || ((*self)@.len() < 1 && e.0@
                == "shorter than 1 characters"@),
        }
    }

    fn supply(self) -> (r: Result<TerminalOpenedMessagePayloadShell, ConversionError>) {
        TerminalOpenedMessagePayloadShell::from_str(self)
    }
}

impl Supply<TerminalOpenedMessagePayloadShell> for String {
    open spec fn converts_to(&self, r: Result<TerminalOpenedMessagePayloadShell, ConversionError>) -> bool {
        match r {
            Ok(v) => 1 <= (*self)@.len() <= 260 && v@ == (*self)@,
            Err(e) => ((*self)@.len() > 260 && e.0@ == "longer than 260 characters"@) || ((*self)@.len() < 1 && e.0@
                == "shorter than 1 characters"@),
        }
    }

    fn supply(self) -> (r: Result<TerminalOpenedMessagePayloadShell, ConversionError>) {
        TerminalOpenedMessagePayloadShell::from_str(self.as_str())
    }
}

/// Text supplied for a `TransferResultMessagePayloadMessage` goes through its checked constructor.
impl<'a> Supply<TransferResultMessagePayloadMessage> for &'a str {
    open spec fn converts_to(&self, r: Result<TransferResultMessagePayloadMessage, ConversionError>) -> bool {
        match r {
            Ok(v) => (*self)@.len() <= 512 && v@ == (*self)@,
            Err(e) => (*self)@.len() > 512 && e.0@ == "longer than 512 characters"@,
        }
    }

    fn supply(self) -> (r: Result<TransferResultMessagePayloadMessage, ConversionError>) {
        TransferResultMessagePayloadMessage::from_str(self)
    }
}

impl Supply<TransferResultMessagePayloadMessage> for String {
    open spec fn converts_to(&self, r: Result<TransferResultMessagePayloadMessage, ConversionError>) -> bool {
        match r {
            Ok(v) => (*self)@.len() <= 512 && v@ == (*self)@,
            Err(e) => (*self)@.len() > 512 && e.0@ == "longer than 512 characters"@,
        }
    }

    fn supply(self) -> (r: Result<TransferResultMessagePayloadMessage, ConversionError>) {
        TransferResultMessagePayloadMessage::from_str(self.as_str())
    }
}

/// What chrono's `DateTime<Utc>::from_str` makes of `text` (a relaxed RFC
/// 3339 timestamp, any offset, taken to UTC): the whole seconds since the
/// Unix epoch and the nanoseconds past them, or the text of its error.
pub uninterp spec fn utc_instant(text: Seq<char>) -> Result<(i64, u32), Seq<char>>;

/// Parses `text` with chrono's `FromStr` for `DateTime<Utc>` and takes its
/// `timestamp` and `timestamp_subsec_nanos`, or the `Display` text of the
/// parse error. The result depends on the text alone.
#[verifier::external_body]
fn parse_utc_instant(text: &str) -> (r: Result<(i64, u32), String>)
    ensures
        match r {
            Ok(t) => utc_instant(text@) == Ok::<(i64, u32), Seq<char>>(t),
            Err(e) => utc_instant(text@) == Err::<(i64, u32), Seq<char>>(e@),
        },
{
    match text.parse::<chrono::DateTime<chrono::Utc>>() {
        Ok(t) => Ok((t.timestamp(), t.timestamp_subsec_nanos())),
        Err(e) => Err(e.to_string()),
    }
}

impl DateTime {
    /// The instant an RFC 3339 timestamp names, as chrono reads it.
    pub fn from_str(value: &str) -> (r: Result<Self, ConversionError>)
        ensures
            match utc_instant(value@) {
                Ok(t) => r == Ok::<DateTime, ConversionError>(DateTime { seconds: t.0, nanos: t.1 }),
                Err(m) => r matches Err(e) && e.0@ == m,
            },
    {
        match parse_utc_instant(value) {
            Ok(t) => Ok(DateTime { seconds: t.0, nanos: t.1 }),
            Err(m) => Err(ConversionError(m)),
        }
    }
}

/// Text supplied for a `DateTime` is read as an RFC 3339 timestamp.
impl<'a> Supply<DateTime> for &'a str {
    open spec fn converts_to(&self, r: Result<DateTime, ConversionError>) -> bool {
        match utc_instant((*self)@) {
            Ok(t) => r == Ok::<DateTime, ConversionError>(DateTime { seconds: t.0, nanos: t.1 }),
            Err(m) => r matches Err(e) && e.0@ == m,
        }
    }

    fn supply(self) -> (r: Result<DateTime, ConversionError>) {
        DateTime::from_str(self)
    }
}

impl Supply<DateTime> for String {
    open spec fn converts_to(&self, r: Result<DateTime, ConversionError>) -> bool {
        match utc_instant((*self)@) {
            Ok(t) => r == Ok::<DateTime, ConversionError>(DateTime { seconds: t.0, nanos: t.1 }),
            Err(m) => r matches Err(e) && e.0@ == m,
        }
    }

    fn supply(self) -> (r: Result<DateTime, ConversionError>) {
        DateTime::from_str(self.as_str())
    }
}

/// `()` supplied for a field that holds JSON `null`.
impl Supply<Null> for () {
    open spec fn converts_to(&self, r: Result<Null, ConversionError>) -> bool {
        r == Ok::<Null, ConversionError>(Null)
    }

    fn supply(self) -> (r: Result<Null, ConversionError>) {
        Ok(Null)
    }
}

} // verus!
