//! Builders for the control messages: each field is set by a method of its
//! own, and `try_from` turns a builder into a message once every field has
//! been supplied.

use vstd::prelude::*;
use super::error::{outcome, ConversionError};
use super::supply::{supplied_as, supply_field, Supply};

verus! {

/// `r` is unset, with `message` as the reason.
pub open spec fn unset<T>(r: Result<T, String>, message: Seq<char>) -> bool {
    match r {
        Ok(_) => false,
        Err(e) => e@ == message,
    }
}

/// A `AgentHeartbeatMessage` under construction: each field holds its value or why it
/// has none.
#[derive(Debug)]
pub struct AgentHeartbeatMessage {
    device_id: Result<super::Uuid, String>,
    payload: Result<super::AgentHeartbeatMessagePayload, String>,
    protocol_version: Result<super::AgentHeartbeatMessageProtocolVersion, String>,
    request_id: Result<super::Null, String>,
    session_id: Result<super::Null, String>,
    type_: Result<super::AgentHeartbeatMessageType, String>,
}

impl AgentHeartbeatMessage {
    pub closed spec fn spec_device_id(&self) -> Result<super::Uuid, String> {
        self.device_id
    }

    pub closed spec fn spec_payload(&self) -> Result<super::AgentHeartbeatMessagePayload, String> {
        self.payload
    }

    pub closed spec fn spec_protocol_version(&self) -> Result<super::AgentHeartbeatMessageProtocolVersion, String> {
        self.protocol_version
    }

    pub closed spec fn spec_request_id(&self) -> Result<super::Null, String> {
        self.request_id
    }

    pub closed spec fn spec_session_id(&self) -> Result<super::Null, String> {
        self.session_id
    }

    pub closed spec fn spec_type_(&self) -> Result<super::AgentHeartbeatMessageType, String> {
        self.type_
    }

    /// Every field unset.
    pub open spec fn all_unset(&self) -> bool {
        unset(self.spec_device_id(), "no value supplied for device_id"@)
            && unset(self.spec_payload(), "no value supplied for payload"@)
            && unset(self.spec_protocol_version(), "no value supplied for protocol_version"@)
            && unset(self.spec_request_id(), "no value supplied for request_id"@)
            && unset(self.spec_session_id(), "no value supplied for session_id"@)
            && unset(self.spec_type_(), "no value supplied for type_"@)
    }

    /// What `try_from` makes of this builder: the reason of the first unset
    /// field in declaration order, or the message.
    pub open spec fn build_outcome(&self) -> Result<super::AgentHeartbeatMessage, Seq<char>> {
        if self.spec_device_id() is Err {
            Err(self.spec_device_id()->Err_0@)
        } else if self.spec_payload() is Err {
            Err(self.spec_payload()->Err_0@)
        } else if self.spec_protocol_version() is Err {
            Err(self.spec_protocol_version()->Err_0@)
        } else if self.spec_request_id() is Err {
            Err(self.spec_request_id()->Err_0@)
        } else if self.spec_session_id() is Err {
            Err(self.spec_session_id()->Err_0@)
        } else if self.spec_type_() is Err {
            Err(self.spec_type_()->Err_0@)
        } else {
            Ok(super::AgentHeartbeatMessage {
                device_id: self.spec_device_id()->Ok_0,
                payload: self.spec_payload()->Ok_0,
                protocol_version: self.spec_protocol_version()->Ok_0,
                request_id: self.spec_request_id()->Ok_0,
                session_id: self.spec_session_id()->Ok_0,
                type_: self.spec_type_()->Ok_0,
            })
        }
    }

    /// Sets `device_id` from a value of its type or one that converts to it;
    /// a failed conversion is kept as the reason `device_id` has no value.
    pub fn device_id<V: Supply<super::Uuid>>(self, value: V) -> (r: Self)
        ensures
            supplied_as(value, r.spec_device_id(), "device_id"@),
            r.spec_payload() == self.spec_payload(),
            r.spec_protocol_version() == self.spec_protocol_version(),
            r.spec_request_id() == self.spec_request_id(),
            r.spec_session_id() == self.spec_session_id(),
            r.spec_type_() == self.spec_type_(),
    {
        let mut b = self;
        b.device_id = supply_field(value, "device_id");
        b
    }

    /// Sets `payload` from a value of its type or one that converts to it;
    /// a failed conversion is kept as the reason `payload` has no value.
    pub fn payload<V: Supply<super::AgentHeartbeatMessagePayload>>(self, value: V) -> (r: Self)
        ensures
            supplied_as(value, r.spec_payload(), "payload"@),
            r.spec_device_id() == self.spec_device_id(),
            r.spec_protocol_version() == self.spec_protocol_version(),
            r.spec_request_id() == self.spec_request_id(),
            r.spec_session_id() == self.spec_session_id(),
            r.spec_type_() == self.spec_type_(),
    {
        let mut b = self;
        b.payload = supply_field(value, "payload");
        b
    }

    /// Sets `protocol_version` from a value of its type or one that converts to it;
    /// a failed conversion is kept as the reason `protocol_version` has no value.
    pub fn protocol_version<V: Supply<super::AgentHeartbeatMessageProtocolVersion>>(self, value: V) -> (r: Self)
        ensures
            supplied_as(value, r.spec_protocol_version(), "protocol_version"@),
            r.spec_device_id() == self.spec_device_id(),
            r.spec_payload() == self.spec_payload(),
            r.spec_request_id() == self.spec_request_id(),
            r.spec_session_id() == self.spec_session_id(),
            r.spec_type_() == self.spec_type_(),
    {
        let mut b = self;
        b.protocol_version = supply_field(value, "protocol_version");
        b
    }

    /// Sets `request_id` from a value of its type or one that converts to it;
    /// a failed conversion is kept as the reason `request_id` has no value.
    pub fn request_id<V: Supply<super::Null>>(self, value: V) -> (r: Self)
        ensures
            supplied_as(value, r.spec_request_id(), "request_id"@),
            r.spec_device_id() == self.spec_device_id(),
            r.spec_payload() == self.spec_payload(),
            r.spec_protocol_version() == self.spec_protocol_version(),
            r.spec_session_id() == self.spec_session_id(),
            r.spec_type_() == self.spec_type_(),
    {
        let mut b = self;
        b.request_id = supply_field(value, "request_id");
        b
    }

    /// Sets `session_id` from a value of its type or one that converts to it;
    /// a failed conversion is kept as the reason `session_id` has no value.
    pub fn session_id<V: Supply<super::Null>>(self, value: V) -> (r: Self)
        ensures
            supplied_as(value, r.spec_session_id(), "session_id"@),
            r.spec_device_id() == self.spec_device_id(),
            r.spec_payload() == self.spec_payload(),
            r.spec_protocol_version() == self.spec_protocol_version(),
            r.spec_request_id() == self.spec_request_id(),
            r.spec_type_() == self.spec_type_(),
    {
        let mut b = self;
        b.session_id = supply_field(value, "session_id");
        b
    }

    /// Sets `type_` from a value of its type or one that converts to it;
    /// a failed conversion is kept as the reason `type_` has no value.
    pub fn type_<V: Supply<super::AgentHeartbeatMessageType>>(self, value: V) -> (r: Self)
        ensures
            supplied_as(value, r.spec_type_(), "type_"@),
            r.spec_device_id() == self.spec_device_id(),
            r.spec_payload() == self.spec_payload(),
            r.spec_protocol_version() == self.spec_protocol_version(),
            r.spec_request_id() == self.spec_request_id(),
            r.spec_session_id() == self.spec_session_id(),
    {
        let mut b = self;
        b.type_ = supply_field(value, "type_");
        b
    }

    /// A builder holding every field of `value`.
    pub fn from(value: super::AgentHeartbeatMessage) -> (r: Self)
        ensures
            r.spec_device_id() == Ok::<super::Uuid, String>(value.device_id),
            r.spec_payload() == Ok::<super::AgentHeartbeatMessagePayload, String>(value.payload),
            r.spec_protocol_version() == Ok::<super::AgentHeartbeatMessageProtocolVersion, String>(value.protocol_version),
            r.spec_request_id() == Ok::<super::Null, String>(value.request_id),
            r.spec_session_id() == Ok::<super::Null, String>(value.session_id),
            r.spec_type_() == Ok::<super::AgentHeartbeatMessageType, String>(value.type_),
            r.build_outcome() == Ok::<super::AgentHeartbeatMessage, Seq<char>>(value),
    {
        AgentHeartbeatMessage {
            device_id: Ok(value.device_id),
            payload: Ok(value.payload),
            protocol_version: Ok(value.protocol_version),
            request_id: Ok(value.request_id),
            session_id: Ok(value.session_id),
            type_: Ok(value.type_),
        }
    }
}

impl Default for AgentHeartbeatMessage {
    fn default() -> (r: Self)
        ensures
            r.all_unset(),
    {
        AgentHeartbeatMessage {
            device_id: Err("no value supplied for device_id".to_owned()),
            payload: Err("no value supplied for payload".to_owned()),
            protocol_version: Err("no value supplied for protocol_version".to_owned()),
            request_id: Err("no value supplied for request_id".to_owned()),
            session_id: Err("no value supplied for session_id".to_owned()),
            type_: Err("no value supplied for type_".to_owned()),
        }
    }
}

impl super::AgentHeartbeatMessage {
    /// The message a builder holds, or the reason of its first unset field.
    pub fn try_from(value: AgentHeartbeatMessage) -> (r: Result<Self, ConversionError>)
        ensures
            outcome(r) == value.build_outcome(),
    {
        let device_id = match value.device_id {
            Ok(v) => v,
            Err(e) => return Err(ConversionError(e)),
        };
        let payload = match value.payload {
            Ok(v) => v,
            Err(e) => return Err(ConversionError(e)),
        };
        let protocol_version = match value.protocol_version {
            Ok(v) => v,
            Err(e) => return Err(ConversionError(e)),
        };
        let request_id = match value.request_id {
            Ok(v) => v,
            Err(e) => return Err(ConversionError(e)),
        };
        let session_id = match value.session_id {
            Ok(v) => v,
            Err(e) => return Err(ConversionError(e)),
        };
        let type_ = match value.type_ {
            Ok(v) => v,
            Err(e) => return Err(ConversionError(e)),
        };
        Ok(Self { device_id, payload, protocol_version, request_id, session_id, type_ })
    }
}

/// A `AgentHeartbeatMessagePayload` under construction: each field holds its value or why it
/// has none.
#[derive(Debug)]
pub struct AgentHeartbeatMessagePayload {
    timestamp: Result<super::DateTime, String>,
}

impl AgentHeartbeatMessagePayload {
    pub closed spec fn spec_timestamp(&self) -> Result<super::DateTime, String> {
        self.timestamp
    }

    /// Every field unset.
    pub open spec fn all_unset(&self) -> bool {
        unset(self.spec_timestamp(), "no value supplied for timestamp"@)
    }

    /// What `try_from` makes of this builder: the reason of the first unset
    /// field in declaration order, or the message.
    pub open spec fn build_outcome(&self) -> Result<super::AgentHeartbeatMessagePayload, Seq<char>> {
        if self.spec_timestamp() is Err {
            Err(self.spec_timestamp()->Err_0@)
        } else {
            Ok(super::AgentHeartbeatMessagePayload {
                timestamp: self.spec_timestamp()->Ok_0,
            })
        }
    }

    /// Sets `timestamp` from a value of its type or one that converts to it;
    /// a failed conversion is kept as the reason `timestamp` has no value.
    pub fn timestamp<V: Supply<super::DateTime>>(self, value: V) -> (r: Self)
        ensures
            supplied_as(value, r.spec_timestamp(), "timestamp"@),
    {
        let mut b = self;
        b.timestamp = supply_field(value, "timestamp");
        b
    }

    /// A builder holding every field of `value`.
    pub fn from(value: super::AgentHeartbeatMessagePayload) -> (r: Self)
        ensures
            r.spec_timestamp() == Ok::<super::DateTime, String>(value.timestamp),
            r.build_outcome() == Ok::<super::AgentHeartbeatMessagePayload, Seq<char>>(value),
    {
        AgentHeartbeatMessagePayload {
            timestamp: Ok(value.timestamp),
        }
    }
}

impl Default for AgentHeartbeatMessagePayload {
    fn default() -> (r: Self)
        ensures
            r.all_unset(),
    {
        AgentHeartbeatMessagePayload {
            timestamp: Err("no value supplied for timestamp".to_owned()),
        }
    }
}

impl super::AgentHeartbeatMessagePayload {
    /// The message a builder holds, or the reason of its first unset field.
    pub fn try_from(value: AgentHeartbeatMessagePayload) -> (r: Result<Self, ConversionError>)
        ensures
            outcome(r) == value.build_outcome(),
    {
        let timestamp = match value.timestamp {
            Ok(v) => v,
            Err(e) => return Err(ConversionError(e)),
        };
        Ok(Self { timestamp })
    }
}

/// A `AgentHelloAckMessage` under construction: each field holds its value or why it
/// has none.
#[derive(Debug)]
pub struct AgentHelloAckMessage {
    device_id: Result<super::Uuid, String>,
    payload: Result<super::AgentHelloAckMessagePayload, String>,
    protocol_version: Result<super::AgentHelloAckMessageProtocolVersion, String>,
    request_id: Result<super::Uuid, String>,
    session_id: Result<super::Null, String>,
    type_: Result<super::AgentHelloAckMessageType, String>,
}

impl AgentHelloAckMessage {
    pub closed spec fn spec_device_id(&self) -> Result<super::Uuid, String> {
        self.device_id
    }

    pub closed spec fn spec_payload(&self) -> Result<super::AgentHelloAckMessagePayload, String> {
        self.payload
    }

    pub closed spec fn spec_protocol_version(&self) -> Result<super::AgentHelloAckMessageProtocolVersion, String> {
        self.protocol_version
    }

    pub closed spec fn spec_request_id(&self) -> Result<super::Uuid, String> {
        self.request_id
    }

    pub closed spec fn spec_session_id(&self) -> Result<super::Null, String> {
        self.session_id
    }

    pub closed spec fn spec_type_(&self) -> Result<super::AgentHelloAckMessageType, String> {
        self.type_
    }

    /// Every field unset.
    pub open spec fn all_unset(&self) -> bool {
        unset(self.spec_device_id(), "no value supplied for device_id"@)
            && unset(self.spec_payload(), "no value supplied for payload"@)
            && unset(self.spec_protocol_version(), "no value supplied for protocol_version"@)
            && unset(self.spec_request_id(), "no value supplied for request_id"@)
            && unset(self.spec_session_id(), "no value supplied for session_id"@)
            && unset(self.spec_type_(), "no value supplied for type_"@)
    }

    /// What `try_from` makes of this builder: the reason of the first unset
    /// field in declaration order, or the message.
    pub open spec fn build_outcome(&self) -> Result<super::AgentHelloAckMessage, Seq<char>> {
        if self.spec_device_id() is Err {
            Err(self.spec_device_id()->Err_0@)
        } else if self.spec_payload() is Err {
            Err(self.spec_payload()->Err_0@)
        } else if self.spec_protocol_version() is Err {
            Err(self.spec_protocol_version()->Err_0@)
        } else if self.spec_request_id() is Err {
            Err(self.spec_request_id()->Err_0@)
        } else if self.spec_session_id() is Err {
            Err(self.spec_session_id()->Err_0@)
        } else if self.spec_type_() is Err {
            Err(self.spec_type_()->Err_0@)
        } else {
            Ok(super::AgentHelloAckMessage {
                device_id: self.spec_device_id()->Ok_0,
                payload: self.spec_payload()->Ok_0,
                protocol_version: self.spec_protocol_version()->Ok_0,
                request_id: self.spec_request_id()->Ok_0,
                session_id: self.spec_session_id()->Ok_0,
                type_: self.spec_type_()->Ok_0,
            })
        }
    }

    /// Sets `device_id` from a value of its type or one that converts to it;
    /// a failed conversion is kept as the reason `device_id` has no value.
    pub fn device_id<V: Supply<super::Uuid>>(self, value: V) -> (r: Self)
        ensures
            supplied_as(value, r.spec_device_id(), "device_id"@),
            r.spec_payload() == self.spec_payload(),
            r.spec_protocol_version() == self.spec_protocol_version(),
            r.spec_request_id() == self.spec_request_id(),
            r.spec_session_id() == self.spec_session_id(),
            r.spec_type_() == self.spec_type_(),
    {
        let mut b = self;
        b.device_id = supply_field(value, "device_id");
        b
    }

    /// Sets `payload` from a value of its type or one that converts to it;
    /// a failed conversion is kept as the reason `payload` has no value.
    pub fn payload<V: Supply<super::AgentHelloAckMessagePayload>>(self, value: V) -> (r: Self)
        ensures
            supplied_as(value, r.spec_payload(), "payload"@),
            r.spec_device_id() == self.spec_device_id(),
            r.spec_protocol_version() == self.spec_protocol_version(),
            r.spec_request_id() == self.spec_request_id(),
            r.spec_session_id() == self.spec_session_id(),
            r.spec_type_() == self.spec_type_(),
    {
        let mut b = self;
        b.payload = supply_field(value, "payload");
        b
    }

    /// Sets `protocol_version` from a value of its type or one that converts to it;
    /// a failed conversion is kept as the reason `protocol_version` has no value.
    pub fn protocol_version<V: Supply<super::AgentHelloAckMessageProtocolVersion>>(self, value: V) -> (r: Self)
        ensures
            supplied_as(value, r.spec_protocol_version(), "protocol_version"@),
            r.spec_device_id() == self.spec_device_id(),
            r.spec_payload() == self.spec_payload(),
            r.spec_request_id() == self.spec_request_id(),
            r.spec_session_id() == self.spec_session_id(),
            r.spec_type_() == self.spec_type_(),
    {
        let mut b = self;
        b.protocol_version = supply_field(value, "protocol_version");
        b
    }

    /// Sets `request_id` from a value of its type or one that converts to it;
    /// a failed conversion is kept as the reason `request_id` has no value.
    pub fn request_id<V: Supply<super::Uuid>>(self, value: V) -> (r: Self)
        ensures
            supplied_as(value, r.spec_request_id(), "request_id"@),
            r.spec_device_id() == self.spec_device_id(),
            r.spec_payload() == self.spec_payload(),
            r.spec_protocol_version() == self.spec_protocol_version(),
            r.spec_session_id() == self.spec_session_id(),
            r.spec_type_() == self.spec_type_(),
    {
        let mut b = self;
        b.request_id = supply_field(value, "request_id");
        b
    }

    /// Sets `session_id` from a value of its type or one that converts to it;
    /// a failed conversion is kept as the reason `session_id` has no value.
    pub fn session_id<V: Supply<super::Null>>(self, value: V) -> (r: Self)
        ensures
            supplied_as(value, r.spec_session_id(), "session_id"@),
            r.spec_device_id() == self.spec_device_id(),
            r.spec_payload() == self.spec_payload(),
            r.spec_protocol_version() == self.spec_protocol_version(),
            r.spec_request_id() == self.spec_request_id(),
            r.spec_type_() == self.spec_type_(),
    {
        let mut b = self;
        b.session_id = supply_field(value, "session_id");
        b
    }

    /// Sets `type_` from a value of its type or one that converts to it;
    /// a failed conversion is kept as the reason `type_` has no value.
    pub fn type_<V: Supply<super::AgentHelloAckMessageType>>(self, value: V) -> (r: Self)
        ensures
            supplied_as(value, r.spec_type_(), "type_"@),
            r.spec_device_id() == self.spec_device_id(),
            r.spec_payload() == self.spec_payload(),
            r.spec_protocol_version() == self.spec_protocol_version(),
            r.spec_request_id() == self.spec_request_id(),
            r.spec_session_id() == self.spec_session_id(),
    {
        let mut b = self;
        b.type_ = supply_field(value, "type_");
        b
    }

    /// A builder holding every field of `value`.
    pub fn from(value: super::AgentHelloAckMessage) -> (r: Self)
        ensures
            r.spec_device_id() == Ok::<super::Uuid, String>(value.device_id),
            r.spec_payload() == Ok::<super::AgentHelloAckMessagePayload, String>(value.payload),
            r.spec_protocol_version() == Ok::<super::AgentHelloAckMessageProtocolVersion, String>(value.protocol_version),
            r.spec_request_id() == Ok::<super::Uuid, String>(value.request_id),
            r.spec_session_id() == Ok::<super::Null, String>(value.session_id),
            r.spec_type_() == Ok::<super::AgentHelloAckMessageType, String>(value.type_),
            r.build_outcome() == Ok::<super::AgentHelloAckMessage, Seq<char>>(value),
    {
        AgentHelloAckMessage {
            device_id: Ok(value.device_id),
            payload: Ok(value.payload),
            protocol_version: Ok(value.protocol_version),
            request_id: Ok(value.request_id),
            session_id: Ok(value.session_id),
            type_: Ok(value.type_),
        }
    }
}

impl Default for AgentHelloAckMessage {
    fn default() -> (r: Self)
        ensures
            r.all_unset(),
    {
        AgentHelloAckMessage {
            device_id: Err("no value supplied for device_id".to_owned()),
            payload: Err("no value supplied for payload".to_owned()),
            protocol_version: Err("no value supplied for protocol_version".to_owned()),
            request_id: Err("no value supplied for request_id".to_owned()),
            session_id: Err("no value supplied for session_id".to_owned()),
            type_: Err("no value supplied for type_".to_owned()),
        }
    }
}

impl super::AgentHelloAckMessage {
    /// The message a builder holds, or the reason of its first unset field.
    pub fn try_from(value: AgentHelloAckMessage) -> (r: Result<Self, ConversionError>)
        ensures
            outcome(r) == value.build_outcome(),
    {
        let device_id = match value.device_id {
            Ok(v) => v,
            Err(e) => return Err(ConversionError(e)),
        };
        let payload = match value.payload {
            Ok(v) => v,
            Err(e) => return Err(ConversionError(e)),
        };
        let protocol_version = match value.protocol_version {
            Ok(v) => v,
            Err(e) => return Err(ConversionError(e)),
        };
        let request_id = match value.request_id {
            Ok(v) => v,
            Err(e) => return Err(ConversionError(e)),
        };
        let session_id = match value.session_id {
            Ok(v) => v,
            Err(e) => return Err(ConversionError(e)),
        };
        let type_ = match value.type_ {
            Ok(v) => v,
            Err(e) => return Err(ConversionError(e)),
        };
        Ok(Self { device_id, payload, protocol_version, request_id, session_id, type_ })
    }
}

/// A `AgentHelloAckMessagePayload` under construction: each field holds its value or why it
/// has none.
#[derive(Debug)]
pub struct AgentHelloAckMessagePayload {
    heartbeat_interval_ms: Result<super::AgentHelloAckMessagePayloadHeartbeatIntervalMs, String>,
    server_time: Result<super::DateTime, String>,
}

impl AgentHelloAckMessagePayload {
    pub closed spec fn spec_heartbeat_interval_ms(&self) -> Result<super::AgentHelloAckMessagePayloadHeartbeatIntervalMs, String> {
        self.heartbeat_interval_ms
    }

    pub closed spec fn spec_server_time(&self) -> Result<super::DateTime, String> {
        self.server_time
    }

    /// Every field unset.
    pub open spec fn all_unset(&self) -> bool {
        unset(self.spec_heartbeat_interval_ms(), "no value supplied for heartbeat_interval_ms"@)
            && unset(self.spec_server_time(), "no value supplied for server_time"@)
    }

    /// What `try_from` makes of this builder: the reason of the first unset
    /// field in declaration order, or the message.
    pub open spec fn build_outcome(&self) -> Result<super::AgentHelloAckMessagePayload, Seq<char>> {
        if self.spec_heartbeat_interval_ms() is Err {
            Err(self.spec_heartbeat_interval_ms()->Err_0@)
        } else if self.spec_server_time() is Err {
            Err(self.spec_server_time()->Err_0@)
        } else {
            Ok(super::AgentHelloAckMessagePayload {
                heartbeat_interval_ms: self.spec_heartbeat_interval_ms()->Ok_0,
                server_time: self.spec_server_time()->Ok_0,
            })
        }
    }

    /// Sets `heartbeat_interval_ms` from a value of its type or one that converts to it;
    /// a failed conversion is kept as the reason `heartbeat_interval_ms` has no value.
    pub fn heartbeat_interval_ms<V: Supply<super::AgentHelloAckMessagePayloadHeartbeatIntervalMs>>(self, value: V) -> (r: Self)
        ensures
            supplied_as(value, r.spec_heartbeat_interval_ms(), "heartbeat_interval_ms"@),
            r.spec_server_time() == self.spec_server_time(),
    {
        let mut b = self;
        b.heartbeat_interval_ms = supply_field(value, "heartbeat_interval_ms");
        b
    }

    /// Sets `server_time` from a value of its type or one that converts to it;
    /// a failed conversion is kept as the reason `server_time` has no value.
    pub fn server_time<V: Supply<super::DateTime>>(self, value: V) -> (r: Self)
        ensures
            supplied_as(value, r.spec_server_time(), "server_time"@),
            r.spec_heartbeat_interval_ms() == self.spec_heartbeat_interval_ms(),
    {
        let mut b = self;
        b.server_time = supply_field(value, "server_time");
        b
    }

    /// A builder holding every field of `value`.
    pub fn from(value: super::AgentHelloAckMessagePayload) -> (r: Self)
        ensures
            r.spec_heartbeat_interval_ms() == Ok::<super::AgentHelloAckMessagePayloadHeartbeatIntervalMs, String>(value.heartbeat_interval_ms),
            r.spec_server_time() == Ok::<super::DateTime, String>(value.server_time),
            r.build_outcome() == Ok::<super::AgentHelloAckMessagePayload, Seq<char>>(value),
    {
        AgentHelloAckMessagePayload {
            heartbeat_interval_ms: Ok(value.heartbeat_interval_ms),
            server_time: Ok(value.server_time),
        }
    }
}

impl Default for AgentHelloAckMessagePayload {
    fn default() -> (r: Self)
        ensures
            r.all_unset(),
    {
        AgentHelloAckMessagePayload {
            heartbeat_interval_ms: Err("no value supplied for heartbeat_interval_ms".to_owned()),
            server_time: Err("no value supplied for server_time".to_owned()),
        }
    }
}

impl super::AgentHelloAckMessagePayload {
    /// The message a builder holds, or the reason of its first unset field.
    pub fn try_from(value: AgentHelloAckMessagePayload) -> (r: Result<Self, ConversionError>)
        ensures
            outcome(r) == value.build_outcome(),
    {
        let heartbeat_interval_ms = match value.heartbeat_interval_ms {
            Ok(v) => v,
            Err(e) => return Err(ConversionError(e)),
        };
        let server_time = match value.server_time {
            Ok(v) => v,
            Err(e) => return Err(ConversionError(e)),
        };
        Ok(Self { heartbeat_interval_ms, server_time })
    }
}

/// A `AgentHelloMessage` under construction: each field holds its value or why it
/// has none.
#[derive(Debug)]
pub struct AgentHelloMessage {
    device_id: Result<super::Uuid, String>,
    payload: Result<super::AgentHelloMessagePayload, String>,
    protocol_version: Result<super::AgentHelloMessageProtocolVersion, String>,
    request_id: Result<super::Uuid, String>,
    session_id: Result<super::Null, String>,
    type_: Result<super::AgentHelloMessageType, String>,
}

impl AgentHelloMessage {
    pub closed spec fn spec_device_id(&self) -> Result<super::Uuid, String> {
        self.device_id
    }

    pub closed spec fn spec_payload(&self) -> Result<super::AgentHelloMessagePayload, String> {
        self.payload
    }

    pub closed spec fn spec_protocol_version(&self) -> Result<super::AgentHelloMessageProtocolVersion, String> {
        self.protocol_version
    }

    pub closed spec fn spec_request_id(&self) -> Result<super::Uuid, String> {
        self.request_id
    }

    pub closed spec fn spec_session_id(&self) -> Result<super::Null, String> {
        self.session_id
    }

    pub closed spec fn spec_type_(&self) -> Result<super::AgentHelloMessageType, String> {
        self.type_
    }

    /// Every field unset.
    pub open spec fn all_unset(&self) -> bool {
        unset(self.spec_device_id(), "no value supplied for device_id"@)
            && unset(self.spec_payload(), "no value supplied for payload"@)
            && unset(self.spec_protocol_version(), "no value supplied for protocol_version"@)
            && unset(self.spec_request_id(), "no value supplied for request_id"@)
            && unset(self.spec_session_id(), "no value supplied for session_id"@)
            && unset(self.spec_type_(), "no value supplied for type_"@)
    }

    /// What `try_from` makes of this builder: the reason of the first unset
    /// field in declaration order, or the message.
    pub open spec fn build_outcome(&self) -> Result<super::AgentHelloMessage, Seq<char>> {
        if self.spec_device_id() is Err {
            Err(self.spec_device_id()->Err_0@)
        } else if self.spec_payload() is Err {
            Err(self.spec_payload()->Err_0@)
        } else if self.spec_protocol_version() is Err {
            Err(self.spec_protocol_version()->Err_0@)
        } else if self.spec_request_id() is Err {
            Err(self.spec_request_id()->Err_0@)
        } else if self.spec_session_id() is Err {
            Err(self.spec_session_id()->Err_0@)
        } else if self.spec_type_() is Err {
            Err(self.spec_type_()->Err_0@)
        } else {
            Ok(super::AgentHelloMessage {
                device_id: self.spec_device_id()->Ok_0,
                payload: self.spec_payload()->Ok_0,
                protocol_version: self.spec_protocol_version()->Ok_0,
                request_id: self.spec_request_id()->Ok_0,
                session_id: self.spec_session_id()->Ok_0,
                type_: self.spec_type_()->Ok_0,
            })
        }
    }

    /// Sets `device_id` from a value of its type or one that converts to it;
    /// a failed conversion is kept as the reason `device_id` has no value.
    pub fn device_id<V: Supply<super::Uuid>>(self, value: V) -> (r: Self)
        ensures
            supplied_as(value, r.spec_device_id(), "device_id"@),
            r.spec_payload() == self.spec_payload(),
            r.spec_protocol_version() == self.spec_protocol_version(),
            r.spec_request_id() == self.spec_request_id(),
            r.spec_session_id() == self.spec_session_id(),
            r.spec_type_() == self.spec_type_(),
    {
        let mut b = self;
        b.device_id = supply_field(value, "device_id");
        b
    }

    /// Sets `payload` from a value of its type or one that converts to it;
    /// a failed conversion is kept as the reason `payload` has no value.
    pub fn payload<V: Supply<super::AgentHelloMessagePayload>>(self, value: V) -> (r: Self)
        ensures
            supplied_as(value, r.spec_payload(), "payload"@),
            r.spec_device_id() == self.spec_device_id(),
            r.spec_protocol_version() == self.spec_protocol_version(),
            r.spec_request_id() == self.spec_request_id(),
            r.spec_session_id() == self.spec_session_id(),
            r.spec_type_() == self.spec_type_(),
    {
        let mut b = self;
        b.payload = supply_field(value, "payload");
        b
    }

    /// Sets `protocol_version` from a value of its type or one that converts to it;
    /// a failed conversion is kept as the reason `protocol_version` has no value.
    pub fn protocol_version<V: Supply<super::AgentHelloMessageProtocolVersion>>(self, value: V) -> (r: Self)
        ensures
            supplied_as(value, r.spec_protocol_version(), "protocol_version"@),
            r.spec_device_id() == self.spec_device_id(),
            r.spec_payload() == self.spec_payload(),
            r.spec_request_id() == self.spec_request_id(),
            r.spec_session_id() == self.spec_session_id(),
            r.spec_type_() == self.spec_type_(),
    {
        let mut b = self;
        b.protocol_version = supply_field(value, "protocol_version");
        b
    }

    /// Sets `request_id` from a value of its type or one that converts to it;
    /// a failed conversion is kept as the reason `request_id` has no value.
    pub fn request_id<V: Supply<super::Uuid>>(self, value: V) -> (r: Self)
        ensures
            supplied_as(value, r.spec_request_id(), "request_id"@),
            r.spec_device_id() == self.spec_device_id(),
            r.spec_payload() == self.spec_payload(),
            r.spec_protocol_version() == self.spec_protocol_version(),
            r.spec_session_id() == self.spec_session_id(),
            r.spec_type_() == self.spec_type_(),
    {
        let mut b = self;
        b.request_id = supply_field(value, "request_id");
        b
    }

    /// Sets `session_id` from a value of its type or one that converts to it;
    /// a failed conversion is kept as the reason `session_id` has no value.
    pub fn session_id<V: Supply<super::Null>>(self, value: V) -> (r: Self)
        ensures
            supplied_as(value, r.spec_session_id(), "session_id"@),
            r.spec_device_id() == self.spec_device_id(),
            r.spec_payload() == self.spec_payload(),
            r.spec_protocol_version() == self.spec_protocol_version(),
            r.spec_request_id() == self.spec_request_id(),
            r.spec_type_() == self.spec_type_(),
    {
        let mut b = self;
        b.session_id = supply_field(value, "session_id");
        b
    }

    /// Sets `type_` from a value of its type or one that converts to it;
    /// a failed conversion is kept as the reason `type_` has no value.
    pub fn type_<V: Supply<super::AgentHelloMessageType>>(self, value: V) -> (r: Self)
        ensures
            supplied_as(value, r.spec_type_(), "type_"@),
            r.spec_device_id() == self.spec_device_id(),
            r.spec_payload() == self.spec_payload(),
            r.spec_protocol_version() == self.spec_protocol_version(),
            r.spec_request_id() == self.spec_request_id(),
            r.spec_session_id() == self.spec_session_id(),
    {
        let mut b = self;
        b.type_ = supply_field(value, "type_");
        b
    }

    /// A builder holding every field of `value`.
    pub fn from(value: super::AgentHelloMessage) -> (r: Self)
        ensures
            r.spec_device_id() == Ok::<super::Uuid, String>(value.device_id),
            r.spec_payload() == Ok::<super::AgentHelloMessagePayload, String>(value.payload),
            r.spec_protocol_version() == Ok::<super::AgentHelloMessageProtocolVersion, String>(value.protocol_version),
            r.spec_request_id() == Ok::<super::Uuid, String>(value.request_id),
            r.spec_session_id() == Ok::<super::Null, String>(value.session_id),
            r.spec_type_() == Ok::<super::AgentHelloMessageType, String>(value.type_),
            r.build_outcome() == Ok::<super::AgentHelloMessage, Seq<char>>(value),
    {
        AgentHelloMessage {
            device_id: Ok(value.device_id),
            payload: Ok(value.payload),
            protocol_version: Ok(value.protocol_version),
            request_id: Ok(value.request_id),
            session_id: Ok(value.session_id),
            type_: Ok(value.type_),
        }
    }
}

impl Default for AgentHelloMessage {
    fn default() -> (r: Self)
        ensures
            r.all_unset(),
    {
        AgentHelloMessage {
            device_id: Err("no value supplied for device_id".to_owned()),
            payload: Err("no value supplied for payload".to_owned()),
            protocol_version: Err("no value supplied for protocol_version".to_owned()),
            request_id: Err("no value supplied for request_id".to_owned()),
            session_id: Err("no value supplied for session_id".to_owned()),
            type_: Err("no value supplied for type_".to_owned()),
        }
    }
}

impl super::AgentHelloMessage {
    /// The message a builder holds, or the reason of its first unset field.
    pub fn try_from(value: AgentHelloMessage) -> (r: Result<Self, ConversionError>)
        ensures
            outcome(r) == value.build_outcome(),
    {
        let device_id = match value.device_id {
            Ok(v) => v,
            Err(e) => return Err(ConversionError(e)),
        };
        let payload = match value.payload {
            Ok(v) => v,
            Err(e) => return Err(ConversionError(e)),
        };
        let protocol_version = match value.protocol_version {
            Ok(v) => v,
            Err(e) => return Err(ConversionError(e)),
        };
        let request_id = match value.request_id {
            Ok(v) => v,
            Err(e) => return Err(ConversionError(e)),
        };
        let session_id = match value.session_id {
            Ok(v) => v,
            Err(e) => return Err(ConversionError(e)),
        };
        let type_ = match value.type_ {
            Ok(v) => v,
            Err(e) => return Err(ConversionError(e)),
        };
        Ok(Self { device_id, payload, protocol_version, request_id, session_id, type_ })
    }
}

/// A `AgentHelloMessagePayload` under construction: each field holds its value or why it
/// has none.
#[derive(Debug)]
pub struct AgentHelloMessagePayload {
    agent_version: Result<super::Semver, String>,
    capabilities: Result<Vec<super::Capability>, String>,
    platform: Result<super::Platform, String>,
}

impl AgentHelloMessagePayload {
    pub closed spec fn spec_agent_version(&self) -> Result<super::Semver, String> {
        self.agent_version
    }

    pub closed spec fn spec_capabilities(&self) -> Result<Vec<super::Capability>, String> {
        self.capabilities
    }

    pub closed spec fn spec_platform(&self) -> Result<super::Platform, String> {
        self.platform
    }

    /// Every field unset.
    pub open spec fn all_unset(&self) -> bool {
        unset(self.spec_agent_version(), "no value supplied for agent_version"@)
            && unset(self.spec_capabilities(), "no value supplied for capabilities"@)
            && unset(self.spec_platform(), "no value supplied for platform"@)
    }

    /// What `try_from` makes of this builder: the reason of the first unset
    /// field in declaration order, or the message.
    pub open spec fn build_outcome(&self) -> Result<super::AgentHelloMessagePayload, Seq<char>> {
        if self.spec_agent_version() is Err {
            Err(self.spec_agent_version()->Err_0@)
        } else if self.spec_capabilities() is Err {
            Err(self.spec_capabilities()->Err_0@)
        } else if self.spec_platform() is Err {
            Err(self.spec_platform()->Err_0@)
        } else {
            Ok(super::AgentHelloMessagePayload {
                agent_version: self.spec_agent_version()->Ok_0,
                capabilities: self.spec_capabilities()->Ok_0,
                platform: self.spec_platform()->Ok_0,
            })
        }
    }

    /// Sets `agent_version` from a value of its type or one that converts to it;
    /// a failed conversion is kept as the reason `agent_version` has no value.
    pub fn agent_version<V: Supply<super::Semver>>(self, value: V) -> (r: Self)
        ensures
            supplied_as(value, r.spec_agent_version(), "agent_version"@),
            r.spec_capabilities() == self.spec_capabilities(),
            r.spec_platform() == self.spec_platform(),
    {
        let mut b = self;
        b.agent_version = supply_field(value, "agent_version");
        b
    }

    /// Sets `capabilities` from a value of its type or one that converts to it;
    /// a failed conversion is kept as the reason `capabilities` has no value.
    pub fn capabilities<V: Supply<Vec<super::Capability>>>(self, value: V) -> (r: Self)
        ensures
            supplied_as(value, r.spec_capabilities(), "capabilities"@),
            r.spec_agent_version() == self.spec_agent_version(),
            r.spec_platform() == self.spec_platform(),
    {
        let mut b = self;
        b.capabilities = supply_field(value, "capabilities");
        b
    }

    /// Sets `platform` from a value of its type or one that converts to it;
    /// a failed conversion is kept as the reason `platform` has no value.
    pub fn platform<V: Supply<super::Platform>>(self, value: V) -> (r: Self)
        ensures
            supplied_as(value, r.spec_platform(), "platform"@),
            r.spec_agent_version() == self.spec_agent_version(),
            r.spec_capabilities() == self.spec_capabilities(),
    {
        let mut b = self;
        b.platform = supply_field(value, "platform");
        b
    }

    /// A builder holding every field of `value`.
    pub fn from(value: super::AgentHelloMessagePayload) -> (r: Self)
        ensures
            r.spec_agent_version() == Ok::<super::Semver, String>(value.agent_version),
            r.spec_capabilities() == Ok::<Vec<super::Capability>, String>(value.capabilities),
            r.spec_platform() == Ok::<super::Platform, String>(value.platform),
            r.build_outcome() == Ok::<super::AgentHelloMessagePayload, Seq<char>>(value),
    {
        AgentHelloMessagePayload {
            agent_version: Ok(value.agent_version),
            capabilities: Ok(value.capabilities),
            platform: Ok(value.platform),
        }
    }
}

impl Default for AgentHelloMessagePayload {
    fn default() -> (r: Self)
        ensures
            r.all_unset(),
    {
        AgentHelloMessagePayload {
            agent_version: Err("no value supplied for agent_version".to_owned()),
            capabilities: Err("no value supplied for capabilities".to_owned()),
            platform: Err("no value supplied for platform".to_owned()),
        }
    }
}

impl super::AgentHelloMessagePayload {
    /// The message a builder holds, or the reason of its first unset field.
    pub fn try_from(value: AgentHelloMessagePayload) -> (r: Result<Self, ConversionError>)
        ensures
            outcome(r) == value.build_outcome(),
    {
        let agent_version = match value.agent_version {
            Ok(v) => v,
            Err(e) => return Err(ConversionError(e)),
        };
        let capabilities = match value.capabilities {
            Ok(v) => v,
            Err(e) => return Err(ConversionError(e)),
        };
        let platform = match value.platform {
            Ok(v) => v,
            Err(e) => return Err(ConversionError(e)),
        };
        Ok(Self { agent_version, capabilities, platform })
    }
}

/// A `FileEntry` under construction: each field holds its value or why it
/// has none.
#[derive(Debug)]
pub struct FileEntry {
    index: Result<super::FileIndex, String>,
    relative_path: Result<super::SafeRelativePath, String>,
    size: Result<super::FileSize, String>,
}

impl FileEntry {
    pub closed spec fn spec_index(&self) -> Result<super::FileIndex, String> {
        self.index
    }

    pub closed spec fn spec_relative_path(&self) -> Result<super::SafeRelativePath, String> {
        self.relative_path
    }

    pub closed spec fn spec_size(&self) -> Result<super::FileSize, String> {
        self.size
    }

    /// Every field unset.
    pub open spec fn all_unset(&self) -> bool {
        unset(self.spec_index(), "no value supplied for index"@)
            && unset(self.spec_relative_path(), "no value supplied for relative_path"@)
            && unset(self.spec_size(), "no value supplied for size"@)
    }

    /// What `try_from` makes of this builder: the reason of the first unset
    /// field in declaration order, or the message.
    pub open spec fn build_outcome(&self) -> Result<super::FileEntry, Seq<char>> {
        if self.spec_index() is Err {
            Err(self.spec_index()->Err_0@)
        } else if self.spec_relative_path() is Err {
            Err(self.spec_relative_path()->Err_0@)
        } else if self.spec_size() is Err {
            Err(self.spec_size()->Err_0@)
        } else {
            Ok(super::FileEntry {
                index: self.spec_index()->Ok_0,
                relative_path: self.spec_relative_path()->Ok_0,
                size: self.spec_size()->Ok_0,
            })
        }
    }

    /// Sets `index` from a value of its type or one that converts to it;
    /// a failed conversion is kept as the reason `index` has no value.
    pub fn index<V: Supply<super::FileIndex>>(self, value: V) -> (r: Self)
        ensures
            supplied_as(value, r.spec_index(), "index"@),
            r.spec_relative_path() == self.spec_relative_path(),
            r.spec_size() == self.spec_size(),
    {
        let mut b = self;
        b.index = supply_field(value, "index");
        b
    }

    /// Sets `relative_path` from a value of its type or one that converts to it;
    /// a failed conversion is kept as the reason `relative_path` has no value.
    pub fn relative_path<V: Supply<super::SafeRelativePath>>(self, value: V) -> (r: Self)
        ensures
            supplied_as(value, r.spec_relative_path(), "relative_path"@),
            r.spec_index() == self.spec_index(),
            r.spec_size() == self.spec_size(),
    {
        let mut b = self;
        b.relative_path = supply_field(value, "relative_path");
        b
    }

    /// Sets `size` from a value of its type or one that converts to it;
    /// a failed conversion is kept as the reason `size` has no value.
    pub fn size<V: Supply<super::FileSize>>(self, value: V) -> (r: Self)
        ensures
            supplied_as(value, r.spec_size(), "size"@),
            r.spec_index() == self.spec_index(),
            r.spec_relative_path() == self.spec_relative_path(),
    {
        let mut b = self;
        b.size = supply_field(value, "size");
        b
    }

    /// A builder holding every field of `value`.
    pub fn from(value: super::FileEntry) -> (r: Self)
        ensures
            r.spec_index() == Ok::<super::FileIndex, String>(value.index),
            r.spec_relative_path() == Ok::<super::SafeRelativePath, String>(value.relative_path),
            r.spec_size() == Ok::<super::FileSize, String>(value.size),
            r.build_outcome() == Ok::<super::FileEntry, Seq<char>>(value),
    {
        FileEntry {
            index: Ok(value.index),
            relative_path: Ok(value.relative_path),
            size: Ok(value.size),
        }
    }
}

impl Default for FileEntry {
    fn default() -> (r: Self)
        ensures
            r.all_unset(),
    {
        FileEntry {
            index: Err("no value supplied for index".to_owned()),
            relative_path: Err("no value supplied for relative_path".to_owned()),
            size: Err("no value supplied for size".to_owned()),
        }
    }
}

impl super::FileEntry {
    /// The message a builder holds, or the reason of its first unset field.
    pub fn try_from(value: FileEntry) -> (r: Result<Self, ConversionError>)
        ensures
            outcome(r) == value.build_outcome(),
    {
        let index = match value.index {
            Ok(v) => v,
            Err(e) => return Err(ConversionError(e)),
        };
        let relative_path = match value.relative_path {
            Ok(v) => v,
            Err(e) => return Err(ConversionError(e)),
        };
        let size = match value.size {
            Ok(v) => v,
            Err(e) => return Err(ConversionError(e)),
        };
        Ok(Self { index, relative_path, size })
    }
}

/// A `TerminalCloseMessage` under construction: each field holds its value or why it
/// has none.
#[derive(Debug)]
pub struct TerminalCloseMessage {
    device_id: Result<super::Uuid, String>,
    payload: Result<super::TerminalCloseMessagePayload, String>,
    protocol_version: Result<super::TerminalCloseMessageProtocolVersion, String>,
    request_id: Result<super::Null, String>,
    session_id: Result<super::Uuid, String>,
    type_: Result<super::TerminalCloseMessageType, String>,
}

impl TerminalCloseMessage {
    pub closed spec fn spec_device_id(&self) -> Result<super::Uuid, String> {
        self.device_id
    }

    pub closed spec fn spec_payload(&self) -> Result<super::TerminalCloseMessagePayload, String> {
        self.payload
    }

    pub closed spec fn spec_protocol_version(&self) -> Result<super::TerminalCloseMessageProtocolVersion, String> {
        self.protocol_version
    }

    pub closed spec fn spec_request_id(&self) -> Result<super::Null, String> {
        self.request_id
    }

    pub closed spec fn spec_session_id(&self) -> Result<super::Uuid, String> {
        self.session_id
    }

    pub closed spec fn spec_type_(&self) -> Result<super::TerminalCloseMessageType, String> {
        self.type_
    }

    /// Every field unset.
    pub open spec fn all_unset(&self) -> bool {
        unset(self.spec_device_id(), "no value supplied for device_id"@)
            && unset(self.spec_payload(), "no value supplied for payload"@)
            && unset(self.spec_protocol_version(), "no value supplied for protocol_version"@)
            && unset(self.spec_request_id(), "no value supplied for request_id"@)
            && unset(self.spec_session_id(), "no value supplied for session_id"@)
            && unset(self.spec_type_(), "no value supplied for type_"@)
    }

    /// What `try_from` makes of this builder: the reason of the first unset
    /// field in declaration order, or the message.
    pub open spec fn build_outcome(&self) -> Result<super::TerminalCloseMessage, Seq<char>> {
        if self.spec_device_id() is Err {
            Err(self.spec_device_id()->Err_0@)
        } else if self.spec_payload() is Err {
            Err(self.spec_payload()->Err_0@)
        } else if self.spec_protocol_version() is Err {
            Err(self.spec_protocol_version()->Err_0@)
        } else if self.spec_request_id() is Err {
            Err(self.spec_request_id()->Err_0@)
        } else if self.spec_session_id() is Err {
            Err(self.spec_session_id()->Err_0@)
        } else if self.spec_type_() is Err {
            Err(self.spec_type_()->Err_0@)
        } else {
            Ok(super::TerminalCloseMessage {
                device_id: self.spec_device_id()->Ok_0,
                payload: self.spec_payload()->Ok_0,
                protocol_version: self.spec_protocol_version()->Ok_0,
                request_id: self.spec_request_id()->Ok_0,
                session_id: self.spec_session_id()->Ok_0,
                type_: self.spec_type_()->Ok_0,
            })
        }
    }

    /// Sets `device_id` from a value of its type or one that converts to it;
    /// a failed conversion is kept as the reason `device_id` has no value.
    pub fn device_id<V: Supply<super::Uuid>>(self, value: V) -> (r: Self)
        ensures
            supplied_as(value, r.spec_device_id(), "device_id"@),
            r.spec_payload() == self.spec_payload(),
            r.spec_protocol_version() == self.spec_protocol_version(),
            r.spec_request_id() == self.spec_request_id(),
            r.spec_session_id() == self.spec_session_id(),
            r.spec_type_() == self.spec_type_(),
    {
        let mut b = self;
        b.device_id = supply_field(value, "device_id");
        b
    }

    /// Sets `payload` from a value of its type or one that converts to it;
    /// a failed conversion is kept as the reason `payload` has no value.
    pub fn payload<V: Supply<super::TerminalCloseMessagePayload>>(self, value: V) -> (r: Self)
        ensures
            supplied_as(value, r.spec_payload(), "payload"@),
            r.spec_device_id() == self.spec_device_id(),
            r.spec_protocol_version() == self.spec_protocol_version(),
            r.spec_request_id() == self.spec_request_id(),
            r.spec_session_id() == self.spec_session_id(),
            r.spec_type_() == self.spec_type_(),
    {
        let mut b = self;
        b.payload = supply_field(value, "payload");
        b
    }

    /// Sets `protocol_version` from a value of its type or one that converts to it;
    /// a failed conversion is kept as the reason `protocol_version` has no value.
    pub fn protocol_version<V: Supply<super::TerminalCloseMessageProtocolVersion>>(self, value: V) -> (r: Self)
        ensures
            supplied_as(value, r.spec_protocol_version(), "protocol_version"@),
            r.spec_device_id() == self.spec_device_id(),
            r.spec_payload() == self.spec_payload(),
            r.spec_request_id() == self.spec_request_id(),
            r.spec_session_id() == self.spec_session_id(),
            r.spec_type_() == self.spec_type_(),
    {
        let mut b = self;
        b.protocol_version = supply_field(value, "protocol_version");
        b
    }

    /// Sets `request_id` from a value of its type or one that converts to it;
    /// a failed conversion is kept as the reason `request_id` has no value.
    pub fn request_id<V: Supply<super::Null>>(self, value: V) -> (r: Self)
        ensures
            supplied_as(value, r.spec_request_id(), "request_id"@),
            r.spec_device_id() == self.spec_device_id(),
            r.spec_payload() == self.spec_payload(),
            r.spec_protocol_version() == self.spec_protocol_version(),
            r.spec_session_id() == self.spec_session_id(),
            r.spec_type_() == self.spec_type_(),
    {
        let mut b = self;
        b.request_id = supply_field(value, "request_id");
        b
    }

    /// Sets `session_id` from a value of its type or one that converts to it;
    /// a failed conversion is kept as the reason `session_id` has no value.
    pub fn session_id<V: Supply<super::Uuid>>(self, value: V) -> (r: Self)
        ensures
            supplied_as(value, r.spec_session_id(), "session_id"@),
            r.spec_device_id() == self.spec_device_id(),
            r.spec_payload() == self.spec_payload(),
            r.spec_protocol_version() == self.spec_protocol_version(),
            r.spec_request_id() == self.spec_request_id(),
            r.spec_type_() == self.spec_type_(),
    {
        let mut b = self;
        b.session_id = supply_field(value, "session_id");
        b
    }

    /// Sets `type_` from a value of its type or one that converts to it;
    /// a failed conversion is kept as the reason `type_` has no value.
    pub fn type_<V: Supply<super::TerminalCloseMessageType>>(self, value: V) -> (r: Self)
        ensures
            supplied_as(value, r.spec_type_(), "type_"@),
            r.spec_device_id() == self.spec_device_id(),
            r.spec_payload() == self.spec_payload(),
            r.spec_protocol_version() == self.spec_protocol_version(),
            r.spec_request_id() == self.spec_request_id(),
            r.spec_session_id() == self.spec_session_id(),
    {
        let mut b = self;
        b.type_ = supply_field(value, "type_");
        b
    }

    /// A builder holding every field of `value`.
    pub fn from(value: super::TerminalCloseMessage) -> (r: Self)
        ensures
            r.spec_device_id() == Ok::<super::Uuid, String>(value.device_id),
            r.spec_payload() == Ok::<super::TerminalCloseMessagePayload, String>(value.payload),
            r.spec_protocol_version() == Ok::<super::TerminalCloseMessageProtocolVersion, String>(value.protocol_version),
            r.spec_request_id() == Ok::<super::Null, String>(value.request_id),
            r.spec_session_id() == Ok::<super::Uuid, String>(value.session_id),
            r.spec_type_() == Ok::<super::TerminalCloseMessageType, String>(value.type_),
            r.build_outcome() == Ok::<super::TerminalCloseMessage, Seq<char>>(value),
    {
        TerminalCloseMessage {
            device_id: Ok(value.device_id),
            payload: Ok(value.payload),
            protocol_version: Ok(value.protocol_version),
            request_id: Ok(value.request_id),
            session_id: Ok(value.session_id),
            type_: Ok(value.type_),
        }
    }
}

impl Default for TerminalCloseMessage {
    fn default() -> (r: Self)
        ensures
            r.all_unset(),
    {
        TerminalCloseMessage {
            device_id: Err("no value supplied for device_id".to_owned()),
            payload: Err("no value supplied for payload".to_owned()),
            protocol_version: Err("no value supplied for protocol_version".to_owned()),
            request_id: Err("no value supplied for request_id".to_owned()),
            session_id: Err("no value supplied for session_id".to_owned()),
            type_: Err("no value supplied for type_".to_owned()),
        }
    }
}

impl super::TerminalCloseMessage {
    /// The message a builder holds, or the reason of its first unset field.
    pub fn try_from(value: TerminalCloseMessage) -> (r: Result<Self, ConversionError>)
        ensures
            outcome(r) == value.build_outcome(),
    {
        let device_id = match value.device_id {
            Ok(v) => v,
            Err(e) => return Err(ConversionError(e)),
        };
        let payload = match value.payload {
            Ok(v) => v,
            Err(e) => return Err(ConversionError(e)),
        };
        let protocol_version = match value.protocol_version {
            Ok(v) => v,
            Err(e) => return Err(ConversionError(e)),
        };
        let request_id = match value.request_id {
            Ok(v) => v,
            Err(e) => return Err(ConversionError(e)),
        };
        let session_id = match value.session_id {
            Ok(v) => v,
            Err(e) => return Err(ConversionError(e)),
        };
        let type_ = match value.type_ {
            Ok(v) => v,
            Err(e) => return Err(ConversionError(e)),
        };
        Ok(Self { device_id, payload, protocol_version, request_id, session_id, type_ })
    }
}

/// A `TerminalCloseMessagePayload` under construction: each field holds its value or why it
/// has none.
#[derive(Debug)]
pub struct TerminalCloseMessagePayload {
    exit_code: Result<Option<i32>, String>,
    reason: Result<super::TerminalCloseReason, String>,
}

impl TerminalCloseMessagePayload {
    pub closed spec fn spec_exit_code(&self) -> Result<Option<i32>, String> {
        self.exit_code
    }

    pub closed spec fn spec_reason(&self) -> Result<super::TerminalCloseReason, String> {
        self.reason
    }

    /// Every field unset.
    pub open spec fn all_unset(&self) -> bool {
        unset(self.spec_exit_code(), "no value supplied for exit_code"@)
            && unset(self.spec_reason(), "no value supplied for reason"@)
    }

    /// What `try_from` makes of this builder: the reason of the first unset
    /// field in declaration order, or the message.
    pub open spec fn build_outcome(&self) -> Result<super::TerminalCloseMessagePayload, Seq<char>> {
        if self.spec_exit_code() is Err {
            Err(self.spec_exit_code()->Err_0@)
        } else if self.spec_reason() is Err {
            Err(self.spec_reason()->Err_0@)
        } else {
            Ok(super::TerminalCloseMessagePayload {
                exit_code: self.spec_exit_code()->Ok_0,
                reason: self.spec_reason()->Ok_0,
            })
        }
    }

    /// Sets `exit_code` from a value of its type or one that converts to it;
    /// a failed conversion is kept as the reason `exit_code` has no value.
    pub fn exit_code<V: Supply<Option<i32>>>(self, value: V) -> (r: Self)
        ensures
            supplied_as(value, r.spec_exit_code(), "exit_code"@),
            r.spec_reason() == self.spec_reason(),
    {
        let mut b = self;
        b.exit_code = supply_field(value, "exit_code");
        b
    }

    /// Sets `reason` from a value of its type or one that converts to it;
    /// a failed conversion is kept as the reason `reason` has no value.
    pub fn reason<V: Supply<super::TerminalCloseReason>>(self, value: V) -> (r: Self)
        ensures
            supplied_as(value, r.spec_reason(), "reason"@),
            r.spec_exit_code() == self.spec_exit_code(),
    {
        let mut b = self;
        b.reason = supply_field(value, "reason");
        b
    }

    /// A builder holding every field of `value`.
    pub fn from(value: super::TerminalCloseMessagePayload) -> (r: Self)
        ensures
            r.spec_exit_code() == Ok::<Option<i32>, String>(value.exit_code),
            r.spec_reason() == Ok::<super::TerminalCloseReason, String>(value.reason),
            r.build_outcome() == Ok::<super::TerminalCloseMessagePayload, Seq<char>>(value),
    {
        TerminalCloseMessagePayload {
            exit_code: Ok(value.exit_code),
            reason: Ok(value.reason),
        }
    }
}

impl Default for TerminalCloseMessagePayload {
    fn default() -> (r: Self)
        ensures
            r.all_unset(),
    {
        TerminalCloseMessagePayload {
            exit_code: Err("no value supplied for exit_code".to_owned()),
            reason: Err("no value supplied for reason".to_owned()),
        }
    }
}

impl super::TerminalCloseMessagePayload {
    /// The message a builder holds, or the reason of its first unset field.
    pub fn try_from(value: TerminalCloseMessagePayload) -> (r: Result<Self, ConversionError>)
        ensures
            outcome(r) == value.build_outcome(),
    {
        let exit_code = match value.exit_code {
            Ok(v) => v,
            Err(e) => return Err(ConversionError(e)),
        };
        let reason = match value.reason {
            Ok(v) => v,
            Err(e) => return Err(ConversionError(e)),
        };
        Ok(Self { exit_code, reason })
    }
}

/// A `TerminalErrorMessage` under construction: each field holds its value or why it
/// has none.
#[derive(Debug)]
pub struct TerminalErrorMessage {
    device_id: Result<super::Uuid, String>,
    payload: Result<super::TerminalErrorMessagePayload, String>,
    protocol_version: Result<super::TerminalErrorMessageProtocolVersion, String>,
    request_id: Result<super::UuidOrNull, String>,
    session_id: Result<super::UuidOrNull, String>,
    type_: Result<super::TerminalErrorMessageType, String>,
}

impl TerminalErrorMessage {
    pub closed spec fn spec_device_id(&self) -> Result<super::Uuid, String> {
        self.device_id
    }

    pub closed spec fn spec_payload(&self) -> Result<super::TerminalErrorMessagePayload, String> {
        self.payload
    }

    pub closed spec fn spec_protocol_version(&self) -> Result<super::TerminalErrorMessageProtocolVersion, String> {
        self.protocol_version
    }

    pub closed spec fn spec_request_id(&self) -> Result<super::UuidOrNull, String> {
        self.request_id
    }

    pub closed spec fn spec_session_id(&self) -> Result<super::UuidOrNull, String> {
        self.session_id
    }

    pub closed spec fn spec_type_(&self) -> Result<super::TerminalErrorMessageType, String> {
        self.type_
    }

    /// Every field unset.
    pub open spec fn all_unset(&self) -> bool {
        unset(self.spec_device_id(), "no value supplied for device_id"@)
            && unset(self.spec_payload(), "no value supplied for payload"@)
            && unset(self.spec_protocol_version(), "no value supplied for protocol_version"@)
            && unset(self.spec_request_id(), "no value supplied for request_id"@)
            && unset(self.spec_session_id(), "no value supplied for session_id"@)
            && unset(self.spec_type_(), "no value supplied for type_"@)
    }

    /// What `try_from` makes of this builder: the reason of the first unset
    /// field in declaration order, or the message.
    pub open spec fn build_outcome(&self) -> Result<super::TerminalErrorMessage, Seq<char>> {
        if self.spec_device_id() is Err {
            Err(self.spec_device_id()->Err_0@)
        } else if self.spec_payload() is Err {
            Err(self.spec_payload()->Err_0@)
        } else if self.spec_protocol_version() is Err {
            Err(self.spec_protocol_version()->Err_0@)
        } else if self.spec_request_id() is Err {
            Err(self.spec_request_id()->Err_0@)
        } else if self.spec_session_id() is Err {
            Err(self.spec_session_id()->Err_0@)
        } else if self.spec_type_() is Err {
            Err(self.spec_type_()->Err_0@)
        } else {
            Ok(super::TerminalErrorMessage {
                device_id: self.spec_device_id()->Ok_0,
                payload: self.spec_payload()->Ok_0,
                protocol_version: self.spec_protocol_version()->Ok_0,
                request_id: self.spec_request_id()->Ok_0,
                session_id: self.spec_session_id()->Ok_0,
                type_: self.spec_type_()->Ok_0,
            })
        }
    }

    /// Sets `device_id` from a value of its type or one that converts to it;
    /// a failed conversion is kept as the reason `device_id` has no value.
    pub fn device_id<V: Supply<super::Uuid>>(self, value: V) -> (r: Self)
        ensures
            supplied_as(value, r.spec_device_id(), "device_id"@),
            r.spec_payload() == self.spec_payload(),
            r.spec_protocol_version() == self.spec_protocol_version(),
            r.spec_request_id() == self.spec_request_id(),
            r.spec_session_id() == self.spec_session_id(),
            r.spec_type_() == self.spec_type_(),
    {
        let mut b = self;
        b.device_id = supply_field(value, "device_id");
        b
    }

    /// Sets `payload` from a value of its type or one that converts to it;
    /// a failed conversion is kept as the reason `payload` has no value.
    pub fn payload<V: Supply<super::TerminalErrorMessagePayload>>(self, value: V) -> (r: Self)
        ensures
            supplied_as(value, r.spec_payload(), "payload"@),
            r.spec_device_id() == self.spec_device_id(),
            r.spec_protocol_version() == self.spec_protocol_version(),
            r.spec_request_id() == self.spec_request_id(),
            r.spec_session_id() == self.spec_session_id(),
            r.spec_type_() == self.spec_type_(),
    {
        let mut b = self;
        b.payload = supply_field(value, "payload");
        b
    }

    /// Sets `protocol_version` from a value of its type or one that converts to it;
    /// a failed conversion is kept as the reason `protocol_version` has no value.
    pub fn protocol_version<V: Supply<super::TerminalErrorMessageProtocolVersion>>(self, value: V) -> (r: Self)
        ensures
            supplied_as(value, r.spec_protocol_version(), "protocol_version"@),
            r.spec_device_id() == self.spec_device_id(),
            r.spec_payload() == self.spec_payload(),
            r.spec_request_id() == self.spec_request_id(),
            r.spec_session_id() == self.spec_session_id(),
            r.spec_type_() == self.spec_type_(),
    {
        let mut b = self;
        b.protocol_version = supply_field(value, "protocol_version");
        b
    }

    /// Sets `request_id` from a value of its type or one that converts to it;
    /// a failed conversion is kept as the reason `request_id` has no value.
    pub fn request_id<V: Supply<super::UuidOrNull>>(self, value: V) -> (r: Self)
        ensures
            supplied_as(value, r.spec_request_id(), "request_id"@),
            r.spec_device_id() == self.spec_device_id(),
            r.spec_payload() == self.spec_payload(),
            r.spec_protocol_version() == self.spec_protocol_version(),
            r.spec_session_id() == self.spec_session_id(),
            r.spec_type_() == self.spec_type_(),
    {
        let mut b = self;
        b.request_id = supply_field(value, "request_id");
        b
    }

    /// Sets `session_id` from a value of its type or one that converts to it;
    /// a failed conversion is kept as the reason `session_id` has no value.
    pub fn session_id<V: Supply<super::UuidOrNull>>(self, value: V) -> (r: Self)
        ensures
            supplied_as(value, r.spec_session_id(), "session_id"@),
            r.spec_device_id() == self.spec_device_id(),
            r.spec_payload() == self.spec_payload(),
            r.spec_protocol_version() == self.spec_protocol_version(),
            r.spec_request_id() == self.spec_request_id(),
            r.spec_type_() == self.spec_type_(),
    {
        let mut b = self;
        b.session_id = supply_field(value, "session_id");
        b
    }

    /// Sets `type_` from a value of its type or one that converts to it;
    /// a failed conversion is kept as the reason `type_` has no value.
    pub fn type_<V: Supply<super::TerminalErrorMessageType>>(self, value: V) -> (r: Self)
        ensures
            supplied_as(value, r.spec_type_(), "type_"@),
            r.spec_device_id() == self.spec_device_id(),
            r.spec_payload() == self.spec_payload(),
            r.spec_protocol_version() == self.spec_protocol_version(),
            r.spec_request_id() == self.spec_request_id(),
            r.spec_session_id() == self.spec_session_id(),
    {
        let mut b = self;
        b.type_ = supply_field(value, "type_");
        b
    }

    /// A builder holding every field of `value`.
    pub fn from(value: super::TerminalErrorMessage) -> (r: Self)
        ensures
            r.spec_device_id() == Ok::<super::Uuid, String>(value.device_id),
            r.spec_payload() == Ok::<super::TerminalErrorMessagePayload, String>(value.payload),
            r.spec_protocol_version() == Ok::<super::TerminalErrorMessageProtocolVersion, String>(value.protocol_version),
            r.spec_request_id() == Ok::<super::UuidOrNull, String>(value.request_id),
            r.spec_session_id() == Ok::<super::UuidOrNull, String>(value.session_id),
            r.spec_type_() == Ok::<super::TerminalErrorMessageType, String>(value.type_),
            r.build_outcome() == Ok::<super::TerminalErrorMessage, Seq<char>>(value),
    {
        TerminalErrorMessage {
            device_id: Ok(value.device_id),
            payload: Ok(value.payload),
            protocol_version: Ok(value.protocol_version),
            request_id: Ok(value.request_id),
            session_id: Ok(value.session_id),
            type_: Ok(value.type_),
        }
    }
}

impl Default for TerminalErrorMessage {
    fn default() -> (r: Self)
        ensures
            r.all_unset(),
    {
        TerminalErrorMessage {
            device_id: Err("no value supplied for device_id".to_owned()),
            payload: Err("no value supplied for payload".to_owned()),
            protocol_version: Err("no value supplied for protocol_version".to_owned()),
            request_id: Err("no value supplied for request_id".to_owned()),
            session_id: Err("no value supplied for session_id".to_owned()),
            type_: Err("no value supplied for type_".to_owned()),
        }
    }
}

impl super::TerminalErrorMessage {
    /// The message a builder holds, or the reason of its first unset field.
    pub fn try_from(value: TerminalErrorMessage) -> (r: Result<Self, ConversionError>)
        ensures
            outcome(r) == value.build_outcome(),
    {
        let device_id = match value.device_id {
            Ok(v) => v,
            Err(e) => return Err(ConversionError(e)),
        };
        let payload = match value.payload {
            Ok(v) => v,
            Err(e) => return Err(ConversionError(e)),
        };
        let protocol_version = match value.protocol_version {
            Ok(v) => v,
            Err(e) => return Err(ConversionError(e)),
        };
        let request_id = match value.request_id {
            Ok(v) => v,
            Err(e) => return Err(ConversionError(e)),
        };
        let session_id = match value.session_id {
            Ok(v) => v,
            Err(e) => return Err(ConversionError(e)),
        };
        let type_ = match value.type_ {
            Ok(v) => v,
            Err(e) => return Err(ConversionError(e)),
        };
        Ok(Self { device_id, payload, protocol_version, request_id, session_id, type_ })
    }
}

/// A `TerminalErrorMessagePayload` under construction: each field holds its value or why it
/// has none.
#[derive(Debug)]
pub struct TerminalErrorMessagePayload {
    code: Result<super::ErrorCode, String>,
    message: Result<super::TerminalErrorMessagePayloadMessage, String>,
}

impl TerminalErrorMessagePayload {
    pub closed spec fn spec_code(&self) -> Result<super::ErrorCode, String> {
        self.code
    }

    pub closed spec fn spec_message(&self) -> Result<super::TerminalErrorMessagePayloadMessage, String> {
        self.message
    }

    /// Every field unset.
    pub open spec fn all_unset(&self) -> bool {
        unset(self.spec_code(), "no value supplied for code"@)
            && unset(self.spec_message(), "no value supplied for message"@)
    }

    /// What `try_from` makes of this builder: the reason of the first unset
    /// field in declaration order, or the message.
    pub open spec fn build_outcome(&self) -> Result<super::TerminalErrorMessagePayload, Seq<char>> {
        if self.spec_code() is Err {
            Err(self.spec_code()->Err_0@)
        } else if self.spec_message() is Err {
            Err(self.spec_message()->Err_0@)
        } else {
            Ok(super::TerminalErrorMessagePayload {
                code: self.spec_code()->Ok_0,
                message: self.spec_message()->Ok_0,
            })
        }
    }

    /// Sets `code` from a value of its type or one that converts to it;
    /// a failed conversion is kept as the reason `code` has no value.
    pub fn code<V: Supply<super::ErrorCode>>(self, value: V) -> (r: Self)
        ensures
            supplied_as(value, r.spec_code(), "code"@),
            r.spec_message() == self.spec_message(),
    {
        let mut b = self;
        b.code = supply_field(value, "code");
        b
    }

    /// Sets `message` from a value of its type or one that converts to it;
    /// a failed conversion is kept as the reason `message` has no value.
    pub fn message<V: Supply<super::TerminalErrorMessagePayloadMessage>>(self, value: V) -> (r: Self)
        ensures
            supplied_as(value, r.spec_message(), "message"@),
            r.spec_code() == self.spec_code(),
    {
        let mut b = self;
        b.message = supply_field(value, "message");
        b
    }

    /// A builder holding every field of `value`.
    pub fn from(value: super::TerminalErrorMessagePayload) -> (r: Self)
        ensures
            r.spec_code() == Ok::<super::ErrorCode, String>(value.code),
            r.spec_message() == Ok::<super::TerminalErrorMessagePayloadMessage, String>(value.message),
            r.build_outcome() == Ok::<super::TerminalErrorMessagePayload, Seq<char>>(value),
    {
        TerminalErrorMessagePayload {
            code: Ok(value.code),
            message: Ok(value.message),
        }
    }
}

impl Default for TerminalErrorMessagePayload {
    fn default() -> (r: Self)
        ensures
            r.all_unset(),
    {
        TerminalErrorMessagePayload {
            code: Err("no value supplied for code".to_owned()),
            message: Err("no value supplied for message".to_owned()),
        }
    }
}

impl super::TerminalErrorMessagePayload {
    /// The message a builder holds, or the reason of its first unset field.
    pub fn try_from(value: TerminalErrorMessagePayload) -> (r: Result<Self, ConversionError>)
        ensures
            outcome(r) == value.build_outcome(),
    {
        let code = match value.code {
            Ok(v) => v,
            Err(e) => return Err(ConversionError(e)),
        };
        let message = match value.message {
            Ok(v) => v,
            Err(e) => return Err(ConversionError(e)),
        };
        Ok(Self { code, message })
    }
}

/// A `TerminalOpenMessage` under construction: each field holds its value or why it
/// has none.
#[derive(Debug)]
pub struct TerminalOpenMessage {
    device_id: Result<super::Uuid, String>,
    payload: Result<super::TerminalOpenMessagePayload, String>,
    protocol_version: Result<super::TerminalOpenMessageProtocolVersion, String>,
    request_id: Result<super::Uuid, String>,
    session_id: Result<super::Null, String>,
    type_: Result<super::TerminalOpenMessageType, String>,
}

impl TerminalOpenMessage {
    pub closed spec fn spec_device_id(&self) -> Result<super::Uuid, String> {
        self.device_id
    }

    pub closed spec fn spec_payload(&self) -> Result<super::TerminalOpenMessagePayload, String> {
        self.payload
    }

    pub closed spec fn spec_protocol_version(&self) -> Result<super::TerminalOpenMessageProtocolVersion, String> {
        self.protocol_version
    }

    pub closed spec fn spec_request_id(&self) -> Result<super::Uuid, String> {
        self.request_id
    }

    pub closed spec fn spec_session_id(&self) -> Result<super::Null, String> {
        self.session_id
    }

    pub closed spec fn spec_type_(&self) -> Result<super::TerminalOpenMessageType, String> {
        self.type_
    }

    /// Every field unset.
    pub open spec fn all_unset(&self) -> bool {
        unset(self.spec_device_id(), "no value supplied for device_id"@)
            && unset(self.spec_payload(), "no value supplied for payload"@)
            && unset(self.spec_protocol_version(), "no value supplied for protocol_version"@)
            && unset(self.spec_request_id(), "no value supplied for request_id"@)
            && unset(self.spec_session_id(), "no value supplied for session_id"@)
            && unset(self.spec_type_(), "no value supplied for type_"@)
    }

    /// What `try_from` makes of this builder: the reason of the first unset
    /// field in declaration order, or the message.
    pub open spec fn build_outcome(&self) -> Result<super::TerminalOpenMessage, Seq<char>> {
        if self.spec_device_id() is Err {
            Err(self.spec_device_id()->Err_0@)
        } else if self.spec_payload() is Err {
            Err(self.spec_payload()->Err_0@)
        } else if self.spec_protocol_version() is Err {
            Err(self.spec_protocol_version()->Err_0@)
        } else if self.spec_request_id() is Err {
            Err(self.spec_request_id()->Err_0@)
        } else if self.spec_session_id() is Err {
            Err(self.spec_session_id()->Err_0@)
        } else if self.spec_type_() is Err {
            Err(self.spec_type_()->Err_0@)
        } else {
            Ok(super::TerminalOpenMessage {
                device_id: self.spec_device_id()->Ok_0,
                payload: self.spec_payload()->Ok_0,
                protocol_version: self.spec_protocol_version()->Ok_0,
                request_id: self.spec_request_id()->Ok_0,
                session_id: self.spec_session_id()->Ok_0,
                type_: self.spec_type_()->Ok_0,
            })
        }
    }

    /// Sets `device_id` from a value of its type or one that converts to it;
    /// a failed conversion is kept as the reason `device_id` has no value.
    pub fn device_id<V: Supply<super::Uuid>>(self, value: V) -> (r: Self)
        ensures
            supplied_as(value, r.spec_device_id(), "device_id"@),
            r.spec_payload() == self.spec_payload(),
            r.spec_protocol_version() == self.spec_protocol_version(),
            r.spec_request_id() == self.spec_request_id(),
            r.spec_session_id() == self.spec_session_id(),
            r.spec_type_() == self.spec_type_(),
    {
        let mut b = self;
        b.device_id = supply_field(value, "device_id");
        b
    }

    /// Sets `payload` from a value of its type or one that converts to it;
    /// a failed conversion is kept as the reason `payload` has no value.
    pub fn payload<V: Supply<super::TerminalOpenMessagePayload>>(self, value: V) -> (r: Self)
        ensures
            supplied_as(value, r.spec_payload(), "payload"@),
            r.spec_device_id() == self.spec_device_id(),
            r.spec_protocol_version() == self.spec_protocol_version(),
            r.spec_request_id() == self.spec_request_id(),
            r.spec_session_id() == self.spec_session_id(),
            r.spec_type_() == self.spec_type_(),
    {
        let mut b = self;
        b.payload = supply_field(value, "payload");
        b
    }

    /// Sets `protocol_version` from a value of its type or one that converts to it;
    /// a failed conversion is kept as the reason `protocol_version` has no value.
    pub fn protocol_version<V: Supply<super::TerminalOpenMessageProtocolVersion>>(self, value: V) -> (r: Self)
        ensures
            supplied_as(value, r.spec_protocol_version(), "protocol_version"@),
            r.spec_device_id() == self.spec_device_id(),
            r.spec_payload() == self.spec_payload(),
            r.spec_request_id() == self.spec_request_id(),
            r.spec_session_id() == self.spec_session_id(),
            r.spec_type_() == self.spec_type_(),
    {
        let mut b = self;
        b.protocol_version = supply_field(value, "protocol_version");
        b
    }

    /// Sets `request_id` from a value of its type or one that converts to it;
    /// a failed conversion is kept as the reason `request_id` has no value.
    pub fn request_id<V: Supply<super::Uuid>>(self, value: V) -> (r: Self)
        ensures
            supplied_as(value, r.spec_request_id(), "request_id"@),
            r.spec_device_id() == self.spec_device_id(),
            r.spec_payload() == self.spec_payload(),
            r.spec_protocol_version() == self.spec_protocol_version(),
            r.spec_session_id() == self.spec_session_id(),
            r.spec_type_() == self.spec_type_(),
    {
        let mut b = self;
        b.request_id = supply_field(value, "request_id");
        b
    }

    /// Sets `session_id` from a value of its type or one that converts to it;
    /// a failed conversion is kept as the reason `session_id` has no value.
    pub fn session_id<V: Supply<super::Null>>(self, value: V) -> (r: Self)
        ensures
            supplied_as(value, r.spec_session_id(), "session_id"@),
            r.spec_device_id() == self.spec_device_id(),
            r.spec_payload() == self.spec_payload(),
            r.spec_protocol_version() == self.spec_protocol_version(),
            r.spec_request_id() == self.spec_request_id(),
            r.spec_type_() == self.spec_type_(),
    {
        let mut b = self;
        b.session_id = supply_field(value, "session_id");
        b
    }

    /// Sets `type_` from a value of its type or one that converts to it;
    /// a failed conversion is kept as the reason `type_` has no value.
    pub fn type_<V: Supply<super::TerminalOpenMessageType>>(self, value: V) -> (r: Self)
        ensures
            supplied_as(value, r.spec_type_(), "type_"@),
            r.spec_device_id() == self.spec_device_id(),
            r.spec_payload() == self.spec_payload(),
            r.spec_protocol_version() == self.spec_protocol_version(),
            r.spec_request_id() == self.spec_request_id(),
            r.spec_session_id() == self.spec_session_id(),
    {
        let mut b = self;
        b.type_ = supply_field(value, "type_");
        b
    }

    /// A builder holding every field of `value`.
    pub fn from(value: super::TerminalOpenMessage) -> (r: Self)
        ensures
            r.spec_device_id() == Ok::<super::Uuid, String>(value.device_id),
            r.spec_payload() == Ok::<super::TerminalOpenMessagePayload, String>(value.payload),
            r.spec_protocol_version() == Ok::<super::TerminalOpenMessageProtocolVersion, String>(value.protocol_version),
            r.spec_request_id() == Ok::<super::Uuid, String>(value.request_id),
            r.spec_session_id() == Ok::<super::Null, String>(value.session_id),
            r.spec_type_() == Ok::<super::TerminalOpenMessageType, String>(value.type_),
            r.build_outcome() == Ok::<super::TerminalOpenMessage, Seq<char>>(value),
    {
        TerminalOpenMessage {
            device_id: Ok(value.device_id),
            payload: Ok(value.payload),
            protocol_version: Ok(value.protocol_version),
            request_id: Ok(value.request_id),
            session_id: Ok(value.session_id),
            type_: Ok(value.type_),
        }
    }
}

impl Default for TerminalOpenMessage {
    fn default() -> (r: Self)
        ensures
            r.all_unset(),
    {
        TerminalOpenMessage {
            device_id: Err("no value supplied for device_id".to_owned()),
            payload: Err("no value supplied for payload".to_owned()),
            protocol_version: Err("no value supplied for protocol_version".to_owned()),
            request_id: Err("no value supplied for request_id".to_owned()),
            session_id: Err("no value supplied for session_id".to_owned()),
            type_: Err("no value supplied for type_".to_owned()),
        }
    }
}

impl super::TerminalOpenMessage {
    /// The message a builder holds, or the reason of its first unset field.
    pub fn try_from(value: TerminalOpenMessage) -> (r: Result<Self, ConversionError>)
        ensures
            outcome(r) == value.build_outcome(),
    {
        let device_id = match value.device_id {
            Ok(v) => v,
            Err(e) => return Err(ConversionError(e)),
        };
        let payload = match value.payload {
            Ok(v) => v,
            Err(e) => return Err(ConversionError(e)),
        };
        let protocol_version = match value.protocol_version {
            Ok(v) => v,
            Err(e) => return Err(ConversionError(e)),
        };
        let request_id = match value.request_id {
            Ok(v) => v,
            Err(e) => return Err(ConversionError(e)),
        };
        let session_id = match value.session_id {
            Ok(v) => v,
            Err(e) => return Err(ConversionError(e)),
        };
        let type_ = match value.type_ {
            Ok(v) => v,
            Err(e) => return Err(ConversionError(e)),
        };
        Ok(Self { device_id, payload, protocol_version, request_id, session_id, type_ })
    }
}

/// A `TerminalOpenMessagePayload` under construction: each field holds its value or why it
/// has none.
#[derive(Debug)]
pub struct TerminalOpenMessagePayload {
    cols: Result<super::Cols, String>,
    rows: Result<super::Rows, String>,
}

impl TerminalOpenMessagePayload {
    pub closed spec fn spec_cols(&self) -> Result<super::Cols, String> {
        self.cols
    }

    pub closed spec fn spec_rows(&self) -> Result<super::Rows, String> {
        self.rows
    }

    /// Every field unset.
    pub open spec fn all_unset(&self) -> bool {
        unset(self.spec_cols(), "no value supplied for cols"@)
            && unset(self.spec_rows(), "no value supplied for rows"@)
    }

    /// What `try_from` makes of this builder: the reason of the first unset
    /// field in declaration order, or the message.
    pub open spec fn build_outcome(&self) -> Result<super::TerminalOpenMessagePayload, Seq<char>> {
        if self.spec_cols() is Err {
            Err(self.spec_cols()->Err_0@)
        } else if self.spec_rows() is Err {
            Err(self.spec_rows()->Err_0@)
        } else {
            Ok(super::TerminalOpenMessagePayload {
                cols: self.spec_cols()->Ok_0,
                rows: self.spec_rows()->Ok_0,
            })
        }
    }

    /// Sets `cols` from a value of its type or one that converts to it;
    /// a failed conversion is kept as the reason `cols` has no value.
    pub fn cols<V: Supply<super::Cols>>(self, value: V) -> (r: Self)
        ensures
            supplied_as(value, r.spec_cols(), "cols"@),
            r.spec_rows() == self.spec_rows(),
    {
        let mut b = self;
        b.cols = supply_field(value, "cols");
        b
    }

    /// Sets `rows` from a value of its type or one that converts to it;
    /// a failed conversion is kept as the reason `rows` has no value.
    pub fn rows<V: Supply<super::Rows>>(self, value: V) -> (r: Self)
        ensures
            supplied_as(value, r.spec_rows(), "rows"@),
            r.spec_cols() == self.spec_cols(),
    {
        let mut b = self;
        b.rows = supply_field(value, "rows");
        b
    }

    /// A builder holding every field of `value`.
    pub fn from(value: super::TerminalOpenMessagePayload) -> (r: Self)
        ensures
            r.spec_cols() == Ok::<super::Cols, String>(value.cols),
            r.spec_rows() == Ok::<super::Rows, String>(value.rows),
            r.build_outcome() == Ok::<super::TerminalOpenMessagePayload, Seq<char>>(value),
    {
        TerminalOpenMessagePayload {
            cols: Ok(value.cols),
            rows: Ok(value.rows),
        }
    }
}

impl Default for TerminalOpenMessagePayload {
    fn default() -> (r: Self)
        ensures
            r.all_unset(),
    {
        TerminalOpenMessagePayload {
            cols: Err("no value supplied for cols".to_owned()),
            rows: Err("no value supplied for rows".to_owned()),
        }
    }
}

impl super::TerminalOpenMessagePayload {
    /// The message a builder holds, or the reason of its first unset field.
    pub fn try_from(value: TerminalOpenMessagePayload) -> (r: Result<Self, ConversionError>)
        ensures
            outcome(r) == value.build_outcome(),
    {
        let cols = match value.cols {
            Ok(v) => v,
            Err(e) => return Err(ConversionError(e)),
        };
        let rows = match value.rows {
            Ok(v) => v,
            Err(e) => return Err(ConversionError(e)),
        };
        Ok(Self { cols, rows })
    }
}

/// A `TerminalOpenedMessage` under construction: each field holds its value or why it
/// has none.
#[derive(Debug)]
pub struct TerminalOpenedMessage {
    device_id: Result<super::Uuid, String>,
    payload: Result<super::TerminalOpenedMessagePayload, String>,
    protocol_version: Result<super::TerminalOpenedMessageProtocolVersion, String>,
    request_id: Result<super::Uuid, String>,
    session_id: Result<super::Uuid, String>,
    type_: Result<super::TerminalOpenedMessageType, String>,
}

impl TerminalOpenedMessage {
    pub closed spec fn spec_device_id(&self) -> Result<super::Uuid, String> {
        self.device_id
    }

    pub closed spec fn spec_payload(&self) -> Result<super::TerminalOpenedMessagePayload, String> {
        self.payload
    }

    pub closed spec fn spec_protocol_version(&self) -> Result<super::TerminalOpenedMessageProtocolVersion, String> {
        self.protocol_version
    }

    pub closed spec fn spec_request_id(&self) -> Result<super::Uuid, String> {
        self.request_id
    }

    pub closed spec fn spec_session_id(&self) -> Result<super::Uuid, String> {
        self.session_id
    }

    pub closed spec fn spec_type_(&self) -> Result<super::TerminalOpenedMessageType, String> {
        self.type_
    }

    /// Every field unset.
    pub open spec fn all_unset(&self) -> bool {
        unset(self.spec_device_id(), "no value supplied for device_id"@)
            && unset(self.spec_payload(), "no value supplied for payload"@)
            && unset(self.spec_protocol_version(), "no value supplied for protocol_version"@)
            && unset(self.spec_request_id(), "no value supplied for request_id"@)
            && unset(self.spec_session_id(), "no value supplied for session_id"@)
            && unset(self.spec_type_(), "no value supplied for type_"@)
    }

    /// What `try_from` makes of this builder: the reason of the first unset
    /// field in declaration order, or the message.
    pub open spec fn build_outcome(&self) -> Result<super::TerminalOpenedMessage, Seq<char>> {
        if self.spec_device_id() is Err {
            Err(self.spec_device_id()->Err_0@)
        } else if self.spec_payload() is Err {
            Err(self.spec_payload()->Err_0@)
        } else if self.spec_protocol_version() is Err {
            Err(self.spec_protocol_version()->Err_0@)
        } else if self.spec_request_id() is Err {
            Err(self.spec_request_id()->Err_0@)
        } else if self.spec_session_id() is Err {
            Err(self.spec_session_id()->Err_0@)
        } else if self.spec_type_() is Err {
            Err(self.spec_type_()->Err_0@)
        } else {
            Ok(super::TerminalOpenedMessage {
                device_id: self.spec_device_id()->Ok_0,
                payload: self.spec_payload()->Ok_0,
                protocol_version: self.spec_protocol_version()->Ok_0,
                request_id: self.spec_request_id()->Ok_0,
                session_id: self.spec_session_id()->Ok_0,
                type_: self.spec_type_()->Ok_0,
            })
        }
    }

    /// Sets `device_id` from a value of its type or one that converts to it;
    /// a failed conversion is kept as the reason `device_id` has no value.
    pub fn device_id<V: Supply<super::Uuid>>(self, value: V) -> (r: Self)
        ensures
            supplied_as(value, r.spec_device_id(), "device_id"@),
            r.spec_payload() == self.spec_payload(),
            r.spec_protocol_version() == self.spec_protocol_version(),
            r.spec_request_id() == self.spec_request_id(),
            r.spec_session_id() == self.spec_session_id(),
            r.spec_type_() == self.spec_type_(),
    {
        let mut b = self;
        b.device_id = supply_field(value, "device_id");
        b
    }

    /// Sets `payload` from a value of its type or one that converts to it;
    /// a failed conversion is kept as the reason `payload` has no value.
    pub fn payload<V: Supply<super::TerminalOpenedMessagePayload>>(self, value: V) -> (r: Self)
        ensures
            supplied_as(value, r.spec_payload(), "payload"@),
            r.spec_device_id() == self.spec_device_id(),
            r.spec_protocol_version() == self.spec_protocol_version(),
            r.spec_request_id() == self.spec_request_id(),
            r.spec_session_id() == self.spec_session_id(),
            r.spec_type_() == self.spec_type_(),
    {
        let mut b = self;
        b.payload = supply_field(value, "payload");
        b
    }

    /// Sets `protocol_version` from a value of its type or one that converts to it;
    /// a failed conversion is kept as the reason `protocol_version` has no value.
    pub fn protocol_version<V: Supply<super::TerminalOpenedMessageProtocolVersion>>(self, value: V) -> (r: Self)
        ensures
            supplied_as(value, r.spec_protocol_version(), "protocol_version"@),
            r.spec_device_id() == self.spec_device_id(),
            r.spec_payload() == self.spec_payload(),
            r.spec_request_id() == self.spec_request_id(),
            r.spec_session_id() == self.spec_session_id(),
            r.spec_type_() == self.spec_type_(),
    {
        let mut b = self;
        b.protocol_version = supply_field(value, "protocol_version");
        b
    }

    /// Sets `request_id` from a value of its type or one that converts to it;
    /// a failed conversion is kept as the reason `request_id` has no value.
    pub fn request_id<V: Supply<super::Uuid>>(self, value: V) -> (r: Self)
        ensures
            supplied_as(value, r.spec_request_id(), "request_id"@),
            r.spec_device_id() == self.spec_device_id(),
            r.spec_payload() == self.spec_payload(),
            r.spec_protocol_version() == self.spec_protocol_version(),
            r.spec_session_id() == self.spec_session_id(),
            r.spec_type_() == self.spec_type_(),
    {
        let mut b = self;
        b.request_id = supply_field(value, "request_id");
        b
    }

    /// Sets `session_id` from a value of its type or one that converts to it;
    /// a failed conversion is kept as the reason `session_id` has no value.
    pub fn session_id<V: Supply<super::Uuid>>(self, value: V) -> (r: Self)
        ensures
            supplied_as(value, r.spec_session_id(), "session_id"@),
            r.spec_device_id() == self.spec_device_id(),
            r.spec_payload() == self.spec_payload(),
            r.spec_protocol_version() == self.spec_protocol_version(),
            r.spec_request_id() == self.spec_request_id(),
            r.spec_type_() == self.spec_type_(),
    {
        let mut b = self;
        b.session_id = supply_field(value, "session_id");
        b
    }

    /// Sets `type_` from a value of its type or one that converts to it;
    /// a failed conversion is kept as the reason `type_` has no value.
    pub fn type_<V: Supply<super::TerminalOpenedMessageType>>(self, value: V) -> (r: Self)
        ensures
            supplied_as(value, r.spec_type_(), "type_"@),
            r.spec_device_id() == self.spec_device_id(),
            r.spec_payload() == self.spec_payload(),
            r.spec_protocol_version() == self.spec_protocol_version(),
            r.spec_request_id() == self.spec_request_id(),
            r.spec_session_id() == self.spec_session_id(),
    {
        let mut b = self;
        b.type_ = supply_field(value, "type_");
        b
    }

    /// A builder holding every field of `value`.
    pub fn from(value: super::TerminalOpenedMessage) -> (r: Self)
        ensures
            r.spec_device_id() == Ok::<super::Uuid, String>(value.device_id),
            r.spec_payload() == Ok::<super::TerminalOpenedMessagePayload, String>(value.payload),
            r.spec_protocol_version() == Ok::<super::TerminalOpenedMessageProtocolVersion, String>(value.protocol_version),
            r.spec_request_id() == Ok::<super::Uuid, String>(value.request_id),
            r.spec_session_id() == Ok::<super::Uuid, String>(value.session_id),
            r.spec_type_() == Ok::<super::TerminalOpenedMessageType, String>(value.type_),
            r.build_outcome() == Ok::<super::TerminalOpenedMessage, Seq<char>>(value),
    {
        TerminalOpenedMessage {
            device_id: Ok(value.device_id),
            payload: Ok(value.payload),
            protocol_version: Ok(value.protocol_version),
            request_id: Ok(value.request_id),
            session_id: Ok(value.session_id),
            type_: Ok(value.type_),
        }
    }
}

impl Default for TerminalOpenedMessage {
    fn default() -> (r: Self)
        ensures
            r.all_unset(),
    {
        TerminalOpenedMessage {
            device_id: Err("no value supplied for device_id".to_owned()),
            payload: Err("no value supplied for payload".to_owned()),
            protocol_version: Err("no value supplied for protocol_version".to_owned()),
            request_id: Err("no value supplied for request_id".to_owned()),
            session_id: Err("no value supplied for session_id".to_owned()),
            type_: Err("no value supplied for type_".to_owned()),
        }
    }
}

impl super::TerminalOpenedMessage {
    /// The message a builder holds, or the reason of its first unset field.
    pub fn try_from(value: TerminalOpenedMessage) -> (r: Result<Self, ConversionError>)
        ensures
            outcome(r) == value.build_outcome(),
    {
        let device_id = match value.device_id {
            Ok(v) => v,
            Err(e) => return Err(ConversionError(e)),
        };
        let payload = match value.payload {
            Ok(v) => v,
            Err(e) => return Err(ConversionError(e)),
        };
        let protocol_version = match value.protocol_version {
            Ok(v) => v,
            Err(e) => return Err(ConversionError(e)),
        };
        let request_id = match value.request_id {
            Ok(v) => v,
            Err(e) => return Err(ConversionError(e)),
        };
        let session_id = match value.session_id {
            Ok(v) => v,
            Err(e) => return Err(ConversionError(e)),
        };
        let type_ = match value.type_ {
            Ok(v) => v,
            Err(e) => return Err(ConversionError(e)),
        };
        Ok(Self { device_id, payload, protocol_version, request_id, session_id, type_ })
    }
}

/// A `TerminalOpenedMessagePayload` under construction: each field holds its value or why it
/// has none.
#[derive(Debug)]
pub struct TerminalOpenedMessagePayload {
    shell: Result<super::TerminalOpenedMessagePayloadShell, String>,
}

impl TerminalOpenedMessagePayload {
    pub closed spec fn spec_shell(&self) -> Result<super::TerminalOpenedMessagePayloadShell, String> {
        self.shell
    }

    /// Every field unset.
    pub open spec fn all_unset(&self) -> bool {
        unset(self.spec_shell(), "no value supplied for shell"@)
    }

    /// What `try_from` makes of this builder: the reason of the first unset
    /// field in declaration order, or the message.
    pub open spec fn build_outcome(&self) -> Result<super::TerminalOpenedMessagePayload, Seq<char>> {
        if self.spec_shell() is Err {
            Err(self.spec_shell()->Err_0@)
        } else {
            Ok(super::TerminalOpenedMessagePayload {
                shell: self.spec_shell()->Ok_0,
            })
        }
    }

    /// Sets `shell` from a value of its type or one that converts to it;
    /// a failed conversion is kept as the reason `shell` has no value.
    pub fn shell<V: Supply<super::TerminalOpenedMessagePayloadShell>>(self, value: V) -> (r: Self)
        ensures
            supplied_as(value, r.spec_shell(), "shell"@),
    {
        let mut b = self;
        b.shell = supply_field(value, "shell");
        b
    }

    /// A builder holding every field of `value`.
    pub fn from(value: super::TerminalOpenedMessagePayload) -> (r: Self)
        ensures
            r.spec_shell() == Ok::<super::TerminalOpenedMessagePayloadShell, String>(value.shell),
            r.build_outcome() == Ok::<super::TerminalOpenedMessagePayload, Seq<char>>(value),
    {
        TerminalOpenedMessagePayload {
            shell: Ok(value.shell),
        }
    }
}

impl Default for TerminalOpenedMessagePayload {
    fn default() -> (r: Self)
        ensures
            r.all_unset(),
    {
        TerminalOpenedMessagePayload {
            shell: Err("no value supplied for shell".to_owned()),
        }
    }
}

impl super::TerminalOpenedMessagePayload {
    /// The message a builder holds, or the reason of its first unset field.
    pub fn try_from(value: TerminalOpenedMessagePayload) -> (r: Result<Self, ConversionError>)
        ensures
            outcome(r) == value.build_outcome(),
    {
        let shell = match value.shell {
            Ok(v) => v,
            Err(e) => return Err(ConversionError(e)),
        };
        Ok(Self { shell })
    }
}

/// A `TerminalResizeMessage` under construction: each field holds its value or why it
/// has none.
#[derive(Debug)]
pub struct TerminalResizeMessage {
    device_id: Result<super::Uuid, String>,
    payload: Result<super::TerminalResizeMessagePayload, String>,
    protocol_version: Result<super::TerminalResizeMessageProtocolVersion, String>,
    request_id: Result<super::Null, String>,
    session_id: Result<super::Uuid, String>,
    type_: Result<super::TerminalResizeMessageType, String>,
}

impl TerminalResizeMessage {
    pub closed spec fn spec_device_id(&self) -> Result<super::Uuid, String> {
        self.device_id
    }

    pub closed spec fn spec_payload(&self) -> Result<super::TerminalResizeMessagePayload, String> {
        self.payload
    }

    pub closed spec fn spec_protocol_version(&self) -> Result<super::TerminalResizeMessageProtocolVersion, String> {
        self.protocol_version
    }

    pub closed spec fn spec_request_id(&self) -> Result<super::Null, String> {
        self.request_id
    }

    pub closed spec fn spec_session_id(&self) -> Result<super::Uuid, String> {
        self.session_id
    }

    pub closed spec fn spec_type_(&self) -> Result<super::TerminalResizeMessageType, String> {
        self.type_
    }

    /// Every field unset.
    pub open spec fn all_unset(&self) -> bool {
        unset(self.spec_device_id(), "no value supplied for device_id"@)
            && unset(self.spec_payload(), "no value supplied for payload"@)
            && unset(self.spec_protocol_version(), "no value supplied for protocol_version"@)
            && unset(self.spec_request_id(), "no value supplied for request_id"@)
            && unset(self.spec_session_id(), "no value supplied for session_id"@)
            && unset(self.spec_type_(), "no value supplied for type_"@)
    }

    /// What `try_from` makes of this builder: the reason of the first unset
    /// field in declaration order, or the message.
    pub open spec fn build_outcome(&self) -> Result<super::TerminalResizeMessage, Seq<char>> {
        if self.spec_device_id() is Err {
            Err(self.spec_device_id()->Err_0@)
        } else if self.spec_payload() is Err {
            Err(self.spec_payload()->Err_0@)
        } else if self.spec_protocol_version() is Err {
            Err(self.spec_protocol_version()->Err_0@)
        } else if self.spec_request_id() is Err {
            Err(self.spec_request_id()->Err_0@)
        } else if self.spec_session_id() is Err {
            Err(self.spec_session_id()->Err_0@)
        } else if self.spec_type_() is Err {
            Err(self.spec_type_()->Err_0@)
        } else {
            Ok(super::TerminalResizeMessage {
                device_id: self.spec_device_id()->Ok_0,
                payload: self.spec_payload()->Ok_0,
                protocol_version: self.spec_protocol_version()->Ok_0,
                request_id: self.spec_request_id()->Ok_0,
                session_id: self.spec_session_id()->Ok_0,
                type_: self.spec_type_()->Ok_0,
            })
        }
    }

    /// Sets `device_id` from a value of its type or one that converts to it;
    /// a failed conversion is kept as the reason `device_id` has no value.
    pub fn device_id<V: Supply<super::Uuid>>(self, value: V) -> (r: Self)
        ensures
            supplied_as(value, r.spec_device_id(), "device_id"@),
            r.spec_payload() == self.spec_payload(),
            r.spec_protocol_version() == self.spec_protocol_version(),
            r.spec_request_id() == self.spec_request_id(),
            r.spec_session_id() == self.spec_session_id(),
            r.spec_type_() == self.spec_type_(),
    {
        let mut b = self;
        b.device_id = supply_field(value, "device_id");
        b
    }

    /// Sets `payload` from a value of its type or one that converts to it;
    /// a failed conversion is kept as the reason `payload` has no value.
    pub fn payload<V: Supply<super::TerminalResizeMessagePayload>>(self, value: V) -> (r: Self)
        ensures
            supplied_as(value, r.spec_payload(), "payload"@),
            r.spec_device_id() == self.spec_device_id(),
            r.spec_protocol_version() == self.spec_protocol_version(),
            r.spec_request_id() == self.spec_request_id(),
            r.spec_session_id() == self.spec_session_id(),
            r.spec_type_() == self.spec_type_(),
    {
        let mut b = self;
        b.payload = supply_field(value, "payload");
        b
    }

    /// Sets `protocol_version` from a value of its type or one that converts to it;
    /// a failed conversion is kept as the reason `protocol_version` has no value.
    pub fn protocol_version<V: Supply<super::TerminalResizeMessageProtocolVersion>>(self, value: V) -> (r: Self)
        ensures
            supplied_as(value, r.spec_protocol_version(), "protocol_version"@),
            r.spec_device_id() == self.spec_device_id(),
            r.spec_payload() == self.spec_payload(),
            r.spec_request_id() == self.spec_request_id(),
            r.spec_session_id() == self.spec_session_id(),
            r.spec_type_() == self.spec_type_(),
    {
        let mut b = self;
        b.protocol_version = supply_field(value, "protocol_version");
        b
    }

    /// Sets `request_id` from a value of its type or one that converts to it;
    /// a failed conversion is kept as the reason `request_id` has no value.
    pub fn request_id<V: Supply<super::Null>>(self, value: V) -> (r: Self)
        ensures
            supplied_as(value, r.spec_request_id(), "request_id"@),
            r.spec_device_id() == self.spec_device_id(),
            r.spec_payload() == self.spec_payload(),
            r.spec_protocol_version() == self.spec_protocol_version(),
            r.spec_session_id() == self.spec_session_id(),
            r.spec_type_() == self.spec_type_(),
    {
        let mut b = self;
        b.request_id = supply_field(value, "request_id");
        b
    }

    /// Sets `session_id` from a value of its type or one that converts to it;
    /// a failed conversion is kept as the reason `session_id` has no value.
    pub fn session_id<V: Supply<super::Uuid>>(self, value: V) -> (r: Self)
        ensures
            supplied_as(value, r.spec_session_id(), "session_id"@),
            r.spec_device_id() == self.spec_device_id(),
            r.spec_payload() == self.spec_payload(),
            r.spec_protocol_version() == self.spec_protocol_version(),
            r.spec_request_id() == self.spec_request_id(),
            r.spec_type_() == self.spec_type_(),
    {
        let mut b = self;
        b.session_id = supply_field(value, "session_id");
        b
    }

    /// Sets `type_` from a value of its type or one that converts to it;
    /// a failed conversion is kept as the reason `type_` has no value.
    pub fn type_<V: Supply<super::TerminalResizeMessageType>>(self, value: V) -> (r: Self)
        ensures
            supplied_as(value, r.spec_type_(), "type_"@),
            r.spec_device_id() == self.spec_device_id(),
            r.spec_payload() == self.spec_payload(),
            r.spec_protocol_version() == self.spec_protocol_version(),
            r.spec_request_id() == self.spec_request_id(),
            r.spec_session_id() == self.spec_session_id(),
    {
        let mut b = self;
        b.type_ = supply_field(value, "type_");
        b
    }

    /// A builder holding every field of `value`.
    pub fn from(value: super::TerminalResizeMessage) -> (r: Self)
        ensures
            r.spec_device_id() == Ok::<super::Uuid, String>(value.device_id),
            r.spec_payload() == Ok::<super::TerminalResizeMessagePayload, String>(value.payload),
            r.spec_protocol_version() == Ok::<super::TerminalResizeMessageProtocolVersion, String>(value.protocol_version),
            r.spec_request_id() == Ok::<super::Null, String>(value.request_id),
            r.spec_session_id() == Ok::<super::Uuid, String>(value.session_id),
            r.spec_type_() == Ok::<super::TerminalResizeMessageType, String>(value.type_),
            r.build_outcome() == Ok::<super::TerminalResizeMessage, Seq<char>>(value),
    {
        TerminalResizeMessage {
            device_id: Ok(value.device_id),
            payload: Ok(value.payload),
            protocol_version: Ok(value.protocol_version),
            request_id: Ok(value.request_id),
            session_id: Ok(value.session_id),
            type_: Ok(value.type_),
        }
    }
}

impl Default for TerminalResizeMessage {
    fn default() -> (r: Self)
        ensures
            r.all_unset(),
    {
        TerminalResizeMessage {
            device_id: Err("no value supplied for device_id".to_owned()),
            payload: Err("no value supplied for payload".to_owned()),
            protocol_version: Err("no value supplied for protocol_version".to_owned()),
            request_id: Err("no value supplied for request_id".to_owned()),
            session_id: Err("no value supplied for session_id".to_owned()),
            type_: Err("no value supplied for type_".to_owned()),
        }
    }
}

impl super::TerminalResizeMessage {
    /// The message a builder holds, or the reason of its first unset field.
    pub fn try_from(value: TerminalResizeMessage) -> (r: Result<Self, ConversionError>)
        ensures
            outcome(r) == value.build_outcome(),
    {
        let device_id = match value.device_id {
            Ok(v) => v,
            Err(e) => return Err(ConversionError(e)),
        };
        let payload = match value.payload {
            Ok(v) => v,
            Err(e) => return Err(ConversionError(e)),
        };
        let protocol_version = match value.protocol_version {
            Ok(v) => v,
            Err(e) => return Err(ConversionError(e)),
        };
        let request_id = match value.request_id {
            Ok(v) => v,
            Err(e) => return Err(ConversionError(e)),
        };
        let session_id = match value.session_id {
            Ok(v) => v,
            Err(e) => return Err(ConversionError(e)),
        };
        let type_ = match value.type_ {
            Ok(v) => v,
            Err(e) => return Err(ConversionError(e)),
        };
        Ok(Self { device_id, payload, protocol_version, request_id, session_id, type_ })
    }
}

/// A `TerminalResizeMessagePayload` under construction: each field holds its value or why it
/// has none.
#[derive(Debug)]
pub struct TerminalResizeMessagePayload {
    cols: Result<super::Cols, String>,
    rows: Result<super::Rows, String>,
}

impl TerminalResizeMessagePayload {
    pub closed spec fn spec_cols(&self) -> Result<super::Cols, String> {
        self.cols
    }

    pub closed spec fn spec_rows(&self) -> Result<super::Rows, String> {
        self.rows
    }

    /// Every field unset.
    pub open spec fn all_unset(&self) -> bool {
        unset(self.spec_cols(), "no value supplied for cols"@)
            && unset(self.spec_rows(), "no value supplied for rows"@)
    }

    /// What `try_from` makes of this builder: the reason of the first unset
    /// field in declaration order, or the message.
    pub open spec fn build_outcome(&self) -> Result<super::TerminalResizeMessagePayload, Seq<char>> {
        if self.spec_cols() is Err {
            Err(self.spec_cols()->Err_0@)
        } else if self.spec_rows() is Err {
            Err(self.spec_rows()->Err_0@)
        } else {
            Ok(super::TerminalResizeMessagePayload {
                cols: self.spec_cols()->Ok_0,
                rows: self.spec_rows()->Ok_0,
            })
        }
    }

    /// Sets `cols` from a value of its type or one that converts to it;
    /// a failed conversion is kept as the reason `cols` has no value.
    pub fn cols<V: Supply<super::Cols>>(self, value: V) -> (r: Self)
        ensures
            supplied_as(value, r.spec_cols(), "cols"@),
            r.spec_rows() == self.spec_rows(),
    {
        let mut b = self;
        b.cols = supply_field(value, "cols");
        b
    }

    /// Sets `rows` from a value of its type or one that converts to it;
    /// a failed conversion is kept as the reason `rows` has no value.
    pub fn rows<V: Supply<super::Rows>>(self, value: V) -> (r: Self)
        ensures
            supplied_as(value, r.spec_rows(), "rows"@),
            r.spec_cols() == self.spec_cols(),
    {
        let mut b = self;
        b.rows = supply_field(value, "rows");
        b
    }

    /// A builder holding every field of `value`.
    pub fn from(value: super::TerminalResizeMessagePayload) -> (r: Self)
        ensures
            r.spec_cols() == Ok::<super::Cols, String>(value.cols),
            r.spec_rows() == Ok::<super::Rows, String>(value.rows),
            r.build_outcome() == Ok::<super::TerminalResizeMessagePayload, Seq<char>>(value),
    {
        TerminalResizeMessagePayload {
            cols: Ok(value.cols),
            rows: Ok(value.rows),
        }
    }
}

impl Default for TerminalResizeMessagePayload {
    fn default() -> (r: Self)
        ensures
            r.all_unset(),
    {
        TerminalResizeMessagePayload {
            cols: Err("no value supplied for cols".to_owned()),
            rows: Err("no value supplied for rows".to_owned()),
        }
    }
}

impl super::TerminalResizeMessagePayload {
    /// The message a builder holds, or the reason of its first unset field.
    pub fn try_from(value: TerminalResizeMessagePayload) -> (r: Result<Self, ConversionError>)
        ensures
            outcome(r) == value.build_outcome(),
    {
        let cols = match value.cols {
            Ok(v) => v,
            Err(e) => return Err(ConversionError(e)),
        };
        let rows = match value.rows {
            Ok(v) => v,
            Err(e) => return Err(ConversionError(e)),
        };
        Ok(Self { cols, rows })
    }
}

/// A `TerminalShellEventMessage` under construction: each field holds its value or why it
/// has none.
#[derive(Debug)]
pub struct TerminalShellEventMessage {
    device_id: Result<super::Uuid, String>,
    payload: Result<super::TerminalShellEventMessagePayload, String>,
    protocol_version: Result<super::TerminalShellEventMessageProtocolVersion, String>,
    request_id: Result<super::Null, String>,
    session_id: Result<super::Uuid, String>,
    type_: Result<super::TerminalShellEventMessageType, String>,
}

impl TerminalShellEventMessage {
    pub closed spec fn spec_device_id(&self) -> Result<super::Uuid, String> {
        self.device_id
    }

    pub closed spec fn spec_payload(&self) -> Result<super::TerminalShellEventMessagePayload, String> {
        self.payload
    }

    pub closed spec fn spec_protocol_version(&self) -> Result<super::TerminalShellEventMessageProtocolVersion, String> {
        self.protocol_version
    }

    pub closed spec fn spec_request_id(&self) -> Result<super::Null, String> {
        self.request_id
    }

    pub closed spec fn spec_session_id(&self) -> Result<super::Uuid, String> {
        self.session_id
    }

    pub closed spec fn spec_type_(&self) -> Result<super::TerminalShellEventMessageType, String> {
        self.type_
    }

    /// Every field unset.
    pub open spec fn all_unset(&self) -> bool {
        unset(self.spec_device_id(), "no value supplied for device_id"@)
            && unset(self.spec_payload(), "no value supplied for payload"@)
            && unset(self.spec_protocol_version(), "no value supplied for protocol_version"@)
            && unset(self.spec_request_id(), "no value supplied for request_id"@)
            && unset(self.spec_session_id(), "no value supplied for session_id"@)
            && unset(self.spec_type_(), "no value supplied for type_"@)
    }

    /// What `try_from` makes of this builder: the reason of the first unset
    /// field in declaration order, or the message.
    pub open spec fn build_outcome(&self) -> Result<super::TerminalShellEventMessage, Seq<char>> {
        if self.spec_device_id() is Err {
            Err(self.spec_device_id()->Err_0@)
        } else if self.spec_payload() is Err {
            Err(self.spec_payload()->Err_0@)
        } else if self.spec_protocol_version() is Err {
            Err(self.spec_protocol_version()->Err_0@)
        } else if self.spec_request_id() is Err {
            Err(self.spec_request_id()->Err_0@)
        } else if self.spec_session_id() is Err {
            Err(self.spec_session_id()->Err_0@)
        } else if self.spec_type_() is Err {
            Err(self.spec_type_()->Err_0@)
        } else {
            Ok(super::TerminalShellEventMessage {
                device_id: self.spec_device_id()->Ok_0,
                payload: self.spec_payload()->Ok_0,
                protocol_version: self.spec_protocol_version()->Ok_0,
                request_id: self.spec_request_id()->Ok_0,
                session_id: self.spec_session_id()->Ok_0,
                type_: self.spec_type_()->Ok_0,
            })
        }
    }

    /// Sets `device_id` from a value of its type or one that converts to it;
    /// a failed conversion is kept as the reason `device_id` has no value.
    pub fn device_id<V: Supply<super::Uuid>>(self, value: V) -> (r: Self)
        ensures
            supplied_as(value, r.spec_device_id(), "device_id"@),
            r.spec_payload() == self.spec_payload(),
            r.spec_protocol_version() == self.spec_protocol_version(),
            r.spec_request_id() == self.spec_request_id(),
            r.spec_session_id() == self.spec_session_id(),
            r.spec_type_() == self.spec_type_(),
    {
        let mut b = self;
        b.device_id = supply_field(value, "device_id");
        b
    }

    /// Sets `payload` from a value of its type or one that converts to it;
    /// a failed conversion is kept as the reason `payload` has no value.
    pub fn payload<V: Supply<super::TerminalShellEventMessagePayload>>(self, value: V) -> (r: Self)
        ensures
            supplied_as(value, r.spec_payload(), "payload"@),
            r.spec_device_id() == self.spec_device_id(),
            r.spec_protocol_version() == self.spec_protocol_version(),
            r.spec_request_id() == self.spec_request_id(),
            r.spec_session_id() == self.spec_session_id(),
            r.spec_type_() == self.spec_type_(),
    {
        let mut b = self;
        b.payload = supply_field(value, "payload");
        b
    }

    /// Sets `protocol_version` from a value of its type or one that converts to it;
    /// a failed conversion is kept as the reason `protocol_version` has no value.
    pub fn protocol_version<V: Supply<super::TerminalShellEventMessageProtocolVersion>>(self, value: V) -> (r: Self)
        ensures
            supplied_as(value, r.spec_protocol_version(), "protocol_version"@),
            r.spec_device_id() == self.spec_device_id(),
            r.spec_payload() == self.spec_payload(),
            r.spec_request_id() == self.spec_request_id(),
            r.spec_session_id() == self.spec_session_id(),
            r.spec_type_() == self.spec_type_(),
    {
        let mut b = self;
        b.protocol_version = supply_field(value, "protocol_version");
        b
    }

    /// Sets `request_id` from a value of its type or one that converts to it;
    /// a failed conversion is kept as the reason `request_id` has no value.
    pub fn request_id<V: Supply<super::Null>>(self, value: V) -> (r: Self)
        ensures
            supplied_as(value, r.spec_request_id(), "request_id"@),
            r.spec_device_id() == self.spec_device_id(),
            r.spec_payload() == self.spec_payload(),
            r.spec_protocol_version() == self.spec_protocol_version(),
            r.spec_session_id() == self.spec_session_id(),
            r.spec_type_() == self.spec_type_(),
    {
        let mut b = self;
        b.request_id = supply_field(value, "request_id");
        b
    }

    /// Sets `session_id` from a value of its type or one that converts to it;
    /// a failed conversion is kept as the reason `session_id` has no value.
    pub fn session_id<V: Supply<super::Uuid>>(self, value: V) -> (r: Self)
        ensures
            supplied_as(value, r.spec_session_id(), "session_id"@),
            r.spec_device_id() == self.spec_device_id(),
            r.spec_payload() == self.spec_payload(),
            r.spec_protocol_version() == self.spec_protocol_version(),
            r.spec_request_id() == self.spec_request_id(),
            r.spec_type_() == self.spec_type_(),
    {
        let mut b = self;
        b.session_id = supply_field(value, "session_id");
        b
    }

    /// Sets `type_` from a value of its type or one that converts to it;
    /// a failed conversion is kept as the reason `type_` has no value.
    pub fn type_<V: Supply<super::TerminalShellEventMessageType>>(self, value: V) -> (r: Self)
        ensures
            supplied_as(value, r.spec_type_(), "type_"@),
            r.spec_device_id() == self.spec_device_id(),
            r.spec_payload() == self.spec_payload(),
            r.spec_protocol_version() == self.spec_protocol_version(),
            r.spec_request_id() == self.spec_request_id(),
            r.spec_session_id() == self.spec_session_id(),
    {
        let mut b = self;
        b.type_ = supply_field(value, "type_");
        b
    }

    /// A builder holding every field of `value`.
    pub fn from(value: super::TerminalShellEventMessage) -> (r: Self)
        ensures
            r.spec_device_id() == Ok::<super::Uuid, String>(value.device_id),
            r.spec_payload() == Ok::<super::TerminalShellEventMessagePayload, String>(value.payload),
            r.spec_protocol_version() == Ok::<super::TerminalShellEventMessageProtocolVersion, String>(value.protocol_version),
            r.spec_request_id() == Ok::<super::Null, String>(value.request_id),
            r.spec_session_id() == Ok::<super::Uuid, String>(value.session_id),
            r.spec_type_() == Ok::<super::TerminalShellEventMessageType, String>(value.type_),
            r.build_outcome() == Ok::<super::TerminalShellEventMessage, Seq<char>>(value),
    {
        TerminalShellEventMessage {
            device_id: Ok(value.device_id),
            payload: Ok(value.payload),
            protocol_version: Ok(value.protocol_version),
            request_id: Ok(value.request_id),
            session_id: Ok(value.session_id),
            type_: Ok(value.type_),
        }
    }
}

impl Default for TerminalShellEventMessage {
    fn default() -> (r: Self)
        ensures
            r.all_unset(),
    {
        TerminalShellEventMessage {
            device_id: Err("no value supplied for device_id".to_owned()),
            payload: Err("no value supplied for payload".to_owned()),
            protocol_version: Err("no value supplied for protocol_version".to_owned()),
            request_id: Err("no value supplied for request_id".to_owned()),
            session_id: Err("no value supplied for session_id".to_owned()),
            type_: Err("no value supplied for type_".to_owned()),
        }
    }
}

impl super::TerminalShellEventMessage {
    /// The message a builder holds, or the reason of its first unset field.
    pub fn try_from(value: TerminalShellEventMessage) -> (r: Result<Self, ConversionError>)
        ensures
            outcome(r) == value.build_outcome(),
    {
        let device_id = match value.device_id {
            Ok(v) => v,
            Err(e) => return Err(ConversionError(e)),
        };
        let payload = match value.payload {
            Ok(v) => v,
            Err(e) => return Err(ConversionError(e)),
        };
        let protocol_version = match value.protocol_version {
            Ok(v) => v,
            Err(e) => return Err(ConversionError(e)),
        };
        let request_id = match value.request_id {
            Ok(v) => v,
            Err(e) => return Err(ConversionError(e)),
        };
        let session_id = match value.session_id {
            Ok(v) => v,
            Err(e) => return Err(ConversionError(e)),
        };
        let type_ = match value.type_ {
            Ok(v) => v,
            Err(e) => return Err(ConversionError(e)),
        };
        Ok(Self { device_id, payload, protocol_version, request_id, session_id, type_ })
    }
}

/// A `TerminalShellEventMessagePayload` under construction: each field holds its value or why it
/// has none.
#[derive(Debug)]
pub struct TerminalShellEventMessagePayload {
    exit_code: Result<Option<i32>, String>,
    source: Result<super::ShellEventSource, String>,
    type_: Result<super::ShellEventName, String>,
}

impl TerminalShellEventMessagePayload {
    pub closed spec fn spec_exit_code(&self) -> Result<Option<i32>, String> {
        self.exit_code
    }

    pub closed spec fn spec_source(&self) -> Result<super::ShellEventSource, String> {
        self.source
    }

    pub closed spec fn spec_type_(&self) -> Result<super::ShellEventName, String> {
        self.type_
    }

    /// Every field unset.
    pub open spec fn all_unset(&self) -> bool {
        unset(self.spec_exit_code(), "no value supplied for exit_code"@)
            && unset(self.spec_source(), "no value supplied for source"@)
            && unset(self.spec_type_(), "no value supplied for type_"@)
    }

    /// What `try_from` makes of this builder: the reason of the first unset
    /// field in declaration order, or the message.
    pub open spec fn build_outcome(&self) -> Result<super::TerminalShellEventMessagePayload, Seq<char>> {
        if self.spec_exit_code() is Err {
            Err(self.spec_exit_code()->Err_0@)
        } else if self.spec_source() is Err {
            Err(self.spec_source()->Err_0@)
        } else if self.spec_type_() is Err {
            Err(self.spec_type_()->Err_0@)
        } else {
            Ok(super::TerminalShellEventMessagePayload {
                exit_code: self.spec_exit_code()->Ok_0,
                source: self.spec_source()->Ok_0,
                type_: self.spec_type_()->Ok_0,
            })
        }
    }

    /// Sets `exit_code` from a value of its type or one that converts to it;
    /// a failed conversion is kept as the reason `exit_code` has no value.
    pub fn exit_code<V: Supply<Option<i32>>>(self, value: V) -> (r: Self)
        ensures
            supplied_as(value, r.spec_exit_code(), "exit_code"@),
            r.spec_source() == self.spec_source(),
            r.spec_type_() == self.spec_type_(),
    {
        let mut b = self;
        b.exit_code = supply_field(value, "exit_code");
        b
    }

    /// Sets `source` from a value of its type or one that converts to it;
    /// a failed conversion is kept as the reason `source` has no value.
    pub fn source<V: Supply<super::ShellEventSource>>(self, value: V) -> (r: Self)
        ensures
            supplied_as(value, r.spec_source(), "source"@),
            r.spec_exit_code() == self.spec_exit_code(),
            r.spec_type_() == self.spec_type_(),
    {
        let mut b = self;
        b.source = supply_field(value, "source");
        b
    }

    /// Sets `type_` from a value of its type or one that converts to it;
    /// a failed conversion is kept as the reason `type_` has no value.
    pub fn type_<V: Supply<super::ShellEventName>>(self, value: V) -> (r: Self)
        ensures
            supplied_as(value, r.spec_type_(), "type_"@),
            r.spec_exit_code() == self.spec_exit_code(),
            r.spec_source() == self.spec_source(),
    {
        let mut b = self;
        b.type_ = supply_field(value, "type_");
        b
    }

    /// A builder holding every field of `value`.
    pub fn from(value: super::TerminalShellEventMessagePayload) -> (r: Self)
        ensures
            r.spec_exit_code() == Ok::<Option<i32>, String>(value.exit_code),
            r.spec_source() == Ok::<super::ShellEventSource, String>(value.source),
            r.spec_type_() == Ok::<super::ShellEventName, String>(value.type_),
            r.build_outcome() == Ok::<super::TerminalShellEventMessagePayload, Seq<char>>(value),
    {
        TerminalShellEventMessagePayload {
            exit_code: Ok(value.exit_code),
            source: Ok(value.source),
            type_: Ok(value.type_),
        }
    }
}

impl Default for TerminalShellEventMessagePayload {
    fn default() -> (r: Self)
        ensures
            r.all_unset(),
    {
        TerminalShellEventMessagePayload {
            exit_code: Err("no value supplied for exit_code".to_owned()),
            source: Err("no value supplied for source".to_owned()),
            type_: Err("no value supplied for type_".to_owned()),
        }
    }
}

impl super::TerminalShellEventMessagePayload {
    /// The message a builder holds, or the reason of its first unset field.
    pub fn try_from(value: TerminalShellEventMessagePayload) -> (r: Result<Self, ConversionError>)
        ensures
            outcome(r) == value.build_outcome(),
    {
        let exit_code = match value.exit_code {
            Ok(v) => v,
            Err(e) => return Err(ConversionError(e)),
        };
        let source = match value.source {
            Ok(v) => v,
            Err(e) => return Err(ConversionError(e)),
        };
        let type_ = match value.type_ {
            Ok(v) => v,
            Err(e) => return Err(ConversionError(e)),
        };
        Ok(Self { exit_code, source, type_ })
    }
}

/// A `TransferAbortMessage` under construction: each field holds its value or why it
/// has none.
#[derive(Debug)]
pub struct TransferAbortMessage {
    device_id: Result<super::Uuid, String>,
    payload: Result<super::TransferAbortMessagePayload, String>,
    protocol_version: Result<super::TransferAbortMessageProtocolVersion, String>,
    request_id: Result<super::Null, String>,
    session_id: Result<super::Null, String>,
    type_: Result<super::TransferAbortMessageType, String>,
}

impl TransferAbortMessage {
    pub closed spec fn spec_device_id(&self) -> Result<super::Uuid, String> {
        self.device_id
    }

    pub closed spec fn spec_payload(&self) -> Result<super::TransferAbortMessagePayload, String> {
        self.payload
    }

    pub closed spec fn spec_protocol_version(&self) -> Result<super::TransferAbortMessageProtocolVersion, String> {
        self.protocol_version
    }

    pub closed spec fn spec_request_id(&self) -> Result<super::Null, String> {
        self.request_id
    }

    pub closed spec fn spec_session_id(&self) -> Result<super::Null, String> {
        self.session_id
    }

    pub closed spec fn spec_type_(&self) -> Result<super::TransferAbortMessageType, String> {
        self.type_
    }

    /// Every field unset.
    pub open spec fn all_unset(&self) -> bool {
        unset(self.spec_device_id(), "no value supplied for device_id"@)
            && unset(self.spec_payload(), "no value supplied for payload"@)
            && unset(self.spec_protocol_version(), "no value supplied for protocol_version"@)
            && unset(self.spec_request_id(), "no value supplied for request_id"@)
            && unset(self.spec_session_id(), "no value supplied for session_id"@)
            && unset(self.spec_type_(), "no value supplied for type_"@)
    }

    /// What `try_from` makes of this builder: the reason of the first unset
    /// field in declaration order, or the message.
    pub open spec fn build_outcome(&self) -> Result<super::TransferAbortMessage, Seq<char>> {
        if self.spec_device_id() is Err {
            Err(self.spec_device_id()->Err_0@)
        } else if self.spec_payload() is Err {
            Err(self.spec_payload()->Err_0@)
        } else if self.spec_protocol_version() is Err {
            Err(self.spec_protocol_version()->Err_0@)
        } else if self.spec_request_id() is Err {
            Err(self.spec_request_id()->Err_0@)
        } else if self.spec_session_id() is Err {
            Err(self.spec_session_id()->Err_0@)
        } else if self.spec_type_() is Err {
            Err(self.spec_type_()->Err_0@)
        } else {
            Ok(super::TransferAbortMessage {
                device_id: self.spec_device_id()->Ok_0,
                payload: self.spec_payload()->Ok_0,
                protocol_version: self.spec_protocol_version()->Ok_0,
                request_id: self.spec_request_id()->Ok_0,
                session_id: self.spec_session_id()->Ok_0,
                type_: self.spec_type_()->Ok_0,
            })
        }
    }

    /// Sets `device_id` from a value of its type or one that converts to it;
    /// a failed conversion is kept as the reason `device_id` has no value.
    pub fn device_id<V: Supply<super::Uuid>>(self, value: V) -> (r: Self)
        ensures
            supplied_as(value, r.spec_device_id(), "device_id"@),
            r.spec_payload() == self.spec_payload(),
            r.spec_protocol_version() == self.spec_protocol_version(),
            r.spec_request_id() == self.spec_request_id(),
            r.spec_session_id() == self.spec_session_id(),
            r.spec_type_() == self.spec_type_(),
    {
        let mut b = self;
        b.device_id = supply_field(value, "device_id");
        b
    }

    /// Sets `payload` from a value of its type or one that converts to it;
    /// a failed conversion is kept as the reason `payload` has no value.
    pub fn payload<V: Supply<super::TransferAbortMessagePayload>>(self, value: V) -> (r: Self)
        ensures
            supplied_as(value, r.spec_payload(), "payload"@),
            r.spec_device_id() == self.spec_device_id(),
            r.spec_protocol_version() == self.spec_protocol_version(),
            r.spec_request_id() == self.spec_request_id(),
            r.spec_session_id() == self.spec_session_id(),
            r.spec_type_() == self.spec_type_(),
    {
        let mut b = self;
        b.payload = supply_field(value, "payload");
        b
    }

    /// Sets `protocol_version` from a value of its type or one that converts to it;
    /// a failed conversion is kept as the reason `protocol_version` has no value.
    pub fn protocol_version<V: Supply<super::TransferAbortMessageProtocolVersion>>(self, value: V) -> (r: Self)
        ensures
            supplied_as(value, r.spec_protocol_version(), "protocol_version"@),
            r.spec_device_id() == self.spec_device_id(),
            r.spec_payload() == self.spec_payload(),
            r.spec_request_id() == self.spec_request_id(),
            r.spec_session_id() == self.spec_session_id(),
            r.spec_type_() == self.spec_type_(),
    {
        let mut b = self;
        b.protocol_version = supply_field(value, "protocol_version");
        b
    }

    /// Sets `request_id` from a value of its type or one that converts to it;
    /// a failed conversion is kept as the reason `request_id` has no value.
    pub fn request_id<V: Supply<super::Null>>(self, value: V) -> (r: Self)
        ensures
            supplied_as(value, r.spec_request_id(), "request_id"@),
            r.spec_device_id() == self.spec_device_id(),
            r.spec_payload() == self.spec_payload(),
            r.spec_protocol_version() == self.spec_protocol_version(),
            r.spec_session_id() == self.spec_session_id(),
            r.spec_type_() == self.spec_type_(),
    {
        let mut b = self;
        b.request_id = supply_field(value, "request_id");
        b
    }

    /// Sets `session_id` from a value of its type or one that converts to it;
    /// a failed conversion is kept as the reason `session_id` has no value.
    pub fn session_id<V: Supply<super::Null>>(self, value: V) -> (r: Self)
        ensures
            supplied_as(value, r.spec_session_id(), "session_id"@),
            r.spec_device_id() == self.spec_device_id(),
            r.spec_payload() == self.spec_payload(),
            r.spec_protocol_version() == self.spec_protocol_version(),
            r.spec_request_id() == self.spec_request_id(),
            r.spec_type_() == self.spec_type_(),
    {
        let mut b = self;
        b.session_id = supply_field(value, "session_id");
        b
    }

    /// Sets `type_` from a value of its type or one that converts to it;
    /// a failed conversion is kept as the reason `type_` has no value.
    pub fn type_<V: Supply<super::TransferAbortMessageType>>(self, value: V) -> (r: Self)
        ensures
            supplied_as(value, r.spec_type_(), "type_"@),
            r.spec_device_id() == self.spec_device_id(),
            r.spec_payload() == self.spec_payload(),
            r.spec_protocol_version() == self.spec_protocol_version(),
            r.spec_request_id() == self.spec_request_id(),
            r.spec_session_id() == self.spec_session_id(),
    {
        let mut b = self;
        b.type_ = supply_field(value, "type_");
        b
    }

    /// A builder holding every field of `value`.
    pub fn from(value: super::TransferAbortMessage) -> (r: Self)
        ensures
            r.spec_device_id() == Ok::<super::Uuid, String>(value.device_id),
            r.spec_payload() == Ok::<super::TransferAbortMessagePayload, String>(value.payload),
            r.spec_protocol_version() == Ok::<super::TransferAbortMessageProtocolVersion, String>(value.protocol_version),
            r.spec_request_id() == Ok::<super::Null, String>(value.request_id),
            r.spec_session_id() == Ok::<super::Null, String>(value.session_id),
            r.spec_type_() == Ok::<super::TransferAbortMessageType, String>(value.type_),
            r.build_outcome() == Ok::<super::TransferAbortMessage, Seq<char>>(value),
    {
        TransferAbortMessage {
            device_id: Ok(value.device_id),
            payload: Ok(value.payload),
            protocol_version: Ok(value.protocol_version),
            request_id: Ok(value.request_id),
            session_id: Ok(value.session_id),
            type_: Ok(value.type_),
        }
    }
}

impl Default for TransferAbortMessage {
    fn default() -> (r: Self)
        ensures
            r.all_unset(),
    {
        TransferAbortMessage {
            device_id: Err("no value supplied for device_id".to_owned()),
            payload: Err("no value supplied for payload".to_owned()),
            protocol_version: Err("no value supplied for protocol_version".to_owned()),
            request_id: Err("no value supplied for request_id".to_owned()),
            session_id: Err("no value supplied for session_id".to_owned()),
            type_: Err("no value supplied for type_".to_owned()),
        }
    }
}

impl super::TransferAbortMessage {
    /// The message a builder holds, or the reason of its first unset field.
    pub fn try_from(value: TransferAbortMessage) -> (r: Result<Self, ConversionError>)
        ensures
            outcome(r) == value.build_outcome(),
    {
        let device_id = match value.device_id {
            Ok(v) => v,
            Err(e) => return Err(ConversionError(e)),
        };
        let payload = match value.payload {
            Ok(v) => v,
            Err(e) => return Err(ConversionError(e)),
        };
        let protocol_version = match value.protocol_version {
            Ok(v) => v,
            Err(e) => return Err(ConversionError(e)),
        };
        let request_id = match value.request_id {
            Ok(v) => v,
            Err(e) => return Err(ConversionError(e)),
        };
        let session_id = match value.session_id {
            Ok(v) => v,
            Err(e) => return Err(ConversionError(e)),
        };
        let type_ = match value.type_ {
            Ok(v) => v,
            Err(e) => return Err(ConversionError(e)),
        };
        Ok(Self { device_id, payload, protocol_version, request_id, session_id, type_ })
    }
}

/// A `TransferAbortMessagePayload` under construction: each field holds its value or why it
/// has none.
#[derive(Debug)]
pub struct TransferAbortMessagePayload {
    code: Result<super::ErrorCode, String>,
    transfer_id: Result<super::Uuid, String>,
}

impl TransferAbortMessagePayload {
    pub closed spec fn spec_code(&self) -> Result<super::ErrorCode, String> {
        self.code
    }

    pub closed spec fn spec_transfer_id(&self) -> Result<super::Uuid, String> {
        self.transfer_id
    }

    /// Every field unset.
    pub open spec fn all_unset(&self) -> bool {
        unset(self.spec_code(), "no value supplied for code"@)
            && unset(self.spec_transfer_id(), "no value supplied for transfer_id"@)
    }

    /// What `try_from` makes of this builder: the reason of the first unset
    /// field in declaration order, or the message.
    pub open spec fn build_outcome(&self) -> Result<super::TransferAbortMessagePayload, Seq<char>> {
        if self.spec_code() is Err {
            Err(self.spec_code()->Err_0@)
        } else if self.spec_transfer_id() is Err {
            Err(self.spec_transfer_id()->Err_0@)
        } else {
            Ok(super::TransferAbortMessagePayload {
                code: self.spec_code()->Ok_0,
                transfer_id: self.spec_transfer_id()->Ok_0,
            })
        }
    }

    /// Sets `code` from a value of its type or one that converts to it;
    /// a failed conversion is kept as the reason `code` has no value.
    pub fn code<V: Supply<super::ErrorCode>>(self, value: V) -> (r: Self)
        ensures
            supplied_as(value, r.spec_code(), "code"@),
            r.spec_transfer_id() == self.spec_transfer_id(),
    {
        let mut b = self;
        b.code = supply_field(value, "code");
        b
    }

    /// Sets `transfer_id` from a value of its type or one that converts to it;
    /// a failed conversion is kept as the reason `transfer_id` has no value.
    pub fn transfer_id<V: Supply<super::Uuid>>(self, value: V) -> (r: Self)
        ensures
            supplied_as(value, r.spec_transfer_id(), "transfer_id"@),
            r.spec_code() == self.spec_code(),
    {
        let mut b = self;
        b.transfer_id = supply_field(value, "transfer_id");
        b
    }

    /// A builder holding every field of `value`.
    pub fn from(value: super::TransferAbortMessagePayload) -> (r: Self)
        ensures
            r.spec_code() == Ok::<super::ErrorCode, String>(value.code),
            r.spec_transfer_id() == Ok::<super::Uuid, String>(value.transfer_id),
            r.build_outcome() == Ok::<super::TransferAbortMessagePayload, Seq<char>>(value),
    {
        TransferAbortMessagePayload {
            code: Ok(value.code),
            transfer_id: Ok(value.transfer_id),
        }
    }
}

impl Default for TransferAbortMessagePayload {
    fn default() -> (r: Self)
        ensures
            r.all_unset(),
    {
        TransferAbortMessagePayload {
            code: Err("no value supplied for code".to_owned()),
            transfer_id: Err("no value supplied for transfer_id".to_owned()),
        }
    }
}

impl super::TransferAbortMessagePayload {
    /// The message a builder holds, or the reason of its first unset field.
    pub fn try_from(value: TransferAbortMessagePayload) -> (r: Result<Self, ConversionError>)
        ensures
            outcome(r) == value.build_outcome(),
    {
        let code = match value.code {
            Ok(v) => v,
            Err(e) => return Err(ConversionError(e)),
        };
        let transfer_id = match value.transfer_id {
            Ok(v) => v,
            Err(e) => return Err(ConversionError(e)),
        };
        Ok(Self { code, transfer_id })
    }
}

/// A `TransferAcceptedMessage` under construction: each field holds its value or why it
/// has none.
#[derive(Debug)]
pub struct TransferAcceptedMessage {
    device_id: Result<super::Uuid, String>,
    payload: Result<super::TransferAcceptedMessagePayload, String>,
    protocol_version: Result<super::TransferAcceptedMessageProtocolVersion, String>,
    request_id: Result<super::Uuid, String>,
    session_id: Result<super::Null, String>,
    type_: Result<super::TransferAcceptedMessageType, String>,
}

impl TransferAcceptedMessage {
    pub closed spec fn spec_device_id(&self) -> Result<super::Uuid, String> {
        self.device_id
    }

    pub closed spec fn spec_payload(&self) -> Result<super::TransferAcceptedMessagePayload, String> {
        self.payload
    }

    pub closed spec fn spec_protocol_version(&self) -> Result<super::TransferAcceptedMessageProtocolVersion, String> {
        self.protocol_version
    }

    pub closed spec fn spec_request_id(&self) -> Result<super::Uuid, String> {
        self.request_id
    }

    pub closed spec fn spec_session_id(&self) -> Result<super::Null, String> {
        self.session_id
    }

    pub closed spec fn spec_type_(&self) -> Result<super::TransferAcceptedMessageType, String> {
        self.type_
    }

    /// Every field unset.
    pub open spec fn all_unset(&self) -> bool {
        unset(self.spec_device_id(), "no value supplied for device_id"@)
            && unset(self.spec_payload(), "no value supplied for payload"@)
            && unset(self.spec_protocol_version(), "no value supplied for protocol_version"@)
            && unset(self.spec_request_id(), "no value supplied for request_id"@)
            && unset(self.spec_session_id(), "no value supplied for session_id"@)
            && unset(self.spec_type_(), "no value supplied for type_"@)
    }

    /// What `try_from` makes of this builder: the reason of the first unset
    /// field in declaration order, or the message.
    pub open spec fn build_outcome(&self) -> Result<super::TransferAcceptedMessage, Seq<char>> {
        if self.spec_device_id() is Err {
            Err(self.spec_device_id()->Err_0@)
        } else if self.spec_payload() is Err {
            Err(self.spec_payload()->Err_0@)
        } else if self.spec_protocol_version() is Err {
            Err(self.spec_protocol_version()->Err_0@)
        } else if self.spec_request_id() is Err {
            Err(self.spec_request_id()->Err_0@)
        } else if self.spec_session_id() is Err {
            Err(self.spec_session_id()->Err_0@)
        } else if self.spec_type_() is Err {
            Err(self.spec_type_()->Err_0@)
        } else {
            Ok(super::TransferAcceptedMessage {
                device_id: self.spec_device_id()->Ok_0,
                payload: self.spec_payload()->Ok_0,
                protocol_version: self.spec_protocol_version()->Ok_0,
                request_id: self.spec_request_id()->Ok_0,
                session_id: self.spec_session_id()->Ok_0,
                type_: self.spec_type_()->Ok_0,
            })
        }
    }

    /// Sets `device_id` from a value of its type or one that converts to it;
    /// a failed conversion is kept as the reason `device_id` has no value.
    pub fn device_id<V: Supply<super::Uuid>>(self, value: V) -> (r: Self)
        ensures
            supplied_as(value, r.spec_device_id(), "device_id"@),
            r.spec_payload() == self.spec_payload(),
            r.spec_protocol_version() == self.spec_protocol_version(),
            r.spec_request_id() == self.spec_request_id(),
            r.spec_session_id() == self.spec_session_id(),
            r.spec_type_() == self.spec_type_(),
    {
        let mut b = self;
        b.device_id = supply_field(value, "device_id");
        b
    }

    /// Sets `payload` from a value of its type or one that converts to it;
    /// a failed conversion is kept as the reason `payload` has no value.
    pub fn payload<V: Supply<super::TransferAcceptedMessagePayload>>(self, value: V) -> (r: Self)
        ensures
            supplied_as(value, r.spec_payload(), "payload"@),
            r.spec_device_id() == self.spec_device_id(),
            r.spec_protocol_version() == self.spec_protocol_version(),
            r.spec_request_id() == self.spec_request_id(),
            r.spec_session_id() == self.spec_session_id(),
            r.spec_type_() == self.spec_type_(),
    {
        let mut b = self;
        b.payload = supply_field(value, "payload");
        b
    }

    /// Sets `protocol_version` from a value of its type or one that converts to it;
    /// a failed conversion is kept as the reason `protocol_version` has no value.
    pub fn protocol_version<V: Supply<super::TransferAcceptedMessageProtocolVersion>>(self, value: V) -> (r: Self)
        ensures
            supplied_as(value, r.spec_protocol_version(), "protocol_version"@),
            r.spec_device_id() == self.spec_device_id(),
            r.spec_payload() == self.spec_payload(),
            r.spec_request_id() == self.spec_request_id(),
            r.spec_session_id() == self.spec_session_id(),
            r.spec_type_() == self.spec_type_(),
    {
        let mut b = self;
        b.protocol_version = supply_field(value, "protocol_version");
        b
    }

    /// Sets `request_id` from a value of its type or one that converts to it;
    /// a failed conversion is kept as the reason `request_id` has no value.
    pub fn request_id<V: Supply<super::Uuid>>(self, value: V) -> (r: Self)
        ensures
            supplied_as(value, r.spec_request_id(), "request_id"@),
            r.spec_device_id() == self.spec_device_id(),
            r.spec_payload() == self.spec_payload(),
            r.spec_protocol_version() == self.spec_protocol_version(),
            r.spec_session_id() == self.spec_session_id(),
            r.spec_type_() == self.spec_type_(),
    {
        let mut b = self;
        b.request_id = supply_field(value, "request_id");
        b
    }

    /// Sets `session_id` from a value of its type or one that converts to it;
    /// a failed conversion is kept as the reason `session_id` has no value.
    pub fn session_id<V: Supply<super::Null>>(self, value: V) -> (r: Self)
        ensures
            supplied_as(value, r.spec_session_id(), "session_id"@),
            r.spec_device_id() == self.spec_device_id(),
            r.spec_payload() == self.spec_payload(),
            r.spec_protocol_version() == self.spec_protocol_version(),
            r.spec_request_id() == self.spec_request_id(),
            r.spec_type_() == self.spec_type_(),
    {
        let mut b = self;
        b.session_id = supply_field(value, "session_id");
        b
    }

    /// Sets `type_` from a value of its type or one that converts to it;
    /// a failed conversion is kept as the reason `type_` has no value.
    pub fn type_<V: Supply<super::TransferAcceptedMessageType>>(self, value: V) -> (r: Self)
        ensures
            supplied_as(value, r.spec_type_(), "type_"@),
            r.spec_device_id() == self.spec_device_id(),
            r.spec_payload() == self.spec_payload(),
            r.spec_protocol_version() == self.spec_protocol_version(),
            r.spec_request_id() == self.spec_request_id(),
            r.spec_session_id() == self.spec_session_id(),
    {
        let mut b = self;
        b.type_ = supply_field(value, "type_");
        b
    }

    /// A builder holding every field of `value`.
    pub fn from(value: super::TransferAcceptedMessage) -> (r: Self)
        ensures
            r.spec_device_id() == Ok::<super::Uuid, String>(value.device_id),
            r.spec_payload() == Ok::<super::TransferAcceptedMessagePayload, String>(value.payload),
            r.spec_protocol_version() == Ok::<super::TransferAcceptedMessageProtocolVersion, String>(value.protocol_version),
            r.spec_request_id() == Ok::<super::Uuid, String>(value.request_id),
            r.spec_session_id() == Ok::<super::Null, String>(value.session_id),
            r.spec_type_() == Ok::<super::TransferAcceptedMessageType, String>(value.type_),
            r.build_outcome() == Ok::<super::TransferAcceptedMessage, Seq<char>>(value),
    {
        TransferAcceptedMessage {
            device_id: Ok(value.device_id),
            payload: Ok(value.payload),
            protocol_version: Ok(value.protocol_version),
            request_id: Ok(value.request_id),
            session_id: Ok(value.session_id),
            type_: Ok(value.type_),
        }
    }
}

impl Default for TransferAcceptedMessage {
    fn default() -> (r: Self)
        ensures
            r.all_unset(),
    {
        TransferAcceptedMessage {
            device_id: Err("no value supplied for device_id".to_owned()),
            payload: Err("no value supplied for payload".to_owned()),
            protocol_version: Err("no value supplied for protocol_version".to_owned()),
            request_id: Err("no value supplied for request_id".to_owned()),
            session_id: Err("no value supplied for session_id".to_owned()),
            type_: Err("no value supplied for type_".to_owned()),
        }
    }
}

impl super::TransferAcceptedMessage {
    /// The message a builder holds, or the reason of its first unset field.
    pub fn try_from(value: TransferAcceptedMessage) -> (r: Result<Self, ConversionError>)
        ensures
            outcome(r) == value.build_outcome(),
    {
        let device_id = match value.device_id {
            Ok(v) => v,
            Err(e) => return Err(ConversionError(e)),
        };
        let payload = match value.payload {
            Ok(v) => v,
            Err(e) => return Err(ConversionError(e)),
        };
        let protocol_version = match value.protocol_version {
            Ok(v) => v,
            Err(e) => return Err(ConversionError(e)),
        };
        let request_id = match value.request_id {
            Ok(v) => v,
            Err(e) => return Err(ConversionError(e)),
        };
        let session_id = match value.session_id {
            Ok(v) => v,
            Err(e) => return Err(ConversionError(e)),
        };
        let type_ = match value.type_ {
            Ok(v) => v,
            Err(e) => return Err(ConversionError(e)),
        };
        Ok(Self { device_id, payload, protocol_version, request_id, session_id, type_ })
    }
}

/// A `TransferAcceptedMessagePayload` under construction: each field holds its value or why it
/// has none.
#[derive(Debug)]
pub struct TransferAcceptedMessagePayload {
    granted_bytes: Result<i64, String>,
    transfer_id: Result<super::Uuid, String>,
}

impl TransferAcceptedMessagePayload {
    pub closed spec fn spec_granted_bytes(&self) -> Result<i64, String> {
        self.granted_bytes
    }

    pub closed spec fn spec_transfer_id(&self) -> Result<super::Uuid, String> {
        self.transfer_id
    }

    /// Every field unset.
    pub open spec fn all_unset(&self) -> bool {
        unset(self.spec_granted_bytes(), "no value supplied for granted_bytes"@)
            && unset(self.spec_transfer_id(), "no value supplied for transfer_id"@)
    }

    /// What `try_from` makes of this builder: the reason of the first unset
    /// field in declaration order, or the message.
    pub open spec fn build_outcome(&self) -> Result<super::TransferAcceptedMessagePayload, Seq<char>> {
        if self.spec_granted_bytes() is Err {
            Err(self.spec_granted_bytes()->Err_0@)
        } else if self.spec_transfer_id() is Err {
            Err(self.spec_transfer_id()->Err_0@)
        } else {
            Ok(super::TransferAcceptedMessagePayload {
                granted_bytes: self.spec_granted_bytes()->Ok_0,
                transfer_id: self.spec_transfer_id()->Ok_0,
            })
        }
    }

    /// Sets `granted_bytes` from a value of its type or one that converts to it;
    /// a failed conversion is kept as the reason `granted_bytes` has no value.
    pub fn granted_bytes<V: Supply<i64>>(self, value: V) -> (r: Self)
        ensures
            supplied_as(value, r.spec_granted_bytes(), "granted_bytes"@),
            r.spec_transfer_id() == self.spec_transfer_id(),
    {
        let mut b = self;
        b.granted_bytes = supply_field(value, "granted_bytes");
        b
    }

    /// Sets `transfer_id` from a value of its type or one that converts to it;
    /// a failed conversion is kept as the reason `transfer_id` has no value.
    pub fn transfer_id<V: Supply<super::Uuid>>(self, value: V) -> (r: Self)
        ensures
            supplied_as(value, r.spec_transfer_id(), "transfer_id"@),
            r.spec_granted_bytes() == self.spec_granted_bytes(),
    {
        let mut b = self;
        b.transfer_id = supply_field(value, "transfer_id");
        b
    }

    /// A builder holding every field of `value`.
    pub fn from(value: super::TransferAcceptedMessagePayload) -> (r: Self)
        ensures
            r.spec_granted_bytes() == Ok::<i64, String>(value.granted_bytes),
            r.spec_transfer_id() == Ok::<super::Uuid, String>(value.transfer_id),
            r.build_outcome() == Ok::<super::TransferAcceptedMessagePayload, Seq<char>>(value),
    {
        TransferAcceptedMessagePayload {
            granted_bytes: Ok(value.granted_bytes),
            transfer_id: Ok(value.transfer_id),
        }
    }
}

impl Default for TransferAcceptedMessagePayload {
    fn default() -> (r: Self)
        ensures
            r.all_unset(),
    {
        TransferAcceptedMessagePayload {
            granted_bytes: Err("no value supplied for granted_bytes".to_owned()),
            transfer_id: Err("no value supplied for transfer_id".to_owned()),
        }
    }
}

impl super::TransferAcceptedMessagePayload {
    /// The message a builder holds, or the reason of its first unset field.
    pub fn try_from(value: TransferAcceptedMessagePayload) -> (r: Result<Self, ConversionError>)
        ensures
            outcome(r) == value.build_outcome(),
    {
        let granted_bytes = match value.granted_bytes {
            Ok(v) => v,
            Err(e) => return Err(ConversionError(e)),
        };
        let transfer_id = match value.transfer_id {
            Ok(v) => v,
            Err(e) => return Err(ConversionError(e)),
        };
        Ok(Self { granted_bytes, transfer_id })
    }
}

/// A `TransferCompleteMessage` under construction: each field holds its value or why it
/// has none.
#[derive(Debug)]
pub struct TransferCompleteMessage {
    device_id: Result<super::Uuid, String>,
    payload: Result<super::TransferCompleteMessagePayload, String>,
    protocol_version: Result<super::TransferCompleteMessageProtocolVersion, String>,
    request_id: Result<super::Null, String>,
    session_id: Result<super::Null, String>,
    type_: Result<super::TransferCompleteMessageType, String>,
}

impl TransferCompleteMessage {
    pub closed spec fn spec_device_id(&self) -> Result<super::Uuid, String> {
        self.device_id
    }

    pub closed spec fn spec_payload(&self) -> Result<super::TransferCompleteMessagePayload, String> {
        self.payload
    }

    pub closed spec fn spec_protocol_version(&self) -> Result<super::TransferCompleteMessageProtocolVersion, String> {
        self.protocol_version
    }

    pub closed spec fn spec_request_id(&self) -> Result<super::Null, String> {
        self.request_id
    }

    pub closed spec fn spec_session_id(&self) -> Result<super::Null, String> {
        self.session_id
    }

    pub closed spec fn spec_type_(&self) -> Result<super::TransferCompleteMessageType, String> {
        self.type_
    }

    /// Every field unset.
    pub open spec fn all_unset(&self) -> bool {
        unset(self.spec_device_id(), "no value supplied for device_id"@)
            && unset(self.spec_payload(), "no value supplied for payload"@)
            && unset(self.spec_protocol_version(), "no value supplied for protocol_version"@)
            && unset(self.spec_request_id(), "no value supplied for request_id"@)
            && unset(self.spec_session_id(), "no value supplied for session_id"@)
            && unset(self.spec_type_(), "no value supplied for type_"@)
    }

    /// What `try_from` makes of this builder: the reason of the first unset
    /// field in declaration order, or the message.
    pub open spec fn build_outcome(&self) -> Result<super::TransferCompleteMessage, Seq<char>> {
        if self.spec_device_id() is Err {
            Err(self.spec_device_id()->Err_0@)
        } else if self.spec_payload() is Err {
            Err(self.spec_payload()->Err_0@)
        } else if self.spec_protocol_version() is Err {
            Err(self.spec_protocol_version()->Err_0@)
        } else if self.spec_request_id() is Err {
            Err(self.spec_request_id()->Err_0@)
        } else if self.spec_session_id() is Err {
            Err(self.spec_session_id()->Err_0@)
        } else if self.spec_type_() is Err {
            Err(self.spec_type_()->Err_0@)
        } else {
            Ok(super::TransferCompleteMessage {
                device_id: self.spec_device_id()->Ok_0,
                payload: self.spec_payload()->Ok_0,
                protocol_version: self.spec_protocol_version()->Ok_0,
                request_id: self.spec_request_id()->Ok_0,
                session_id: self.spec_session_id()->Ok_0,
                type_: self.spec_type_()->Ok_0,
            })
        }
    }

    /// Sets `device_id` from a value of its type or one that converts to it;
    /// a failed conversion is kept as the reason `device_id` has no value.
    pub fn device_id<V: Supply<super::Uuid>>(self, value: V) -> (r: Self)
        ensures
            supplied_as(value, r.spec_device_id(), "device_id"@),
            r.spec_payload() == self.spec_payload(),
            r.spec_protocol_version() == self.spec_protocol_version(),
            r.spec_request_id() == self.spec_request_id(),
            r.spec_session_id() == self.spec_session_id(),
            r.spec_type_() == self.spec_type_(),
    {
        let mut b = self;
        b.device_id = supply_field(value, "device_id");
        b
    }

    /// Sets `payload` from a value of its type or one that converts to it;
    /// a failed conversion is kept as the reason `payload` has no value.
    pub fn payload<V: Supply<super::TransferCompleteMessagePayload>>(self, value: V) -> (r: Self)
        ensures
            supplied_as(value, r.spec_payload(), "payload"@),
            r.spec_device_id() == self.spec_device_id(),
            r.spec_protocol_version() == self.spec_protocol_version(),
            r.spec_request_id() == self.spec_request_id(),
            r.spec_session_id() == self.spec_session_id(),
            r.spec_type_() == self.spec_type_(),
    {
        let mut b = self;
        b.payload = supply_field(value, "payload");
        b
    }

    /// Sets `protocol_version` from a value of its type or one that converts to it;
    /// a failed conversion is kept as the reason `protocol_version` has no value.
    pub fn protocol_version<V: Supply<super::TransferCompleteMessageProtocolVersion>>(self, value: V) -> (r: Self)
        ensures
            supplied_as(value, r.spec_protocol_version(), "protocol_version"@),
            r.spec_device_id() == self.spec_device_id(),
            r.spec_payload() == self.spec_payload(),
            r.spec_request_id() == self.spec_request_id(),
            r.spec_session_id() == self.spec_session_id(),
            r.spec_type_() == self.spec_type_(),
    {
        let mut b = self;
        b.protocol_version = supply_field(value, "protocol_version");
        b
    }

    /// Sets `request_id` from a value of its type or one that converts to it;
    /// a failed conversion is kept as the reason `request_id` has no value.
    pub fn request_id<V: Supply<super::Null>>(self, value: V) -> (r: Self)
        ensures
            supplied_as(value, r.spec_request_id(), "request_id"@),
            r.spec_device_id() == self.spec_device_id(),
            r.spec_payload() == self.spec_payload(),
            r.spec_protocol_version() == self.spec_protocol_version(),
            r.spec_session_id() == self.spec_session_id(),
            r.spec_type_() == self.spec_type_(),
    {
        let mut b = self;
        b.request_id = supply_field(value, "request_id");
        b
    }

    /// Sets `session_id` from a value of its type or one that converts to it;
    /// a failed conversion is kept as the reason `session_id` has no value.
    pub fn session_id<V: Supply<super::Null>>(self, value: V) -> (r: Self)
        ensures
            supplied_as(value, r.spec_session_id(), "session_id"@),
            r.spec_device_id() == self.spec_device_id(),
            r.spec_payload() == self.spec_payload(),
            r.spec_protocol_version() == self.spec_protocol_version(),
            r.spec_request_id() == self.spec_request_id(),
            r.spec_type_() == self.spec_type_(),
    {
        let mut b = self;
        b.session_id = supply_field(value, "session_id");
        b
    }

    /// Sets `type_` from a value of its type or one that converts to it;
    /// a failed conversion is kept as the reason `type_` has no value.
    pub fn type_<V: Supply<super::TransferCompleteMessageType>>(self, value: V) -> (r: Self)
        ensures
            supplied_as(value, r.spec_type_(), "type_"@),
            r.spec_device_id() == self.spec_device_id(),
            r.spec_payload() == self.spec_payload(),
            r.spec_protocol_version() == self.spec_protocol_version(),
            r.spec_request_id() == self.spec_request_id(),
            r.spec_session_id() == self.spec_session_id(),
    {
        let mut b = self;
        b.type_ = supply_field(value, "type_");
        b
    }

    /// A builder holding every field of `value`.
    pub fn from(value: super::TransferCompleteMessage) -> (r: Self)
        ensures
            r.spec_device_id() == Ok::<super::Uuid, String>(value.device_id),
            r.spec_payload() == Ok::<super::TransferCompleteMessagePayload, String>(value.payload),
            r.spec_protocol_version() == Ok::<super::TransferCompleteMessageProtocolVersion, String>(value.protocol_version),
            r.spec_request_id() == Ok::<super::Null, String>(value.request_id),
            r.spec_session_id() == Ok::<super::Null, String>(value.session_id),
            r.spec_type_() == Ok::<super::TransferCompleteMessageType, String>(value.type_),
            r.build_outcome() == Ok::<super::TransferCompleteMessage, Seq<char>>(value),
    {
        TransferCompleteMessage {
            device_id: Ok(value.device_id),
            payload: Ok(value.payload),
            protocol_version: Ok(value.protocol_version),
            request_id: Ok(value.request_id),
            session_id: Ok(value.session_id),
            type_: Ok(value.type_),
        }
    }
}

impl Default for TransferCompleteMessage {
    fn default() -> (r: Self)
        ensures
            r.all_unset(),
    {
        TransferCompleteMessage {
            device_id: Err("no value supplied for device_id".to_owned()),
            payload: Err("no value supplied for payload".to_owned()),
            protocol_version: Err("no value supplied for protocol_version".to_owned()),
            request_id: Err("no value supplied for request_id".to_owned()),
            session_id: Err("no value supplied for session_id".to_owned()),
            type_: Err("no value supplied for type_".to_owned()),
        }
    }
}

impl super::TransferCompleteMessage {
    /// The message a builder holds, or the reason of its first unset field.
    pub fn try_from(value: TransferCompleteMessage) -> (r: Result<Self, ConversionError>)
        ensures
            outcome(r) == value.build_outcome(),
    {
        let device_id = match value.device_id {
            Ok(v) => v,
            Err(e) => return Err(ConversionError(e)),
        };
        let payload = match value.payload {
            Ok(v) => v,
            Err(e) => return Err(ConversionError(e)),
        };
        let protocol_version = match value.protocol_version {
            Ok(v) => v,
            Err(e) => return Err(ConversionError(e)),
        };
        let request_id = match value.request_id {
            Ok(v) => v,
            Err(e) => return Err(ConversionError(e)),
        };
        let session_id = match value.session_id {
            Ok(v) => v,
            Err(e) => return Err(ConversionError(e)),
        };
        let type_ = match value.type_ {
            Ok(v) => v,
            Err(e) => return Err(ConversionError(e)),
        };
        Ok(Self { device_id, payload, protocol_version, request_id, session_id, type_ })
    }
}

/// A `TransferCompleteMessagePayload` under construction: each field holds its value or why it
/// has none.
#[derive(Debug)]
pub struct TransferCompleteMessagePayload {
    transfer_id: Result<super::Uuid, String>,
}

impl TransferCompleteMessagePayload {
    pub closed spec fn spec_transfer_id(&self) -> Result<super::Uuid, String> {
        self.transfer_id
    }

    /// Every field unset.
    pub open spec fn all_unset(&self) -> bool {
        unset(self.spec_transfer_id(), "no value supplied for transfer_id"@)
    }

    /// What `try_from` makes of this builder: the reason of the first unset
    /// field in declaration order, or the message.
    pub open spec fn build_outcome(&self) -> Result<super::TransferCompleteMessagePayload, Seq<char>> {
        if self.spec_transfer_id() is Err {
            Err(self.spec_transfer_id()->Err_0@)
        } else {
            Ok(super::TransferCompleteMessagePayload {
                transfer_id: self.spec_transfer_id()->Ok_0,
            })
        }
    }

    /// Sets `transfer_id` from a value of its type or one that converts to it;
    /// a failed conversion is kept as the reason `transfer_id` has no value.
    pub fn transfer_id<V: Supply<super::Uuid>>(self, value: V) -> (r: Self)
        ensures
            supplied_as(value, r.spec_transfer_id(), "transfer_id"@),
    {
        let mut b = self;
        b.transfer_id = supply_field(value, "transfer_id");
        b
    }

    /// A builder holding every field of `value`.
    pub fn from(value: super::TransferCompleteMessagePayload) -> (r: Self)
        ensures
            r.spec_transfer_id() == Ok::<super::Uuid, String>(value.transfer_id),
            r.build_outcome() == Ok::<super::TransferCompleteMessagePayload, Seq<char>>(value),
    {
        TransferCompleteMessagePayload {
            transfer_id: Ok(value.transfer_id),
        }
    }
}

impl Default for TransferCompleteMessagePayload {
    fn default() -> (r: Self)
        ensures
            r.all_unset(),
    {
        TransferCompleteMessagePayload {
            transfer_id: Err("no value supplied for transfer_id".to_owned()),
        }
    }
}

impl super::TransferCompleteMessagePayload {
    /// The message a builder holds, or the reason of its first unset field.
    pub fn try_from(value: TransferCompleteMessagePayload) -> (r: Result<Self, ConversionError>)
        ensures
            outcome(r) == value.build_outcome(),
    {
        let transfer_id = match value.transfer_id {
            Ok(v) => v,
            Err(e) => return Err(ConversionError(e)),
        };
        Ok(Self { transfer_id })
    }
}

/// A `TransferCreditMessage` under construction: each field holds its value or why it
/// has none.
#[derive(Debug)]
pub struct TransferCreditMessage {
    device_id: Result<super::Uuid, String>,
    payload: Result<super::TransferCreditMessagePayload, String>,
    protocol_version: Result<super::TransferCreditMessageProtocolVersion, String>,
    request_id: Result<super::Null, String>,
    session_id: Result<super::Null, String>,
    type_: Result<super::TransferCreditMessageType, String>,
}

impl TransferCreditMessage {
    pub closed spec fn spec_device_id(&self) -> Result<super::Uuid, String> {
        self.device_id
    }

    pub closed spec fn spec_payload(&self) -> Result<super::TransferCreditMessagePayload, String> {
        self.payload
    }

    pub closed spec fn spec_protocol_version(&self) -> Result<super::TransferCreditMessageProtocolVersion, String> {
        self.protocol_version
    }

    pub closed spec fn spec_request_id(&self) -> Result<super::Null, String> {
        self.request_id
    }

    pub closed spec fn spec_session_id(&self) -> Result<super::Null, String> {
        self.session_id
    }

    pub closed spec fn spec_type_(&self) -> Result<super::TransferCreditMessageType, String> {
        self.type_
    }

    /// Every field unset.
    pub open spec fn all_unset(&self) -> bool {
        unset(self.spec_device_id(), "no value supplied for device_id"@)
            && unset(self.spec_payload(), "no value supplied for payload"@)
            && unset(self.spec_protocol_version(), "no value supplied for protocol_version"@)
            && unset(self.spec_request_id(), "no value supplied for request_id"@)
            && unset(self.spec_session_id(), "no value supplied for session_id"@)
            && unset(self.spec_type_(), "no value supplied for type_"@)
    }

    /// What `try_from` makes of this builder: the reason of the first unset
    /// field in declaration order, or the message.
    pub open spec fn build_outcome(&self) -> Result<super::TransferCreditMessage, Seq<char>> {
        if self.spec_device_id() is Err {
            Err(self.spec_device_id()->Err_0@)
        } else if self.spec_payload() is Err {
            Err(self.spec_payload()->Err_0@)
        } else if self.spec_protocol_version() is Err {
            Err(self.spec_protocol_version()->Err_0@)
        } else if self.spec_request_id() is Err {
            Err(self.spec_request_id()->Err_0@)
        } else if self.spec_session_id() is Err {
            Err(self.spec_session_id()->Err_0@)
        } else if self.spec_type_() is Err {
            Err(self.spec_type_()->Err_0@)
        } else {
            Ok(super::TransferCreditMessage {
                device_id: self.spec_device_id()->Ok_0,
                payload: self.spec_payload()->Ok_0,
                protocol_version: self.spec_protocol_version()->Ok_0,
                request_id: self.spec_request_id()->Ok_0,
                session_id: self.spec_session_id()->Ok_0,
                type_: self.spec_type_()->Ok_0,
            })
        }
    }

    /// Sets `device_id` from a value of its type or one that converts to it;
    /// a failed conversion is kept as the reason `device_id` has no value.
    pub fn device_id<V: Supply<super::Uuid>>(self, value: V) -> (r: Self)
        ensures
            supplied_as(value, r.spec_device_id(), "device_id"@),
            r.spec_payload() == self.spec_payload(),
            r.spec_protocol_version() == self.spec_protocol_version(),
            r.spec_request_id() == self.spec_request_id(),
            r.spec_session_id() == self.spec_session_id(),
            r.spec_type_() == self.spec_type_(),
    {
        let mut b = self;
        b.device_id = supply_field(value, "device_id");
        b
    }

    /// Sets `payload` from a value of its type or one that converts to it;
    /// a failed conversion is kept as the reason `payload` has no value.
    pub fn payload<V: Supply<super::TransferCreditMessagePayload>>(self, value: V) -> (r: Self)
        ensures
            supplied_as(value, r.spec_payload(), "payload"@),
            r.spec_device_id() == self.spec_device_id(),
            r.spec_protocol_version() == self.spec_protocol_version(),
            r.spec_request_id() == self.spec_request_id(),
            r.spec_session_id() == self.spec_session_id(),
            r.spec_type_() == self.spec_type_(),
    {
        let mut b = self;
        b.payload = supply_field(value, "payload");
        b
    }

    /// Sets `protocol_version` from a value of its type or one that converts to it;
    /// a failed conversion is kept as the reason `protocol_version` has no value.
    pub fn protocol_version<V: Supply<super::TransferCreditMessageProtocolVersion>>(self, value: V) -> (r: Self)
        ensures
            supplied_as(value, r.spec_protocol_version(), "protocol_version"@),
            r.spec_device_id() == self.spec_device_id(),
            r.spec_payload() == self.spec_payload(),
            r.spec_request_id() == self.spec_request_id(),
            r.spec_session_id() == self.spec_session_id(),
            r.spec_type_() == self.spec_type_(),
    {
        let mut b = self;
        b.protocol_version = supply_field(value, "protocol_version");
        b
    }

    /// Sets `request_id` from a value of its type or one that converts to it;
    /// a failed conversion is kept as the reason `request_id` has no value.
    pub fn request_id<V: Supply<super::Null>>(self, value: V) -> (r: Self)
        ensures
            supplied_as(value, r.spec_request_id(), "request_id"@),
            r.spec_device_id() == self.spec_device_id(),
            r.spec_payload() == self.spec_payload(),
            r.spec_protocol_version() == self.spec_protocol_version(),
            r.spec_session_id() == self.spec_session_id(),
            r.spec_type_() == self.spec_type_(),
    {
        let mut b = self;
        b.request_id = supply_field(value, "request_id");
        b
    }

    /// Sets `session_id` from a value of its type or one that converts to it;
    /// a failed conversion is kept as the reason `session_id` has no value.
    pub fn session_id<V: Supply<super::Null>>(self, value: V) -> (r: Self)
        ensures
            supplied_as(value, r.spec_session_id(), "session_id"@),
            r.spec_device_id() == self.spec_device_id(),
            r.spec_payload() == self.spec_payload(),
            r.spec_protocol_version() == self.spec_protocol_version(),
            r.spec_request_id() == self.spec_request_id(),
            r.spec_type_() == self.spec_type_(),
    {
        let mut b = self;
        b.session_id = supply_field(value, "session_id");
        b
    }

    /// Sets `type_` from a value of its type or one that converts to it;
    /// a failed conversion is kept as the reason `type_` has no value.
    pub fn type_<V: Supply<super::TransferCreditMessageType>>(self, value: V) -> (r: Self)
        ensures
            supplied_as(value, r.spec_type_(), "type_"@),
            r.spec_device_id() == self.spec_device_id(),
            r.spec_payload() == self.spec_payload(),
            r.spec_protocol_version() == self.spec_protocol_version(),
            r.spec_request_id() == self.spec_request_id(),
            r.spec_session_id() == self.spec_session_id(),
    {
        let mut b = self;
        b.type_ = supply_field(value, "type_");
        b
    }

    /// A builder holding every field of `value`.
    pub fn from(value: super::TransferCreditMessage) -> (r: Self)
        ensures
            r.spec_device_id() == Ok::<super::Uuid, String>(value.device_id),
            r.spec_payload() == Ok::<super::TransferCreditMessagePayload, String>(value.payload),
            r.spec_protocol_version() == Ok::<super::TransferCreditMessageProtocolVersion, String>(value.protocol_version),
            r.spec_request_id() == Ok::<super::Null, String>(value.request_id),
            r.spec_session_id() == Ok::<super::Null, String>(value.session_id),
            r.spec_type_() == Ok::<super::TransferCreditMessageType, String>(value.type_),
            r.build_outcome() == Ok::<super::TransferCreditMessage, Seq<char>>(value),
    {
        TransferCreditMessage {
            device_id: Ok(value.device_id),
            payload: Ok(value.payload),
            protocol_version: Ok(value.protocol_version),
            request_id: Ok(value.request_id),
            session_id: Ok(value.session_id),
            type_: Ok(value.type_),
        }
    }
}

impl Default for TransferCreditMessage {
    fn default() -> (r: Self)
        ensures
            r.all_unset(),
    {
        TransferCreditMessage {
            device_id: Err("no value supplied for device_id".to_owned()),
            payload: Err("no value supplied for payload".to_owned()),
            protocol_version: Err("no value supplied for protocol_version".to_owned()),
            request_id: Err("no value supplied for request_id".to_owned()),
            session_id: Err("no value supplied for session_id".to_owned()),
            type_: Err("no value supplied for type_".to_owned()),
        }
    }
}

impl super::TransferCreditMessage {
    /// The message a builder holds, or the reason of its first unset field.
    pub fn try_from(value: TransferCreditMessage) -> (r: Result<Self, ConversionError>)
        ensures
            outcome(r) == value.build_outcome(),
    {
        let device_id = match value.device_id {
            Ok(v) => v,
            Err(e) => return Err(ConversionError(e)),
        };
        let payload = match value.payload {
            Ok(v) => v,
            Err(e) => return Err(ConversionError(e)),
        };
        let protocol_version = match value.protocol_version {
            Ok(v) => v,
            Err(e) => return Err(ConversionError(e)),
        };
        let request_id = match value.request_id {
            Ok(v) => v,
            Err(e) => return Err(ConversionError(e)),
        };
        let session_id = match value.session_id {
            Ok(v) => v,
            Err(e) => return Err(ConversionError(e)),
        };
        let type_ = match value.type_ {
            Ok(v) => v,
            Err(e) => return Err(ConversionError(e)),
        };
        Ok(Self { device_id, payload, protocol_version, request_id, session_id, type_ })
    }
}

/// A `TransferCreditMessagePayload` under construction: each field holds its value or why it
/// has none.
#[derive(Debug)]
pub struct TransferCreditMessagePayload {
    granted_bytes: Result<i64, String>,
    transfer_id: Result<super::Uuid, String>,
}

impl TransferCreditMessagePayload {
    pub closed spec fn spec_granted_bytes(&self) -> Result<i64, String> {
        self.granted_bytes
    }

    pub closed spec fn spec_transfer_id(&self) -> Result<super::Uuid, String> {
        self.transfer_id
    }

    /// Every field unset.
    pub open spec fn all_unset(&self) -> bool {
        unset(self.spec_granted_bytes(), "no value supplied for granted_bytes"@)
            && unset(self.spec_transfer_id(), "no value supplied for transfer_id"@)
    }

    /// What `try_from` makes of this builder: the reason of the first unset
    /// field in declaration order, or the message.
    pub open spec fn build_outcome(&self) -> Result<super::TransferCreditMessagePayload, Seq<char>> {
        if self.spec_granted_bytes() is Err {
            Err(self.spec_granted_bytes()->Err_0@)
        } else if self.spec_transfer_id() is Err {
            Err(self.spec_transfer_id()->Err_0@)
        } else {
            Ok(super::TransferCreditMessagePayload {
                granted_bytes: self.spec_granted_bytes()->Ok_0,
                transfer_id: self.spec_transfer_id()->Ok_0,
            })
        }
    }

    /// Sets `granted_bytes` from a value of its type or one that converts to it;
    /// a failed conversion is kept as the reason `granted_bytes` has no value.
    pub fn granted_bytes<V: Supply<i64>>(self, value: V) -> (r: Self)
        ensures
            supplied_as(value, r.spec_granted_bytes(), "granted_bytes"@),
            r.spec_transfer_id() == self.spec_transfer_id(),
    {
        let mut b = self;
        b.granted_bytes = supply_field(value, "granted_bytes");
        b
    }

    /// Sets `transfer_id` from a value of its type or one that converts to it;
    /// a failed conversion is kept as the reason `transfer_id` has no value.
    pub fn transfer_id<V: Supply<super::Uuid>>(self, value: V) -> (r: Self)
        ensures
            supplied_as(value, r.spec_transfer_id(), "transfer_id"@),
            r.spec_granted_bytes() == self.spec_granted_bytes(),
    {
        let mut b = self;
        b.transfer_id = supply_field(value, "transfer_id");
        b
    }

    /// A builder holding every field of `value`.
    pub fn from(value: super::TransferCreditMessagePayload) -> (r: Self)
        ensures
            r.spec_granted_bytes() == Ok::<i64, String>(value.granted_bytes),
            r.spec_transfer_id() == Ok::<super::Uuid, String>(value.transfer_id),
            r.build_outcome() == Ok::<super::TransferCreditMessagePayload, Seq<char>>(value),
    {
        TransferCreditMessagePayload {
            granted_bytes: Ok(value.granted_bytes),
            transfer_id: Ok(value.transfer_id),
        }
    }
}

impl Default for TransferCreditMessagePayload {
    fn default() -> (r: Self)
        ensures
            r.all_unset(),
    {
        TransferCreditMessagePayload {
            granted_bytes: Err("no value supplied for granted_bytes".to_owned()),
            transfer_id: Err("no value supplied for transfer_id".to_owned()),
        }
    }
}

impl super::TransferCreditMessagePayload {
    /// The message a builder holds, or the reason of its first unset field.
    pub fn try_from(value: TransferCreditMessagePayload) -> (r: Result<Self, ConversionError>)
        ensures
            outcome(r) == value.build_outcome(),
    {
        let granted_bytes = match value.granted_bytes {
            Ok(v) => v,
            Err(e) => return Err(ConversionError(e)),
        };
        let transfer_id = match value.transfer_id {
            Ok(v) => v,
            Err(e) => return Err(ConversionError(e)),
        };
        Ok(Self { granted_bytes, transfer_id })
    }
}

/// A `TransferFileEndMessage` under construction: each field holds its value or why it
/// has none.
#[derive(Debug)]
pub struct TransferFileEndMessage {
    device_id: Result<super::Uuid, String>,
    payload: Result<super::TransferFileEndMessagePayload, String>,
    protocol_version: Result<super::TransferFileEndMessageProtocolVersion, String>,
    request_id: Result<super::Null, String>,
    session_id: Result<super::Null, String>,
    type_: Result<super::TransferFileEndMessageType, String>,
}

impl TransferFileEndMessage {
    pub closed spec fn spec_device_id(&self) -> Result<super::Uuid, String> {
        self.device_id
    }

    pub closed spec fn spec_payload(&self) -> Result<super::TransferFileEndMessagePayload, String> {
        self.payload
    }

    pub closed spec fn spec_protocol_version(&self) -> Result<super::TransferFileEndMessageProtocolVersion, String> {
        self.protocol_version
    }

    pub closed spec fn spec_request_id(&self) -> Result<super::Null, String> {
        self.request_id
    }

    pub closed spec fn spec_session_id(&self) -> Result<super::Null, String> {
        self.session_id
    }

    pub closed spec fn spec_type_(&self) -> Result<super::TransferFileEndMessageType, String> {
        self.type_
    }

    /// Every field unset.
    pub open spec fn all_unset(&self) -> bool {
        unset(self.spec_device_id(), "no value supplied for device_id"@)
            && unset(self.spec_payload(), "no value supplied for payload"@)
            && unset(self.spec_protocol_version(), "no value supplied for protocol_version"@)
            && unset(self.spec_request_id(), "no value supplied for request_id"@)
            && unset(self.spec_session_id(), "no value supplied for session_id"@)
            && unset(self.spec_type_(), "no value supplied for type_"@)
    }

    /// What `try_from` makes of this builder: the reason of the first unset
    /// field in declaration order, or the message.
    pub open spec fn build_outcome(&self) -> Result<super::TransferFileEndMessage, Seq<char>> {
        if self.spec_device_id() is Err {
            Err(self.spec_device_id()->Err_0@)
        } else if self.spec_payload() is Err {
            Err(self.spec_payload()->Err_0@)
        } else if self.spec_protocol_version() is Err {
            Err(self.spec_protocol_version()->Err_0@)
        } else if self.spec_request_id() is Err {
            Err(self.spec_request_id()->Err_0@)
        } else if self.spec_session_id() is Err {
            Err(self.spec_session_id()->Err_0@)
        } else if self.spec_type_() is Err {
            Err(self.spec_type_()->Err_0@)
        } else {
            Ok(super::TransferFileEndMessage {
                device_id: self.spec_device_id()->Ok_0,
                payload: self.spec_payload()->Ok_0,
                protocol_version: self.spec_protocol_version()->Ok_0,
                request_id: self.spec_request_id()->Ok_0,
                session_id: self.spec_session_id()->Ok_0,
                type_: self.spec_type_()->Ok_0,
            })
        }
    }

    /// Sets `device_id` from a value of its type or one that converts to it;
    /// a failed conversion is kept as the reason `device_id` has no value.
    pub fn device_id<V: Supply<super::Uuid>>(self, value: V) -> (r: Self)
        ensures
            supplied_as(value, r.spec_device_id(), "device_id"@),
            r.spec_payload() == self.spec_payload(),
            r.spec_protocol_version() == self.spec_protocol_version(),
            r.spec_request_id() == self.spec_request_id(),
            r.spec_session_id() == self.spec_session_id(),
            r.spec_type_() == self.spec_type_(),
    {
        let mut b = self;
        b.device_id = supply_field(value, "device_id");
        b
    }

    /// Sets `payload` from a value of its type or one that converts to it;
    /// a failed conversion is kept as the reason `payload` has no value.
    pub fn payload<V: Supply<super::TransferFileEndMessagePayload>>(self, value: V) -> (r: Self)
        ensures
            supplied_as(value, r.spec_payload(), "payload"@),
            r.spec_device_id() == self.spec_device_id(),
            r.spec_protocol_version() == self.spec_protocol_version(),
            r.spec_request_id() == self.spec_request_id(),
            r.spec_session_id() == self.spec_session_id(),
            r.spec_type_() == self.spec_type_(),
    {
        let mut b = self;
        b.payload = supply_field(value, "payload");
        b
    }

    /// Sets `protocol_version` from a value of its type or one that converts to it;
    /// a failed conversion is kept as the reason `protocol_version` has no value.
    pub fn protocol_version<V: Supply<super::TransferFileEndMessageProtocolVersion>>(self, value: V) -> (r: Self)
        ensures
            supplied_as(value, r.spec_protocol_version(), "protocol_version"@),
            r.spec_device_id() == self.spec_device_id(),
            r.spec_payload() == self.spec_payload(),
            r.spec_request_id() == self.spec_request_id(),
            r.spec_session_id() == self.spec_session_id(),
            r.spec_type_() == self.spec_type_(),
    {
        let mut b = self;
        b.protocol_version = supply_field(value, "protocol_version");
        b
    }

    /// Sets `request_id` from a value of its type or one that converts to it;
    /// a failed conversion is kept as the reason `request_id` has no value.
    pub fn request_id<V: Supply<super::Null>>(self, value: V) -> (r: Self)
        ensures
            supplied_as(value, r.spec_request_id(), "request_id"@),
            r.spec_device_id() == self.spec_device_id(),
            r.spec_payload() == self.spec_payload(),
            r.spec_protocol_version() == self.spec_protocol_version(),
            r.spec_session_id() == self.spec_session_id(),
            r.spec_type_() == self.spec_type_(),
    {
        let mut b = self;
        b.request_id = supply_field(value, "request_id");
        b
    }

    /// Sets `session_id` from a value of its type or one that converts to it;
    /// a failed conversion is kept as the reason `session_id` has no value.
    pub fn session_id<V: Supply<super::Null>>(self, value: V) -> (r: Self)
        ensures
            supplied_as(value, r.spec_session_id(), "session_id"@),
            r.spec_device_id() == self.spec_device_id(),
            r.spec_payload() == self.spec_payload(),
            r.spec_protocol_version() == self.spec_protocol_version(),
            r.spec_request_id() == self.spec_request_id(),
            r.spec_type_() == self.spec_type_(),
    {
        let mut b = self;
        b.session_id = supply_field(value, "session_id");
        b
    }

    /// Sets `type_` from a value of its type or one that converts to it;
    /// a failed conversion is kept as the reason `type_` has no value.
    pub fn type_<V: Supply<super::TransferFileEndMessageType>>(self, value: V) -> (r: Self)
        ensures
            supplied_as(value, r.spec_type_(), "type_"@),
            r.spec_device_id() == self.spec_device_id(),
            r.spec_payload() == self.spec_payload(),
            r.spec_protocol_version() == self.spec_protocol_version(),
            r.spec_request_id() == self.spec_request_id(),
            r.spec_session_id() == self.spec_session_id(),
    {
        let mut b = self;
        b.type_ = supply_field(value, "type_");
        b
    }

    /// A builder holding every field of `value`.
    pub fn from(value: super::TransferFileEndMessage) -> (r: Self)
        ensures
            r.spec_device_id() == Ok::<super::Uuid, String>(value.device_id),
            r.spec_payload() == Ok::<super::TransferFileEndMessagePayload, String>(value.payload),
            r.spec_protocol_version() == Ok::<super::TransferFileEndMessageProtocolVersion, String>(value.protocol_version),
            r.spec_request_id() == Ok::<super::Null, String>(value.request_id),
            r.spec_session_id() == Ok::<super::Null, String>(value.session_id),
            r.spec_type_() == Ok::<super::TransferFileEndMessageType, String>(value.type_),
            r.build_outcome() == Ok::<super::TransferFileEndMessage, Seq<char>>(value),
    {
        TransferFileEndMessage {
            device_id: Ok(value.device_id),
            payload: Ok(value.payload),
            protocol_version: Ok(value.protocol_version),
            request_id: Ok(value.request_id),
            session_id: Ok(value.session_id),
            type_: Ok(value.type_),
        }
    }
}

impl Default for TransferFileEndMessage {
    fn default() -> (r: Self)
        ensures
            r.all_unset(),
    {
        TransferFileEndMessage {
            device_id: Err("no value supplied for device_id".to_owned()),
            payload: Err("no value supplied for payload".to_owned()),
            protocol_version: Err("no value supplied for protocol_version".to_owned()),
            request_id: Err("no value supplied for request_id".to_owned()),
            session_id: Err("no value supplied for session_id".to_owned()),
            type_: Err("no value supplied for type_".to_owned()),
        }
    }
}

impl super::TransferFileEndMessage {
    /// The message a builder holds, or the reason of its first unset field.
    pub fn try_from(value: TransferFileEndMessage) -> (r: Result<Self, ConversionError>)
        ensures
            outcome(r) == value.build_outcome(),
    {
        let device_id = match value.device_id {
            Ok(v) => v,
            Err(e) => return Err(ConversionError(e)),
        };
        let payload = match value.payload {
            Ok(v) => v,
            Err(e) => return Err(ConversionError(e)),
        };
        let protocol_version = match value.protocol_version {
            Ok(v) => v,
            Err(e) => return Err(ConversionError(e)),
        };
        let request_id = match value.request_id {
            Ok(v) => v,
            Err(e) => return Err(ConversionError(e)),
        };
        let session_id = match value.session_id {
            Ok(v) => v,
            Err(e) => return Err(ConversionError(e)),
        };
        let type_ = match value.type_ {
            Ok(v) => v,
            Err(e) => return Err(ConversionError(e)),
        };
        Ok(Self { device_id, payload, protocol_version, request_id, session_id, type_ })
    }
}

/// A `TransferFileEndMessagePayload` under construction: each field holds its value or why it
/// has none.
#[derive(Debug)]
pub struct TransferFileEndMessagePayload {
    file_index: Result<super::FileIndex, String>,
    sent_size: Result<super::FileSize, String>,
    transfer_id: Result<super::Uuid, String>,
}

impl TransferFileEndMessagePayload {
    pub closed spec fn spec_file_index(&self) -> Result<super::FileIndex, String> {
        self.file_index
    }

    pub closed spec fn spec_sent_size(&self) -> Result<super::FileSize, String> {
        self.sent_size
    }

    pub closed spec fn spec_transfer_id(&self) -> Result<super::Uuid, String> {
        self.transfer_id
    }

    /// Every field unset.
    pub open spec fn all_unset(&self) -> bool {
        unset(self.spec_file_index(), "no value supplied for file_index"@)
            && unset(self.spec_sent_size(), "no value supplied for sent_size"@)
            && unset(self.spec_transfer_id(), "no value supplied for transfer_id"@)
    }

    /// What `try_from` makes of this builder: the reason of the first unset
    /// field in declaration order, or the message.
    pub open spec fn build_outcome(&self) -> Result<super::TransferFileEndMessagePayload, Seq<char>> {
        if self.spec_file_index() is Err {
            Err(self.spec_file_index()->Err_0@)
        } else if self.spec_sent_size() is Err {
            Err(self.spec_sent_size()->Err_0@)
        } else if self.spec_transfer_id() is Err {
            Err(self.spec_transfer_id()->Err_0@)
        } else {
            Ok(super::TransferFileEndMessagePayload {
                file_index: self.spec_file_index()->Ok_0,
                sent_size: self.spec_sent_size()->Ok_0,
                transfer_id: self.spec_transfer_id()->Ok_0,
            })
        }
    }

    /// Sets `file_index` from a value of its type or one that converts to it;
    /// a failed conversion is kept as the reason `file_index` has no value.
    pub fn file_index<V: Supply<super::FileIndex>>(self, value: V) -> (r: Self)
        ensures
            supplied_as(value, r.spec_file_index(), "file_index"@),
            r.spec_sent_size() == self.spec_sent_size(),
            r.spec_transfer_id() == self.spec_transfer_id(),
    {
        let mut b = self;
        b.file_index = supply_field(value, "file_index");
        b
    }

    /// Sets `sent_size` from a value of its type or one that converts to it;
    /// a failed conversion is kept as the reason `sent_size` has no value.
    pub fn sent_size<V: Supply<super::FileSize>>(self, value: V) -> (r: Self)
        ensures
            supplied_as(value, r.spec_sent_size(), "sent_size"@),
            r.spec_file_index() == self.spec_file_index(),
            r.spec_transfer_id() == self.spec_transfer_id(),
    {
        let mut b = self;
        b.sent_size = supply_field(value, "sent_size");
        b
    }

    /// Sets `transfer_id` from a value of its type or one that converts to it;
    /// a failed conversion is kept as the reason `transfer_id` has no value.
    pub fn transfer_id<V: Supply<super::Uuid>>(self, value: V) -> (r: Self)
        ensures
            supplied_as(value, r.spec_transfer_id(), "transfer_id"@),
            r.spec_file_index() == self.spec_file_index(),
            r.spec_sent_size() == self.spec_sent_size(),
    {
        let mut b = self;
        b.transfer_id = supply_field(value, "transfer_id");
        b
    }

    /// A builder holding every field of `value`.
    pub fn from(value: super::TransferFileEndMessagePayload) -> (r: Self)
        ensures
            r.spec_file_index() == Ok::<super::FileIndex, String>(value.file_index),
            r.spec_sent_size() == Ok::<super::FileSize, String>(value.sent_size),
            r.spec_transfer_id() == Ok::<super::Uuid, String>(value.transfer_id),
            r.build_outcome() == Ok::<super::TransferFileEndMessagePayload, Seq<char>>(value),
    {
        TransferFileEndMessagePayload {
            file_index: Ok(value.file_index),
            sent_size: Ok(value.sent_size),
            transfer_id: Ok(value.transfer_id),
        }
    }
}

impl Default for TransferFileEndMessagePayload {
    fn default() -> (r: Self)
        ensures
            r.all_unset(),
    {
        TransferFileEndMessagePayload {
            file_index: Err("no value supplied for file_index".to_owned()),
            sent_size: Err("no value supplied for sent_size".to_owned()),
            transfer_id: Err("no value supplied for transfer_id".to_owned()),
        }
    }
}

impl super::TransferFileEndMessagePayload {
    /// The message a builder holds, or the reason of its first unset field.
    pub fn try_from(value: TransferFileEndMessagePayload) -> (r: Result<Self, ConversionError>)
        ensures
            outcome(r) == value.build_outcome(),
    {
        let file_index = match value.file_index {
            Ok(v) => v,
            Err(e) => return Err(ConversionError(e)),
        };
        let sent_size = match value.sent_size {
            Ok(v) => v,
            Err(e) => return Err(ConversionError(e)),
        };
        let transfer_id = match value.transfer_id {
            Ok(v) => v,
            Err(e) => return Err(ConversionError(e)),
        };
        Ok(Self { file_index, sent_size, transfer_id })
    }
}

/// A `TransferResultMessage` under construction: each field holds its value or why it
/// has none.
#[derive(Debug)]
pub struct TransferResultMessage {
    device_id: Result<super::Uuid, String>,
    payload: Result<super::TransferResultMessagePayload, String>,
    protocol_version: Result<super::TransferResultMessageProtocolVersion, String>,
    request_id: Result<super::Null, String>,
    session_id: Result<super::Null, String>,
    type_: Result<super::TransferResultMessageType, String>,
}

impl TransferResultMessage {
    pub closed spec fn spec_device_id(&self) -> Result<super::Uuid, String> {
        self.device_id
    }

    pub closed spec fn spec_payload(&self) -> Result<super::TransferResultMessagePayload, String> {
        self.payload
    }

    pub closed spec fn spec_protocol_version(&self) -> Result<super::TransferResultMessageProtocolVersion, String> {
        self.protocol_version
    }

    pub closed spec fn spec_request_id(&self) -> Result<super::Null, String> {
        self.request_id
    }

    pub closed spec fn spec_session_id(&self) -> Result<super::Null, String> {
        self.session_id
    }

    pub closed spec fn spec_type_(&self) -> Result<super::TransferResultMessageType, String> {
        self.type_
    }

    /// Every field unset.
    pub open spec fn all_unset(&self) -> bool {
        unset(self.spec_device_id(), "no value supplied for device_id"@)
            && unset(self.spec_payload(), "no value supplied for payload"@)
            && unset(self.spec_protocol_version(), "no value supplied for protocol_version"@)
            && unset(self.spec_request_id(), "no value supplied for request_id"@)
            && unset(self.spec_session_id(), "no value supplied for session_id"@)
            && unset(self.spec_type_(), "no value supplied for type_"@)
    }

    /// What `try_from` makes of this builder: the reason of the first unset
    /// field in declaration order, or the message.
    pub open spec fn build_outcome(&self) -> Result<super::TransferResultMessage, Seq<char>> {
        if self.spec_device_id() is Err {
            Err(self.spec_device_id()->Err_0@)
        } else if self.spec_payload() is Err {
            Err(self.spec_payload()->Err_0@)
        } else if self.spec_protocol_version() is Err {
            Err(self.spec_protocol_version()->Err_0@)
        } else if self.spec_request_id() is Err {
            Err(self.spec_request_id()->Err_0@)
        } else if self.spec_session_id() is Err {
            Err(self.spec_session_id()->Err_0@)
        } else if self.spec_type_() is Err {
            Err(self.spec_type_()->Err_0@)
        } else {
            Ok(super::TransferResultMessage {
                device_id: self.spec_device_id()->Ok_0,
                payload: self.spec_payload()->Ok_0,
                protocol_version: self.spec_protocol_version()->Ok_0,
                request_id: self.spec_request_id()->Ok_0,
                session_id: self.spec_session_id()->Ok_0,
                type_: self.spec_type_()->Ok_0,
            })
        }
    }

    /// Sets `device_id` from a value of its type or one that converts to it;
    /// a failed conversion is kept as the reason `device_id` has no value.
    pub fn device_id<V: Supply<super::Uuid>>(self, value: V) -> (r: Self)
        ensures
            supplied_as(value, r.spec_device_id(), "device_id"@),
            r.spec_payload() == self.spec_payload(),
            r.spec_protocol_version() == self.spec_protocol_version(),
            r.spec_request_id() == self.spec_request_id(),
            r.spec_session_id() == self.spec_session_id(),
            r.spec_type_() == self.spec_type_(),
    {
        let mut b = self;
        b.device_id = supply_field(value, "device_id");
        b
    }

    /// Sets `payload` from a value of its type or one that converts to it;
    /// a failed conversion is kept as the reason `payload` has no value.
    pub fn payload<V: Supply<super::TransferResultMessagePayload>>(self, value: V) -> (r: Self)
        ensures
            supplied_as(value, r.spec_payload(), "payload"@),
            r.spec_device_id() == self.spec_device_id(),
            r.spec_protocol_version() == self.spec_protocol_version(),
            r.spec_request_id() == self.spec_request_id(),
            r.spec_session_id() == self.spec_session_id(),
            r.spec_type_() == self.spec_type_(),
    {
        let mut b = self;
        b.payload = supply_field(value, "payload");
        b
    }

    /// Sets `protocol_version` from a value of its type or one that converts to it;
    /// a failed conversion is kept as the reason `protocol_version` has no value.
    pub fn protocol_version<V: Supply<super::TransferResultMessageProtocolVersion>>(self, value: V) -> (r: Self)
        ensures
            supplied_as(value, r.spec_protocol_version(), "protocol_version"@),
            r.spec_device_id() == self.spec_device_id(),
            r.spec_payload() == self.spec_payload(),
            r.spec_request_id() == self.spec_request_id(),
            r.spec_session_id() == self.spec_session_id(),
            r.spec_type_() == self.spec_type_(),
    {
        let mut b = self;
        b.protocol_version = supply_field(value, "protocol_version");
        b
    }

    /// Sets `request_id` from a value of its type or one that converts to it;
    /// a failed conversion is kept as the reason `request_id` has no value.
    pub fn request_id<V: Supply<super::Null>>(self, value: V) -> (r: Self)
        ensures
            supplied_as(value, r.spec_request_id(), "request_id"@),
            r.spec_device_id() == self.spec_device_id(),
            r.spec_payload() == self.spec_payload(),
            r.spec_protocol_version() == self.spec_protocol_version(),
            r.spec_session_id() == self.spec_session_id(),
            r.spec_type_() == self.spec_type_(),
    {
        let mut b = self;
        b.request_id = supply_field(value, "request_id");
        b
    }

    /// Sets `session_id` from a value of its type or one that converts to it;
    /// a failed conversion is kept as the reason `session_id` has no value.
    pub fn session_id<V: Supply<super::Null>>(self, value: V) -> (r: Self)
        ensures
            supplied_as(value, r.spec_session_id(), "session_id"@),
            r.spec_device_id() == self.spec_device_id(),
            r.spec_payload() == self.spec_payload(),
            r.spec_protocol_version() == self.spec_protocol_version(),
            r.spec_request_id() == self.spec_request_id(),
            r.spec_type_() == self.spec_type_(),
    {
        let mut b = self;
        b.session_id = supply_field(value, "session_id");
        b
    }

    /// Sets `type_` from a value of its type or one that converts to it;
    /// a failed conversion is kept as the reason `type_` has no value.
    pub fn type_<V: Supply<super::TransferResultMessageType>>(self, value: V) -> (r: Self)
        ensures
            supplied_as(value, r.spec_type_(), "type_"@),
            r.spec_device_id() == self.spec_device_id(),
            r.spec_payload() == self.spec_payload(),
            r.spec_protocol_version() == self.spec_protocol_version(),
            r.spec_request_id() == self.spec_request_id(),
            r.spec_session_id() == self.spec_session_id(),
    {
        let mut b = self;
        b.type_ = supply_field(value, "type_");
        b
    }

    /// A builder holding every field of `value`.
    pub fn from(value: super::TransferResultMessage) -> (r: Self)
        ensures
            r.spec_device_id() == Ok::<super::Uuid, String>(value.device_id),
            r.spec_payload() == Ok::<super::TransferResultMessagePayload, String>(value.payload),
            r.spec_protocol_version() == Ok::<super::TransferResultMessageProtocolVersion, String>(value.protocol_version),
            r.spec_request_id() == Ok::<super::Null, String>(value.request_id),
            r.spec_session_id() == Ok::<super::Null, String>(value.session_id),
            r.spec_type_() == Ok::<super::TransferResultMessageType, String>(value.type_),
            r.build_outcome() == Ok::<super::TransferResultMessage, Seq<char>>(value),
    {
        TransferResultMessage {
            device_id: Ok(value.device_id),
            payload: Ok(value.payload),
            protocol_version: Ok(value.protocol_version),
            request_id: Ok(value.request_id),
            session_id: Ok(value.session_id),
            type_: Ok(value.type_),
        }
    }
}

impl Default for TransferResultMessage {
    fn default() -> (r: Self)
        ensures
            r.all_unset(),
    {
        TransferResultMessage {
            device_id: Err("no value supplied for device_id".to_owned()),
            payload: Err("no value supplied for payload".to_owned()),
            protocol_version: Err("no value supplied for protocol_version".to_owned()),
            request_id: Err("no value supplied for request_id".to_owned()),
            session_id: Err("no value supplied for session_id".to_owned()),
            type_: Err("no value supplied for type_".to_owned()),
        }
    }
}

impl super::TransferResultMessage {
    /// The message a builder holds, or the reason of its first unset field.
    pub fn try_from(value: TransferResultMessage) -> (r: Result<Self, ConversionError>)
        ensures
            outcome(r) == value.build_outcome(),
    {
        let device_id = match value.device_id {
            Ok(v) => v,
            Err(e) => return Err(ConversionError(e)),
        };
        let payload = match value.payload {
            Ok(v) => v,
            Err(e) => return Err(ConversionError(e)),
        };
        let protocol_version = match value.protocol_version {
            Ok(v) => v,
            Err(e) => return Err(ConversionError(e)),
        };
        let request_id = match value.request_id {
            Ok(v) => v,
            Err(e) => return Err(ConversionError(e)),
        };
        let session_id = match value.session_id {
            Ok(v) => v,
            Err(e) => return Err(ConversionError(e)),
        };
        let type_ = match value.type_ {
            Ok(v) => v,
            Err(e) => return Err(ConversionError(e)),
        };
        Ok(Self { device_id, payload, protocol_version, request_id, session_id, type_ })
    }
}

/// A `TransferResultMessagePayload` under construction: each field holds its value or why it
/// has none.
#[derive(Debug)]
pub struct TransferResultMessagePayload {
    code: Result<Option<super::ErrorCode>, String>,
    message: Result<super::TransferResultMessagePayloadMessage, String>,
    success: Result<bool, String>,
    transfer_id: Result<super::Uuid, String>,
}

impl TransferResultMessagePayload {
    pub closed spec fn spec_code(&self) -> Result<Option<super::ErrorCode>, String> {
        self.code
    }

    pub closed spec fn spec_message(&self) -> Result<super::TransferResultMessagePayloadMessage, String> {
        self.message
    }

    pub closed spec fn spec_success(&self) -> Result<bool, String> {
        self.success
    }

    pub closed spec fn spec_transfer_id(&self) -> Result<super::Uuid, String> {
        self.transfer_id
    }

    /// Every field unset.
    pub open spec fn all_unset(&self) -> bool {
        unset(self.spec_code(), "no value supplied for code"@)
            && unset(self.spec_message(), "no value supplied for message"@)
            && unset(self.spec_success(), "no value supplied for success"@)
            && unset(self.spec_transfer_id(), "no value supplied for transfer_id"@)
    }

    /// What `try_from` makes of this builder: the reason of the first unset
    /// field in declaration order, or the message.
    pub open spec fn build_outcome(&self) -> Result<super::TransferResultMessagePayload, Seq<char>> {
        if self.spec_code() is Err {
            Err(self.spec_code()->Err_0@)
        } else if self.spec_message() is Err {
            Err(self.spec_message()->Err_0@)
        } else if self.spec_success() is Err {
            Err(self.spec_success()->Err_0@)
        } else if self.spec_transfer_id() is Err {
            Err(self.spec_transfer_id()->Err_0@)
        } else {
            Ok(super::TransferResultMessagePayload {
                code: self.spec_code()->Ok_0,
                message: self.spec_message()->Ok_0,
                success: self.spec_success()->Ok_0,
                transfer_id: self.spec_transfer_id()->Ok_0,
            })
        }
    }

    /// Sets `code` from a value of its type or one that converts to it;
    /// a failed conversion is kept as the reason `code` has no value.
    pub fn code<V: Supply<Option<super::ErrorCode>>>(self, value: V) -> (r: Self)
        ensures
            supplied_as(value, r.spec_code(), "code"@),
            r.spec_message() == self.spec_message(),
            r.spec_success() == self.spec_success(),
            r.spec_transfer_id() == self.spec_transfer_id(),
    {
        let mut b = self;
        b.code = supply_field(value, "code");
        b
    }

    /// Sets `message` from a value of its type or one that converts to it;
    /// a failed conversion is kept as the reason `message` has no value.
    pub fn message<V: Supply<super::TransferResultMessagePayloadMessage>>(self, value: V) -> (r: Self)
        ensures
            supplied_as(value, r.spec_message(), "message"@),
            r.spec_code() == self.spec_code(),
            r.spec_success() == self.spec_success(),
            r.spec_transfer_id() == self.spec_transfer_id(),
    {
        let mut b = self;
        b.message = supply_field(value, "message");
        b
    }

    /// Sets `success` from a value of its type or one that converts to it;
    /// a failed conversion is kept as the reason `success` has no value.
    pub fn success<V: Supply<bool>>(self, value: V) -> (r: Self)
        ensures
            supplied_as(value, r.spec_success(), "success"@),
            r.spec_code() == self.spec_code(),
            r.spec_message() == self.spec_message(),
            r.spec_transfer_id() == self.spec_transfer_id(),
    {
        let mut b = self;
        b.success = supply_field(value, "success");
        b
    }

    /// Sets `transfer_id` from a value of its type or one that converts to it;
    /// a failed conversion is kept as the reason `transfer_id` has no value.
    pub fn transfer_id<V: Supply<super::Uuid>>(self, value: V) -> (r: Self)
        ensures
            supplied_as(value, r.spec_transfer_id(), "transfer_id"@),
            r.spec_code() == self.spec_code(),
            r.spec_message() == self.spec_message(),
            r.spec_success() == self.spec_success(),
    {
        let mut b = self;
        b.transfer_id = supply_field(value, "transfer_id");
        b
    }

    /// A builder holding every field of `value`.
    pub fn from(value: super::TransferResultMessagePayload) -> (r: Self)
        ensures
            r.spec_code() == Ok::<Option<super::ErrorCode>, String>(value.code),
            r.spec_message() == Ok::<super::TransferResultMessagePayloadMessage, String>(value.message),
            r.spec_success() == Ok::<bool, String>(value.success),
            r.spec_transfer_id() == Ok::<super::Uuid, String>(value.transfer_id),
            r.build_outcome() == Ok::<super::TransferResultMessagePayload, Seq<char>>(value),
    {
        TransferResultMessagePayload {
            code: Ok(value.code),
            message: Ok(value.message),
            success: Ok(value.success),
            transfer_id: Ok(value.transfer_id),
        }
    }
}

impl Default for TransferResultMessagePayload {
    fn default() -> (r: Self)
        ensures
            r.all_unset(),
    {
        TransferResultMessagePayload {
            code: Err("no value supplied for code".to_owned()),
            message: Err("no value supplied for message".to_owned()),
            success: Err("no value supplied for success".to_owned()),
            transfer_id: Err("no value supplied for transfer_id".to_owned()),
        }
    }
}

impl super::TransferResultMessagePayload {
    /// The message a builder holds, or the reason of its first unset field.
    pub fn try_from(value: TransferResultMessagePayload) -> (r: Result<Self, ConversionError>)
        ensures
            outcome(r) == value.build_outcome(),
    {
        let code = match value.code {
            Ok(v) => v,
            Err(e) => return Err(ConversionError(e)),
        };
        let message = match value.message {
            Ok(v) => v,
            Err(e) => return Err(ConversionError(e)),
        };
        let success = match value.success {
            Ok(v) => v,
            Err(e) => return Err(ConversionError(e)),
        };
        let transfer_id = match value.transfer_id {
            Ok(v) => v,
            Err(e) => return Err(ConversionError(e)),
        };
        Ok(Self { code, message, success, transfer_id })
    }
}

/// A `TransferStartMessage` under construction: each field holds its value or why it
/// has none.
#[derive(Debug)]
pub struct TransferStartMessage {
    device_id: Result<super::Uuid, String>,
    payload: Result<super::TransferStartMessagePayload, String>,
    protocol_version: Result<super::TransferStartMessageProtocolVersion, String>,
    request_id: Result<super::Uuid, String>,
    session_id: Result<super::Null, String>,
    type_: Result<super::TransferStartMessageType, String>,
}

impl TransferStartMessage {
    pub closed spec fn spec_device_id(&self) -> Result<super::Uuid, String> {
        self.device_id
    }

    pub closed spec fn spec_payload(&self) -> Result<super::TransferStartMessagePayload, String> {
        self.payload
    }

    pub closed spec fn spec_protocol_version(&self) -> Result<super::TransferStartMessageProtocolVersion, String> {
        self.protocol_version
    }

    pub closed spec fn spec_request_id(&self) -> Result<super::Uuid, String> {
        self.request_id
    }

    pub closed spec fn spec_session_id(&self) -> Result<super::Null, String> {
        self.session_id
    }

    pub closed spec fn spec_type_(&self) -> Result<super::TransferStartMessageType, String> {
        self.type_
    }

    /// Every field unset.
    pub open spec fn all_unset(&self) -> bool {
        unset(self.spec_device_id(), "no value supplied for device_id"@)
            && unset(self.spec_payload(), "no value supplied for payload"@)
            && unset(self.spec_protocol_version(), "no value supplied for protocol_version"@)
            && unset(self.spec_request_id(), "no value supplied for request_id"@)
            && unset(self.spec_session_id(), "no value supplied for session_id"@)
            && unset(self.spec_type_(), "no value supplied for type_"@)
    }

    /// What `try_from` makes of this builder: the reason of the first unset
    /// field in declaration order, or the message.
    pub open spec fn build_outcome(&self) -> Result<super::TransferStartMessage, Seq<char>> {
        if self.spec_device_id() is Err {
            Err(self.spec_device_id()->Err_0@)
        } else if self.spec_payload() is Err {
            Err(self.spec_payload()->Err_0@)
        } else if self.spec_protocol_version() is Err {
            Err(self.spec_protocol_version()->Err_0@)
        } else if self.spec_request_id() is Err {
            Err(self.spec_request_id()->Err_0@)
        } else if self.spec_session_id() is Err {
            Err(self.spec_session_id()->Err_0@)
        } else if self.spec_type_() is Err {
            Err(self.spec_type_()->Err_0@)
        } else {
            Ok(super::TransferStartMessage {
                device_id: self.spec_device_id()->Ok_0,
                payload: self.spec_payload()->Ok_0,
                protocol_version: self.spec_protocol_version()->Ok_0,
                request_id: self.spec_request_id()->Ok_0,
                session_id: self.spec_session_id()->Ok_0,
                type_: self.spec_type_()->Ok_0,
            })
        }
    }

    /// Sets `device_id` from a value of its type or one that converts to it;
    /// a failed conversion is kept as the reason `device_id` has no value.
    pub fn device_id<V: Supply<super::Uuid>>(self, value: V) -> (r: Self)
        ensures
            supplied_as(value, r.spec_device_id(), "device_id"@),
            r.spec_payload() == self.spec_payload(),
            r.spec_protocol_version() == self.spec_protocol_version(),
            r.spec_request_id() == self.spec_request_id(),
            r.spec_session_id() == self.spec_session_id(),
            r.spec_type_() == self.spec_type_(),
    {
        let mut b = self;
        b.device_id = supply_field(value, "device_id");
        b
    }

    /// Sets `payload` from a value of its type or one that converts to it;
    /// a failed conversion is kept as the reason `payload` has no value.
    pub fn payload<V: Supply<super::TransferStartMessagePayload>>(self, value: V) -> (r: Self)
        ensures
            supplied_as(value, r.spec_payload(), "payload"@),
            r.spec_device_id() == self.spec_device_id(),
            r.spec_protocol_version() == self.spec_protocol_version(),
            r.spec_request_id() == self.spec_request_id(),
            r.spec_session_id() == self.spec_session_id(),
            r.spec_type_() == self.spec_type_(),
    {
        let mut b = self;
        b.payload = supply_field(value, "payload");
        b
    }

    /// Sets `protocol_version` from a value of its type or one that converts to it;
    /// a failed conversion is kept as the reason `protocol_version` has no value.
    pub fn protocol_version<V: Supply<super::TransferStartMessageProtocolVersion>>(self, value: V) -> (r: Self)
        ensures
            supplied_as(value, r.spec_protocol_version(), "protocol_version"@),
            r.spec_device_id() == self.spec_device_id(),
            r.spec_payload() == self.spec_payload(),
            r.spec_request_id() == self.spec_request_id(),
            r.spec_session_id() == self.spec_session_id(),
            r.spec_type_() == self.spec_type_(),
    {
        let mut b = self;
        b.protocol_version = supply_field(value, "protocol_version");
        b
    }

    /// Sets `request_id` from a value of its type or one that converts to it;
    /// a failed conversion is kept as the reason `request_id` has no value.
    pub fn request_id<V: Supply<super::Uuid>>(self, value: V) -> (r: Self)
        ensures
            supplied_as(value, r.spec_request_id(), "request_id"@),
            r.spec_device_id() == self.spec_device_id(),
            r.spec_payload() == self.spec_payload(),
            r.spec_protocol_version() == self.spec_protocol_version(),
            r.spec_session_id() == self.spec_session_id(),
            r.spec_type_() == self.spec_type_(),
    {
        let mut b = self;
        b.request_id = supply_field(value, "request_id");
        b
    }

    /// Sets `session_id` from a value of its type or one that converts to it;
    /// a failed conversion is kept as the reason `session_id` has no value.
    pub fn session_id<V: Supply<super::Null>>(self, value: V) -> (r: Self)
        ensures
            supplied_as(value, r.spec_session_id(), "session_id"@),
            r.spec_device_id() == self.spec_device_id(),
            r.spec_payload() == self.spec_payload(),
            r.spec_protocol_version() == self.spec_protocol_version(),
            r.spec_request_id() == self.spec_request_id(),
            r.spec_type_() == self.spec_type_(),
    {
        let mut b = self;
        b.session_id = supply_field(value, "session_id");
        b
    }

    /// Sets `type_` from a value of its type or one that converts to it;
    /// a failed conversion is kept as the reason `type_` has no value.
    pub fn type_<V: Supply<super::TransferStartMessageType>>(self, value: V) -> (r: Self)
        ensures
            supplied_as(value, r.spec_type_(), "type_"@),
            r.spec_device_id() == self.spec_device_id(),
            r.spec_payload() == self.spec_payload(),
            r.spec_protocol_version() == self.spec_protocol_version(),
            r.spec_request_id() == self.spec_request_id(),
            r.spec_session_id() == self.spec_session_id(),
    {
        let mut b = self;
        b.type_ = supply_field(value, "type_");
        b
    }

    /// A builder holding every field of `value`.
    pub fn from(value: super::TransferStartMessage) -> (r: Self)
        ensures
            r.spec_device_id() == Ok::<super::Uuid, String>(value.device_id),
            r.spec_payload() == Ok::<super::TransferStartMessagePayload, String>(value.payload),
            r.spec_protocol_version() == Ok::<super::TransferStartMessageProtocolVersion, String>(value.protocol_version),
            r.spec_request_id() == Ok::<super::Uuid, String>(value.request_id),
            r.spec_session_id() == Ok::<super::Null, String>(value.session_id),
            r.spec_type_() == Ok::<super::TransferStartMessageType, String>(value.type_),
            r.build_outcome() == Ok::<super::TransferStartMessage, Seq<char>>(value),
    {
        TransferStartMessage {
            device_id: Ok(value.device_id),
            payload: Ok(value.payload),
            protocol_version: Ok(value.protocol_version),
            request_id: Ok(value.request_id),
            session_id: Ok(value.session_id),
            type_: Ok(value.type_),
        }
    }
}

impl Default for TransferStartMessage {
    fn default() -> (r: Self)
        ensures
            r.all_unset(),
    {
        TransferStartMessage {
            device_id: Err("no value supplied for device_id".to_owned()),
            payload: Err("no value supplied for payload".to_owned()),
            protocol_version: Err("no value supplied for protocol_version".to_owned()),
            request_id: Err("no value supplied for request_id".to_owned()),
            session_id: Err("no value supplied for session_id".to_owned()),
            type_: Err("no value supplied for type_".to_owned()),
        }
    }
}

impl super::TransferStartMessage {
    /// The message a builder holds, or the reason of its first unset field.
    pub fn try_from(value: TransferStartMessage) -> (r: Result<Self, ConversionError>)
        ensures
            outcome(r) == value.build_outcome(),
    {
        let device_id = match value.device_id {
            Ok(v) => v,
            Err(e) => return Err(ConversionError(e)),
        };
        let payload = match value.payload {
            Ok(v) => v,
            Err(e) => return Err(ConversionError(e)),
        };
        let protocol_version = match value.protocol_version {
            Ok(v) => v,
            Err(e) => return Err(ConversionError(e)),
        };
        let request_id = match value.request_id {
            Ok(v) => v,
            Err(e) => return Err(ConversionError(e)),
        };
        let session_id = match value.session_id {
            Ok(v) => v,
            Err(e) => return Err(ConversionError(e)),
        };
        let type_ = match value.type_ {
            Ok(v) => v,
            Err(e) => return Err(ConversionError(e)),
        };
        Ok(Self { device_id, payload, protocol_version, request_id, session_id, type_ })
    }
}

/// A `TransferStartMessagePayload` under construction: each field holds its value or why it
/// has none.
#[derive(Debug)]
pub struct TransferStartMessagePayload {
    entries: Result<Vec<super::FileEntry>, String>,
    root_note: Result<super::SafeRelativePath, String>,
    transfer_id: Result<super::Uuid, String>,
}

impl TransferStartMessagePayload {
    pub closed spec fn spec_entries(&self) -> Result<Vec<super::FileEntry>, String> {
        self.entries
    }

    pub closed spec fn spec_root_note(&self) -> Result<super::SafeRelativePath, String> {
        self.root_note
    }

    pub closed spec fn spec_transfer_id(&self) -> Result<super::Uuid, String> {
        self.transfer_id
    }

    /// Every field unset.
    pub open spec fn all_unset(&self) -> bool {
        unset(self.spec_entries(), "no value supplied for entries"@)
            && unset(self.spec_root_note(), "no value supplied for root_note"@)
            && unset(self.spec_transfer_id(), "no value supplied for transfer_id"@)
    }

    /// What `try_from` makes of this builder: the reason of the first unset
    /// field in declaration order, or the message.
    pub open spec fn build_outcome(&self) -> Result<super::TransferStartMessagePayload, Seq<char>> {
        if self.spec_entries() is Err {
            Err(self.spec_entries()->Err_0@)
        } else if self.spec_root_note() is Err {
            Err(self.spec_root_note()->Err_0@)
        } else if self.spec_transfer_id() is Err {
            Err(self.spec_transfer_id()->Err_0@)
        } else {
            Ok(super::TransferStartMessagePayload {
                entries: self.spec_entries()->Ok_0,
                root_note: self.spec_root_note()->Ok_0,
                transfer_id: self.spec_transfer_id()->Ok_0,
            })
        }
    }

    /// Sets `entries` from a value of its type or one that converts to it;
    /// a failed conversion is kept as the reason `entries` has no value.
    pub fn entries<V: Supply<Vec<super::FileEntry>>>(self, value: V) -> (r: Self)
        ensures
            supplied_as(value, r.spec_entries(), "entries"@),
            r.spec_root_note() == self.spec_root_note(),
            r.spec_transfer_id() == self.spec_transfer_id(),
    {
        let mut b = self;
        b.entries = supply_field(value, "entries");
        b
    }

    /// Sets `root_note` from a value of its type or one that converts to it;
    /// a failed conversion is kept as the reason `root_note` has no value.
    pub fn root_note<V: Supply<super::SafeRelativePath>>(self, value: V) -> (r: Self)
        ensures
            supplied_as(value, r.spec_root_note(), "root_note"@),
            r.spec_entries() == self.spec_entries(),
            r.spec_transfer_id() == self.spec_transfer_id(),
    {
        let mut b = self;
        b.root_note = supply_field(value, "root_note");
        b
    }

    /// Sets `transfer_id` from a value of its type or one that converts to it;
    /// a failed conversion is kept as the reason `transfer_id` has no value.
    pub fn transfer_id<V: Supply<super::Uuid>>(self, value: V) -> (r: Self)
        ensures
            supplied_as(value, r.spec_transfer_id(), "transfer_id"@),
            r.spec_entries() == self.spec_entries(),
            r.spec_root_note() == self.spec_root_note(),
    {
        let mut b = self;
        b.transfer_id = supply_field(value, "transfer_id");
        b
    }

    /// A builder holding every field of `value`.
    pub fn from(value: super::TransferStartMessagePayload) -> (r: Self)
        ensures
            r.spec_entries() == Ok::<Vec<super::FileEntry>, String>(value.entries),
            r.spec_root_note() == Ok::<super::SafeRelativePath, String>(value.root_note),
            r.spec_transfer_id() == Ok::<super::Uuid, String>(value.transfer_id),
            r.build_outcome() == Ok::<super::TransferStartMessagePayload, Seq<char>>(value),
    {
        TransferStartMessagePayload {
            entries: Ok(value.entries),
            root_note: Ok(value.root_note),
            transfer_id: Ok(value.transfer_id),
        }
    }
}

impl Default for TransferStartMessagePayload {
    fn default() -> (r: Self)
        ensures
            r.all_unset(),
    {
        TransferStartMessagePayload {
            entries: Err("no value supplied for entries".to_owned()),
            root_note: Err("no value supplied for root_note".to_owned()),
            transfer_id: Err("no value supplied for transfer_id".to_owned()),
        }
    }
}

impl super::TransferStartMessagePayload {
    /// The message a builder holds, or the reason of its first unset field.
    pub fn try_from(value: TransferStartMessagePayload) -> (r: Result<Self, ConversionError>)
        ensures
            outcome(r) == value.build_outcome(),
    {
        let entries = match value.entries {
            Ok(v) => v,
            Err(e) => return Err(ConversionError(e)),
        };
        let root_note = match value.root_note {
            Ok(v) => v,
            Err(e) => return Err(ConversionError(e)),
        };
        let transfer_id = match value.transfer_id {
            Ok(v) => v,
            Err(e) => return Err(ConversionError(e)),
        };
        Ok(Self { entries, root_note, transfer_id })
    }
}

/// A builder supplied for a nested `AgentHeartbeatMessage` field: the field gets the value
/// the builder makes, or the reason it makes none.
impl Supply<super::AgentHeartbeatMessage> for AgentHeartbeatMessage {
    open spec fn converts_to(&self, r: Result<super::AgentHeartbeatMessage, ConversionError>) -> bool {
        outcome(r) == self.build_outcome()
    }

    fn supply(self) -> (r: Result<super::AgentHeartbeatMessage, ConversionError>) {
        super::AgentHeartbeatMessage::try_from(self)
    }
}

/// A builder supplied for a nested `AgentHeartbeatMessagePayload` field: the field gets the value
/// the builder makes, or the reason it makes none.
impl Supply<super::AgentHeartbeatMessagePayload> for AgentHeartbeatMessagePayload {
    open spec fn converts_to(&self, r: Result<super::AgentHeartbeatMessagePayload, ConversionError>) -> bool {
        outcome(r) == self.build_outcome()
    }

    fn supply(self) -> (r: Result<super::AgentHeartbeatMessagePayload, ConversionError>) {
        super::AgentHeartbeatMessagePayload::try_from(self)
    }
}

/// A builder supplied for a nested `AgentHelloAckMessage` field: the field gets the value
/// the builder makes, or the reason it makes none.
impl Supply<super::AgentHelloAckMessage> for AgentHelloAckMessage {
    open spec fn converts_to(&self, r: Result<super::AgentHelloAckMessage, ConversionError>) -> bool {
        outcome(r) == self.build_outcome()
    }

    fn supply(self) -> (r: Result<super::AgentHelloAckMessage, ConversionError>) {
        super::AgentHelloAckMessage::try_from(self)
    }
}

/// A builder supplied for a nested `AgentHelloAckMessagePayload` field: the field gets the value
/// the builder makes, or the reason it makes none.
impl Supply<super::AgentHelloAckMessagePayload> for AgentHelloAckMessagePayload {
    open spec fn converts_to(&self, r: Result<super::AgentHelloAckMessagePayload, ConversionError>) -> bool {
        outcome(r) == self.build_outcome()
    }

    fn supply(self) -> (r: Result<super::AgentHelloAckMessagePayload, ConversionError>) {
        super::AgentHelloAckMessagePayload::try_from(self)
    }
}

/// A builder supplied for a nested `AgentHelloMessage` field: the field gets the value
/// the builder makes, or the reason it makes none.
impl Supply<super::AgentHelloMessage> for AgentHelloMessage {
    open spec fn converts_to(&self, r: Result<super::AgentHelloMessage, ConversionError>) -> bool {
        outcome(r) == self.build_outcome()
    }

    fn supply(self) -> (r: Result<super::AgentHelloMessage, ConversionError>) {
        super::AgentHelloMessage::try_from(self)
    }
}

/// A builder supplied for a nested `AgentHelloMessagePayload` field: the field gets the value
/// the builder makes, or the reason it makes none.
impl Supply<super::AgentHelloMessagePayload> for AgentHelloMessagePayload {
    open spec fn converts_to(&self, r: Result<super::AgentHelloMessagePayload, ConversionError>) -> bool {
        outcome(r) == self.build_outcome()
    }

    fn supply(self) -> (r: Result<super::AgentHelloMessagePayload, ConversionError>) {
        super::AgentHelloMessagePayload::try_from(self)
    }
}

/// A builder supplied for a nested `FileEntry` field: the field gets the value
/// the builder makes, or the reason it makes none.
impl Supply<super::FileEntry> for FileEntry {
    open spec fn converts_to(&self, r: Result<super::FileEntry, ConversionError>) -> bool {
        outcome(r) == self.build_outcome()
    }

    fn supply(self) -> (r: Result<super::FileEntry, ConversionError>) {
        super::FileEntry::try_from(self)
    }
}

/// A builder supplied for a nested `TerminalCloseMessage` field: the field gets the value
/// the builder makes, or the reason it makes none.
impl Supply<super::TerminalCloseMessage> for TerminalCloseMessage {
    open spec fn converts_to(&self, r: Result<super::TerminalCloseMessage, ConversionError>) -> bool {
        outcome(r) == self.build_outcome()
    }

    fn supply(self) -> (r: Result<super::TerminalCloseMessage, ConversionError>) {
        super::TerminalCloseMessage::try_from(self)
    }
}

/// A builder supplied for a nested `TerminalCloseMessagePayload` field: the field gets the value
/// the builder makes, or the reason it makes none.
impl Supply<super::TerminalCloseMessagePayload> for TerminalCloseMessagePayload {
    open spec fn converts_to(&self, r: Result<super::TerminalCloseMessagePayload, ConversionError>) -> bool {
        outcome(r) == self.build_outcome()
    }

    fn supply(self) -> (r: Result<super::TerminalCloseMessagePayload, ConversionError>) {
        super::TerminalCloseMessagePayload::try_from(self)
    }
}

/// A builder supplied for a nested `TerminalErrorMessage` field: the field gets the value
/// the builder makes, or the reason it makes none.
impl Supply<super::TerminalErrorMessage> for TerminalErrorMessage {
    open spec fn converts_to(&self, r: Result<super::TerminalErrorMessage, ConversionError>) -> bool {
        outcome(r) == self.build_outcome()
    }

    fn supply(self) -> (r: Result<super::TerminalErrorMessage, ConversionError>) {
        super::TerminalErrorMessage::try_from(self)
    }
}

/// A builder supplied for a nested `TerminalErrorMessagePayload` field: the field gets the value
/// the builder makes, or the reason it makes none.
impl Supply<super::TerminalErrorMessagePayload> for TerminalErrorMessagePayload {
    open spec fn converts_to(&self, r: Result<super::TerminalErrorMessagePayload, ConversionError>) -> bool {
        outcome(r) == self.build_outcome()
    }

    fn supply(self) -> (r: Result<super::TerminalErrorMessagePayload, ConversionError>) {
        super::TerminalErrorMessagePayload::try_from(self)
    }
}

/// A builder supplied for a nested `TerminalOpenMessage` field: the field gets the value
/// the builder makes, or the reason it makes none.
impl Supply<super::TerminalOpenMessage> for TerminalOpenMessage {
    open spec fn converts_to(&self, r: Result<super::TerminalOpenMessage, ConversionError>) -> bool {
        outcome(r) == self.build_outcome()
    }

    fn supply(self) -> (r: Result<super::TerminalOpenMessage, ConversionError>) {
        super::TerminalOpenMessage::try_from(self)
    }
}

/// A builder supplied for a nested `TerminalOpenMessagePayload` field: the field gets the value
/// the builder makes, or the reason it makes none.
impl Supply<super::TerminalOpenMessagePayload> for TerminalOpenMessagePayload {
    open spec fn converts_to(&self, r: Result<super::TerminalOpenMessagePayload, ConversionError>) -> bool {
        outcome(r) == self.build_outcome()
    }

    fn supply(self) -> (r: Result<super::TerminalOpenMessagePayload, ConversionError>) {
        super::TerminalOpenMessagePayload::try_from(self)
    }
}

/// A builder supplied for a nested `TerminalOpenedMessage` field: the field gets the value
/// the builder makes, or the reason it makes none.
impl Supply<super::TerminalOpenedMessage> for TerminalOpenedMessage {
    open spec fn converts_to(&self, r: Result<super::TerminalOpenedMessage, ConversionError>) -> bool {
        outcome(r) == self.build_outcome()
    }

    fn supply(self) -> (r: Result<super::TerminalOpenedMessage, ConversionError>) {
        super::TerminalOpenedMessage::try_from(self)
    }
}

/// A builder supplied for a nested `TerminalOpenedMessagePayload` field: the field gets the value
/// the builder makes, or the reason it makes none.
impl Supply<super::TerminalOpenedMessagePayload> for TerminalOpenedMessagePayload {
    open spec fn converts_to(&self, r: Result<super::TerminalOpenedMessagePayload, ConversionError>) -> bool {
        outcome(r) == self.build_outcome()
    }

    fn supply(self) -> (r: Result<super::TerminalOpenedMessagePayload, ConversionError>) {
        super::TerminalOpenedMessagePayload::try_from(self)
    }
}

/// A builder supplied for a nested `TerminalResizeMessage` field: the field gets the value
/// the builder makes, or the reason it makes none.
impl Supply<super::TerminalResizeMessage> for TerminalResizeMessage {
    open spec fn converts_to(&self, r: Result<super::TerminalResizeMessage, ConversionError>) -> bool {
        outcome(r) == self.build_outcome()
    }

    fn supply(self) -> (r: Result<super::TerminalResizeMessage, ConversionError>) {
        super::TerminalResizeMessage::try_from(self)
    }
}

/// A builder supplied for a nested `TerminalResizeMessagePayload` field: the field gets the value
/// the builder makes, or the reason it makes none.
impl Supply<super::TerminalResizeMessagePayload> for TerminalResizeMessagePayload {
    open spec fn converts_to(&self, r: Result<super::TerminalResizeMessagePayload, ConversionError>) -> bool {
        outcome(r) == self.build_outcome()
    }

    fn supply(self) -> (r: Result<super::TerminalResizeMessagePayload, ConversionError>) {
        super::TerminalResizeMessagePayload::try_from(self)
    }
}

/// A builder supplied for a nested `TerminalShellEventMessage` field: the field gets the value
/// the builder makes, or the reason it makes none.
impl Supply<super::TerminalShellEventMessage> for TerminalShellEventMessage {
    open spec fn converts_to(&self, r: Result<super::TerminalShellEventMessage, ConversionError>) -> bool {
        outcome(r) == self.build_outcome()
    }

    fn supply(self) -> (r: Result<super::TerminalShellEventMessage, ConversionError>) {
        super::TerminalShellEventMessage::try_from(self)
    }
}

/// A builder supplied for a nested `TerminalShellEventMessagePayload` field: the field gets the value
/// the builder makes, or the reason it makes none.
impl Supply<super::TerminalShellEventMessagePayload> for TerminalShellEventMessagePayload {
    open spec fn converts_to(&self, r: Result<super::TerminalShellEventMessagePayload, ConversionError>) -> bool {
        outcome(r) == self.build_outcome()
    }

    fn supply(self) -> (r: Result<super::TerminalShellEventMessagePayload, ConversionError>) {
        super::TerminalShellEventMessagePayload::try_from(self)
    }
}

/// A builder supplied for a nested `TransferAbortMessage` field: the field gets the value
/// the builder makes, or the reason it makes none.
impl Supply<super::TransferAbortMessage> for TransferAbortMessage {
    open spec fn converts_to(&self, r: Result<super::TransferAbortMessage, ConversionError>) -> bool {
        outcome(r) == self.build_outcome()
    }

    fn supply(self) -> (r: Result<super::TransferAbortMessage, ConversionError>) {
        super::TransferAbortMessage::try_from(self)
    }
}

/// A builder supplied for a nested `TransferAbortMessagePayload` field: the field gets the value
/// the builder makes, or the reason it makes none.
impl Supply<super::TransferAbortMessagePayload> for TransferAbortMessagePayload {
    open spec fn converts_to(&self, r: Result<super::TransferAbortMessagePayload, ConversionError>) -> bool {
        outcome(r) == self.build_outcome()
    }

    fn supply(self) -> (r: Result<super::TransferAbortMessagePayload, ConversionError>) {
        super::TransferAbortMessagePayload::try_from(self)
    }
}

/// A builder supplied for a nested `TransferAcceptedMessage` field: the field gets the value
/// the builder makes, or the reason it makes none.
impl Supply<super::TransferAcceptedMessage> for TransferAcceptedMessage {
    open spec fn converts_to(&self, r: Result<super::TransferAcceptedMessage, ConversionError>) -> bool {
        outcome(r) == self.build_outcome()
    }

    fn supply(self) -> (r: Result<super::TransferAcceptedMessage, ConversionError>) {
        super::TransferAcceptedMessage::try_from(self)
    }
}

/// A builder supplied for a nested `TransferAcceptedMessagePayload` field: the field gets the value
/// the builder makes, or the reason it makes none.
impl Supply<super::TransferAcceptedMessagePayload> for TransferAcceptedMessagePayload {
    open spec fn converts_to(&self, r: Result<super::TransferAcceptedMessagePayload, ConversionError>) -> bool {
        outcome(r) == self.build_outcome()
    }

    fn supply(self) -> (r: Result<super::TransferAcceptedMessagePayload, ConversionError>) {
        super::TransferAcceptedMessagePayload::try_from(self)
    }
}

/// A builder supplied for a nested `TransferCompleteMessage` field: the field gets the value
/// the builder makes, or the reason it makes none.
impl Supply<super::TransferCompleteMessage> for TransferCompleteMessage {
    open spec fn converts_to(&self, r: Result<super::TransferCompleteMessage, ConversionError>) -> bool {
        outcome(r) == self.build_outcome()
    }

    fn supply(self) -> (r: Result<super::TransferCompleteMessage, ConversionError>) {
        super::TransferCompleteMessage::try_from(self)
    }
}

/// A builder supplied for a nested `TransferCompleteMessagePayload` field: the field gets the value
/// the builder makes, or the reason it makes none.
impl Supply<super::TransferCompleteMessagePayload> for TransferCompleteMessagePayload {
    open spec fn converts_to(&self, r: Result<super::TransferCompleteMessagePayload, ConversionError>) -> bool {
        outcome(r) == self.build_outcome()
    }

    fn supply(self) -> (r: Result<super::TransferCompleteMessagePayload, ConversionError>) {
        super::TransferCompleteMessagePayload::try_from(self)
    }
}

/// A builder supplied for a nested `TransferCreditMessage` field: the field gets the value
/// the builder makes, or the reason it makes none.
impl Supply<super::TransferCreditMessage> for TransferCreditMessage {
    open spec fn converts_to(&self, r: Result<super::TransferCreditMessage, ConversionError>) -> bool {
        outcome(r) == self.build_outcome()
    }

    fn supply(self) -> (r: Result<super::TransferCreditMessage, ConversionError>) {
        super::TransferCreditMessage::try_from(self)
    }
}

/// A builder supplied for a nested `TransferCreditMessagePayload` field: the field gets the value
/// the builder makes, or the reason it makes none.
impl Supply<super::TransferCreditMessagePayload> for TransferCreditMessagePayload {
    open spec fn converts_to(&self, r: Result<super::TransferCreditMessagePayload, ConversionError>) -> bool {
        outcome(r) == self.build_outcome()
    }

    fn supply(self) -> (r: Result<super::TransferCreditMessagePayload, ConversionError>) {
        super::TransferCreditMessagePayload::try_from(self)
    }
}

/// A builder supplied for a nested `TransferFileEndMessage` field: the field gets the value
/// the builder makes, or the reason it makes none.
impl Supply<super::TransferFileEndMessage> for TransferFileEndMessage {
    open spec fn converts_to(&self, r: Result<super::TransferFileEndMessage, ConversionError>) -> bool {
        outcome(r) == self.build_outcome()
    }

    fn supply(self) -> (r: Result<super::TransferFileEndMessage, ConversionError>) {
        super::TransferFileEndMessage::try_from(self)
    }
}

/// A builder supplied for a nested `TransferFileEndMessagePayload` field: the field gets the value
/// the builder makes, or the reason it makes none.
impl Supply<super::TransferFileEndMessagePayload> for TransferFileEndMessagePayload {
    open spec fn converts_to(&self, r: Result<super::TransferFileEndMessagePayload, ConversionError>) -> bool {
        outcome(r) == self.build_outcome()
    }

    fn supply(self) -> (r: Result<super::TransferFileEndMessagePayload, ConversionError>) {
        super::TransferFileEndMessagePayload::try_from(self)
    }
}

/// A builder supplied for a nested `TransferResultMessage` field: the field gets the value
/// the builder makes, or the reason it makes none.
impl Supply<super::TransferResultMessage> for TransferResultMessage {
    open spec fn converts_to(&self, r: Result<super::TransferResultMessage, ConversionError>) -> bool {
        outcome(r) == self.build_outcome()
    }

    fn supply(self) -> (r: Result<super::TransferResultMessage, ConversionError>) {
        super::TransferResultMessage::try_from(self)
    }
}

/// A builder supplied for a nested `TransferResultMessagePayload` field: the field gets the value
/// the builder makes, or the reason it makes none.
impl Supply<super::TransferResultMessagePayload> for TransferResultMessagePayload {
    open spec fn converts_to(&self, r: Result<super::TransferResultMessagePayload, ConversionError>) -> bool {
        outcome(r) == self.build_outcome()
    }

    fn supply(self) -> (r: Result<super::TransferResultMessagePayload, ConversionError>) {
        super::TransferResultMessagePayload::try_from(self)
    }
}

/// A builder supplied for a nested `TransferStartMessage` field: the field gets the value
/// the builder makes, or the reason it makes none.
impl Supply<super::TransferStartMessage> for TransferStartMessage {
    open spec fn converts_to(&self, r: Result<super::TransferStartMessage, ConversionError>) -> bool {
        outcome(r) == self.build_outcome()
    }

    fn supply(self) -> (r: Result<super::TransferStartMessage, ConversionError>) {
        super::TransferStartMessage::try_from(self)
    }
}

/// A builder supplied for a nested `TransferStartMessagePayload` field: the field gets the value
/// the builder makes, or the reason it makes none.
impl Supply<super::TransferStartMessagePayload> for TransferStartMessagePayload {
    open spec fn converts_to(&self, r: Result<super::TransferStartMessagePayload, ConversionError>) -> bool {
        outcome(r) == self.build_outcome()
    }

    fn supply(self) -> (r: Result<super::TransferStartMessagePayload, ConversionError>) {
        super::TransferStartMessagePayload::try_from(self)
    }
}

} // verus!
