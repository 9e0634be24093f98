//! Error codes of the HTTPS surface and the errors handlers return.

use vstd::prelude::*;
use crate::text::concat;

verus! {

/// The error codes that the HTTPS surface can produce.
#[derive(Debug, Clone, Copy, PartialEq, Eq, Structural)]
pub enum ErrorCode {
    AuthExpired,
    PairingCodeInvalid,
    DeviceForbidden,
    QuotaExceeded,
    RateLimited,
    ProtocolError,
    Internal,
}

impl ErrorCode {
    /// The wire spelling of each code.
    pub open spec fn wire(self) -> Seq<char> {
        match self {
            ErrorCode::AuthExpired => "AUTH_EXPIRED"@,
            ErrorCode::PairingCodeInvalid => "PAIRING_CODE_INVALID"@,
            ErrorCode::DeviceForbidden => "DEVICE_FORBIDDEN"@,
            ErrorCode::QuotaExceeded => "QUOTA_EXCEEDED"@,
            ErrorCode::RateLimited => "RATE_LIMITED"@,
            ErrorCode::ProtocolError => "PROTOCOL_ERROR"@,
            ErrorCode::Internal => "INTERNAL_ERROR"@,
        }
    }

    pub fn as_str(self) -> (r: &'static str)
        ensures
            r@ == self.wire(),
    {
        match self {
            ErrorCode::AuthExpired => "AUTH_EXPIRED",
            ErrorCode::PairingCodeInvalid => "PAIRING_CODE_INVALID",
            ErrorCode::DeviceForbidden => "DEVICE_FORBIDDEN",
            ErrorCode::QuotaExceeded => "QUOTA_EXCEEDED",
            ErrorCode::RateLimited => "RATE_LIMITED",
            ErrorCode::ProtocolError => "PROTOCOL_ERROR",
            ErrorCode::Internal => "INTERNAL_ERROR",
        }
    }
}

pub const STATUS_BAD_REQUEST: u16 = 400;
pub const STATUS_UNAUTHORIZED: u16 = 401;
pub const STATUS_FORBIDDEN: u16 = 403;
pub const STATUS_NOT_FOUND: u16 = 404;
pub const STATUS_CONFLICT: u16 = 409;
pub const STATUS_TOO_MANY_REQUESTS: u16 = 429;
pub const STATUS_INTERNAL_SERVER_ERROR: u16 = 500;

/// An error a handler returns: the HTTP status, the wire code and the message
/// the client sees, plus what only the server log gets.
#[derive(Debug)]
pub struct AppError {
    pub status: u16,
    pub code: ErrorCode,
    pub message: String,
    /// Seconds, set on a 429 alone.
    pub retry_after: Option<u32>,
    /// Detail for the server log; never sent to the client.
    pub internal: Option<String>,
}

impl AppError {
    fn new(status: u16, code: ErrorCode, message: String) -> (r: Self)
        ensures
            r.status == status,
            r.code == code,
            r.message@ == message@,
            r.retry_after is None,
            r.internal is None,
    {
        AppError { status, code, message, retry_after: None, internal: None }
    }

    pub fn bad_request(message: &str) -> (r: Self)
        ensures
            r.status == STATUS_BAD_REQUEST,
            r.code == ErrorCode::ProtocolError,
            r.message@ == message@,
            r.retry_after is None,
            r.internal is None,
    {
        Self::new(STATUS_BAD_REQUEST, ErrorCode::ProtocolError, message.to_owned())
    }

    /// Wrong credentials, or a missing or expired token: one answer for all,
    /// so that a client cannot tell an unknown account from a wrong password.
    pub fn unauthorized() -> (r: Self)
        ensures
            r.status == STATUS_UNAUTHORIZED,
            r.code == ErrorCode::AuthExpired,
            r.message@ == "Authentication failed or the access token has expired"@,
            r.retry_after is None,
            r.internal is None,
    {
        Self::new(
            STATUS_UNAUTHORIZED,
            ErrorCode::AuthExpired,
            "Authentication failed or the access token has expired".to_owned(),
        )
    }

    pub fn forbidden() -> (r: Self)
        ensures
            r.status == STATUS_FORBIDDEN,
            r.code == ErrorCode::DeviceForbidden,
            r.message@ == "The object does not belong to the authenticated account"@,
            r.retry_after is None,
            r.internal is None,
    {
        Self::new(
            STATUS_FORBIDDEN,
            ErrorCode::DeviceForbidden,
            "The object does not belong to the authenticated account".to_owned(),
        )
    }

    pub fn not_found(message: &str) -> (r: Self)
        ensures
            r.status == STATUS_NOT_FOUND,
            r.code == ErrorCode::PairingCodeInvalid,
            r.message@ == message@,
            r.retry_after is None,
            r.internal is None,
    {
        Self::new(STATUS_NOT_FOUND, ErrorCode::PairingCodeInvalid, message.to_owned())
    }

    pub fn conflict(message: &str) -> (r: Self)
        ensures
            r.status == STATUS_CONFLICT,
            r.code == ErrorCode::QuotaExceeded,
            r.message@ == message@,
            r.retry_after is None,
            r.internal is None,
    {
        Self::new(STATUS_CONFLICT, ErrorCode::QuotaExceeded, message.to_owned())
    }

    pub fn rate_limited(retry_after: u32) -> (r: Self)
        ensures
            r.status == STATUS_TOO_MANY_REQUESTS,
            r.code == ErrorCode::RateLimited,
            r.message@ == "Too many requests"@,
            r.retry_after == Some(retry_after),
            r.internal is None,
    {
        let mut err = Self::new(
            STATUS_TOO_MANY_REQUESTS,
            ErrorCode::RateLimited,
            "Too many requests".to_owned(),
        );
        err.retry_after = Some(retry_after);
        err
    }

    pub fn internal(detail: &str) -> (r: Self)
        ensures
            r.status == STATUS_INTERNAL_SERVER_ERROR,
            r.code == ErrorCode::Internal,
            r.message@ == "Internal server error"@,
            r.retry_after is None,
            r.internal matches Some(d) && d@ == detail@,
    {
        let mut err = Self::new(
            STATUS_INTERNAL_SERVER_ERROR,
            ErrorCode::Internal,
            "Internal server error".to_owned(),
        );
        err.internal = Some(detail.to_owned());
        err
    }

    /// The rendering for the operator's terminal and the server log: the
    /// message, then the internal detail in parentheses when there is one.
    pub fn describe(&self) -> (r: String)
        ensures
            r@ == match self.internal {
                Some(d) => self.message@ + " ("@ + d@ + ")"@,
                None => self.message@,
            },
    {
        match &self.internal {
            Some(detail) => {
                let head = concat(self.message.as_str(), " (");
                let body = concat(head.as_str(), detail.as_str());
                let r = concat(body.as_str(), ")");
                assert(r@ =~= self.message@ + " ("@ + detail@ + ")"@);
                r
            },
            None => self.message.clone(),
        }
    }
}

} // verus!
