//! Login: the request and response bodies and the checks on a login request.

use vstd::prelude::*;
use crate::relay::error::{AppError, ErrorCode, STATUS_BAD_REQUEST};
use crate::text::{chars_of, concat};

verus! {

/// The body of a login request.
#[derive(Debug, Clone)]
pub struct LoginRequest {
    pub login: String,
    pub password: String,
}

/// The body of a successful login.
#[derive(Debug, Clone)]
pub struct LoginResponse {
    pub access_token: String,
    pub token_type: String,
    pub expires_in: i64,
    pub user: UserSummary,
}

/// The account a login opened.
#[derive(Debug, Clone)]
pub struct UserSummary {
    pub id: String,
    pub login: String,
}

/// What the bounds on a login request say: a login of 1 to 254 characters,
/// then a password of 8 to 1024 bytes.
pub open spec fn login_request_fault(login: Seq<char>, password_bytes: usize) -> Option<Seq<char>> {
    if login.len() == 0 || login.len() > 254 {
        Some("login must be 1..254 characters"@)
    } else if password_bytes < 8 || password_bytes > 1024 {
        Some("password must be 8..1024 bytes"@)
    } else {
        None
    }
}

/// Checks the field bounds of a login request before any lookup.
pub fn check_login_request(body: &LoginRequest) -> (r: Result<(), AppError>)
    ensures
        match login_request_fault(body.login@, vstd::utf8::encode_utf8(body.password@).len() as usize) {
            None => r is Ok,
            Some(m) => r matches Err(e) && e.status == STATUS_BAD_REQUEST && e.code
                == ErrorCode::ProtocolError && e.message@ == m,
        },
{
    let n = chars_of(body.login.as_str()).len();
    if n == 0 || n > 254 {
        return Err(AppError::bad_request("login must be 1..254 characters"));
    }
    let bytes = body.password.as_str().len();
    if bytes < 8 || bytes > 1024 {
        return Err(AppError::bad_request("password must be 8..1024 bytes"));
    }
    Ok(())
}

/// The rate-limit key of a login attempt: the login together with the
/// source address, so that an attacker elsewhere cannot lock a victim out and
/// one address cannot spray many accounts.
pub fn login_rate_key(login: &str, ip: &str) -> (r: String)
    ensures
        r@ == "login:"@ + login@ + ":"@ + ip@,
{
    let head = concat("login:", login);
    let mid = concat(head.as_str(), ":");
    concat(mid.as_str(), ip)
}

} // verus!
