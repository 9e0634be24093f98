//! Pairing codes and devices: the request and response bodies and the
//! checks a registration must pass before the database is touched.

use vstd::prelude::*;
use vstd::string::StringSliceAdditionalSpecFns;
use crate::protocol::patterns::{is_digit, scan_version_core, version_core_at};
use crate::relay::error::{
    AppError, ErrorCode, STATUS_BAD_REQUEST, STATUS_CONFLICT, STATUS_NOT_FOUND, STATUS_FORBIDDEN,
};
use crate::agent::client::platform_name;
use crate::protocol::messages::Platform;
use crate::text::{chars_of, concat, decimal, decimal_string, hex_char, str_eq, string_from_chars};

verus! {

/// Most devices one account may bind.
pub const MAX_DEVICES_PER_USER: i64 = 32;
/// Most pairing codes one account may hold unconsumed.
pub const MAX_UNCONSUMED_PAIRING_CODES: i64 = 16;

/// The body of a pairing-code request, which carries no fields.
#[derive(Debug, Clone)]
pub struct CreatePairingCodeRequest {}

/// A pairing code just created. The code is returned this once and never
/// stored in plain text.
#[derive(Debug, Clone)]
pub struct PairingCodeCreated {
    pub pairing_code_id: String,
    pub pairing_code: String,
    pub created_at: String,
    pub revoked: bool,
}

/// The body of a device registration.
#[derive(Debug, Clone)]
pub struct RegisterRequest {
    pub pairing_code: String,
    pub device_name: String,
    pub platform: String,
    pub agent_version: String,
}

/// What a registered agent needs to connect.
#[derive(Debug, Clone)]
pub struct RegisterResponse {
    pub device_id: String,
    pub device_token: String,
    pub relay_url: String,
}

/// One device as its owner sees it.
#[derive(Debug, Clone)]
pub struct DeviceView {
    pub id: String,
    pub name: String,
    pub platform: String,
    pub agent_version: String,
    pub online: bool,
    pub last_seen_at: Option<String>,
}

/// The devices of one account.
#[derive(Debug, Clone)]
pub struct DeviceList {
    pub devices: Vec<DeviceView>,
}

/// Unicode control characters (general category Cc), as std's
/// `char::is_control` tells them.
pub open spec fn is_control_char(c: char) -> bool {
    (c as u32) < 0x20 || (0x7f <= (c as u32) && (c as u32) < 0xa0)
}

pub fn is_control(c: char) -> (r: bool)
    ensures
        r == is_control_char(c),
{
    (c as u32) < 0x20 || (0x7f <= (c as u32) && (c as u32) < 0xa0)
}

/// The characters of a pairing code: ASCII letters and digits, `-` and `_`.
pub open spec fn is_code_char(c: char) -> bool {
    ('A' <= c && c <= 'Z') || ('a' <= c && c <= 'z') || ('0' <= c && c <= '9') || c == '-' || c
        == '_'
}

/// The version check registration applies: the text before the first `-`
/// or `+` is `MAJOR.MINOR.PATCH`, each a number without leading zeros; what
/// follows is not looked at.
pub open spec fn is_semver_text(s: Seq<char>) -> bool {
    exists|a: int, b: int, c: int|
        #[trigger] version_core_at(s, a, b, c) && (c == s.len() || s[c] == '-' || s[c] == '+')
}

/// Whether `value` passes the version check registration applies.
pub fn is_semver(value: &str) -> (r: bool)
    ensures
        r == is_semver_text(value@),
{
    let v = chars_of(value);
    match scan_version_core(&v) {
        None => {
            assert forall|a: int, b: int, c: int|
                !(#[trigger] version_core_at(value@, a, b, c) && (c == value@.len() || value@[c]
                    == '-' || value@[c] == '+')) by {
                if version_core_at(value@, a, b, c) && (c == value@.len() || value@[c] == '-'
                    || value@[c] == '+') {
                    assert(c == value@.len() || !is_digit(value@[c]));
                }
            }
            false
        },
        Some(c) => {
            let ok = c == v.len() || v[c] == '-' || v[c] == '+';
            if !ok {
                assert forall|a: int, b: int, c2: int|
                    !(#[trigger] version_core_at(value@, a, b, c2) && (c2 == value@.len()
                        || value@[c2] == '-' || value@[c2] == '+')) by {
                    if version_core_at(value@, a, b, c2) && (c2 == value@.len() || value@[c2] == '-'
                        || value@[c2] == '+') {
                        assert(c2 == value@.len() || !is_digit(value@[c2]));
                    }
                }
            }
            ok
        },
    }
}

/// What the registration checks say of a request, in the order they run.
pub open spec fn register_fault(body: RegisterRequest) -> Option<(u16, ErrorCode, Seq<char>)> {
    let name = body.device_name@;
    let code = body.pairing_code@;
    if name.len() == 0 || name.len() > 64 {
        Some((STATUS_BAD_REQUEST, ErrorCode::ProtocolError, "deviceName must be 1..64 characters"@))
    } else if exists|i: int| 0 <= i < name.len() && is_control_char(#[trigger] name[i]) {
        Some(
            (
                STATUS_BAD_REQUEST,
                ErrorCode::ProtocolError,
                "deviceName must not contain control characters"@,
            ),
        )
    } else if body.platform@ != "windows-x64"@ && body.platform@ != "ubuntu-x64"@ {
        Some(
            (
                STATUS_BAD_REQUEST,
                ErrorCode::ProtocolError,
                "platform must be windows-x64 or ubuntu-x64"@,
            ),
        )
    } else if !is_semver_text(body.agent_version@) {
        Some((STATUS_BAD_REQUEST, ErrorCode::ProtocolError, "agentVersion must be semver"@))
    } else if !(code.len() == 27 && forall|i: int| 0 <= i < code.len() ==> is_code_char(#[trigger] code[i])) {
        Some((STATUS_NOT_FOUND, ErrorCode::PairingCodeInvalid, "Pairing code is invalid"@))
    } else {
        None
    }
}

/// Checks a registration before anything is looked up: a cheap answer to
/// malformed input. A pairing code of the wrong shape is answered as an
/// unknown one.
pub fn validate_register(body: &RegisterRequest) -> (r: Result<(), AppError>)
    ensures
        match register_fault(*body) {
            None => r is Ok,
            Some((status, code, message)) => r matches Err(e) && e.status == status && e.code
                == code && e.message@ == message,
        },
{
    let name = chars_of(body.device_name.as_str());
    if name.len() == 0 || name.len() > 64 {
        return Err(AppError::bad_request("deviceName must be 1..64 characters"));
    }
    let mut i: usize = 0;
    while i < name.len()
        invariant
            i <= name.len(),
            name@ == body.device_name@,
            1 <= name.len() <= 64,
            forall|j: int| 0 <= j < i ==> !is_control_char(#[trigger] name@[j]),
        decreases name.len() - i,
    {
        if is_control(name[i]) {
            assert(is_control_char(body.device_name@[i as int]));
            return Err(AppError::bad_request("deviceName must not contain control characters"));
        }
        i = i + 1;
    }
    if !str_eq(body.platform.as_str(), "windows-x64") && !str_eq(body.platform.as_str(), "ubuntu-x64") {
        return Err(AppError::bad_request("platform must be windows-x64 or ubuntu-x64"));
    }
    if !is_semver(body.agent_version.as_str()) {
        return Err(AppError::bad_request("agentVersion must be semver"));
    }
    let code = chars_of(body.pairing_code.as_str());
    let mut ok = code.len() == 27;
    let mut k: usize = 0;
    while ok && k < code.len()
        invariant
            k <= code.len(),
            code@ == body.pairing_code@,
            ok ==> code.len() == 27,
            ok ==> forall|j: int| 0 <= j < k ==> is_code_char(#[trigger] code@[j]),
            !ok ==> !(code@.len() == 27 && forall|j: int|
                0 <= j < code@.len() ==> is_code_char(#[trigger] code@[j])),
        decreases code.len() - k,
    {
        let c = code[k];
        if !(('A' <= c && c <= 'Z') || ('a' <= c && c <= 'z') || ('0' <= c && c <= '9') || c == '-'
            || c == '_') {
            ok = false;
        }
        k = k + 1;
    }
    if !ok {
        return Err(AppError::not_found("Pairing code is invalid"));
    }
    Ok(())
}

/// A registration whose device name, agent version and pairing code are
/// well formed passes the checks exactly when its platform is one the
/// protocol names: every `Platform` spelling, which is also what an agent on
/// either host reports, is accepted, and any other text is refused with the
/// platform error.
pub proof fn lemma_registration_platforms(body: RegisterRequest)
    requires
        1 <= body.device_name@.len() <= 64,
        forall|i: int| 0 <= i < body.device_name@.len() ==> !is_control_char(#[trigger] body.device_name@[i]),
        is_semver_text(body.agent_version@),
        body.pairing_code@.len() == 27,
        forall|i: int| 0 <= i < body.pairing_code@.len() ==> is_code_char(#[trigger] body.pairing_code@[i]),
    ensures
        (exists|p: Platform| body.platform@ == #[trigger] p.wire()) ==> register_fault(body) is None,
        body.platform@ == platform_name(true) || body.platform@ == platform_name(false)
            ==> register_fault(body) is None,
        (forall|p: Platform| body.platform@ != #[trigger] p.wire()) ==> register_fault(body) == Some(
            (
                STATUS_BAD_REQUEST,
                ErrorCode::ProtocolError,
                "platform must be windows-x64 or ubuntu-x64"@,
            ),
        ),
{
    let name = body.device_name@;
    assert(!(exists|i: int| 0 <= i < name.len() && is_control_char(#[trigger] name[i])));
    if forall|p: Platform| body.platform@ != #[trigger] p.wire() {
        assert(body.platform@ != Platform::WindowsX64.wire());
        assert(body.platform@ != Platform::UbuntuX64.wire());
    }
}

/// A registration passes the checks exactly when its device name has 1 to
/// 64 characters and no control character, its platform is one the protocol
/// names, its agent version is semver and its pairing code is 27 characters
/// of the base64url alphabet; a failing one is refused with a bad request,
/// but for a pairing code of the wrong shape, answered as an unknown code.
pub proof fn lemma_registration_checks(body: RegisterRequest)
    ensures
        register_fault(body) is None <==> {
            &&& 1 <= body.device_name@.len() <= 64
            &&& forall|i: int| 0 <= i < body.device_name@.len() ==> !is_control_char(
                #[trigger] body.device_name@[i],
            )
            &&& exists|p: Platform| body.platform@ == #[trigger] p.wire()
            &&& is_semver_text(body.agent_version@)
            &&& body.pairing_code@.len() == 27
            &&& forall|i: int| 0 <= i < body.pairing_code@.len() ==> is_code_char(
                #[trigger] body.pairing_code@[i],
            )
        },
        register_fault(body) matches Some((status, code, _)) ==> (status == STATUS_BAD_REQUEST
            && code == ErrorCode::ProtocolError) || (status == STATUS_NOT_FOUND && code
            == ErrorCode::PairingCodeInvalid),
{
    if body.platform@ == Platform::WindowsX64.wire() {
        assert(exists|p: Platform| body.platform@ == #[trigger] p.wire());
    }
    if body.platform@ == Platform::UbuntuX64.wire() {
        assert(exists|p: Platform| body.platform@ == #[trigger] p.wire());
    }
    if exists|p: Platform| body.platform@ == #[trigger] p.wire() {
        let p = choose|p: Platform| body.platform@ == #[trigger] p.wire();
        assert(p == Platform::WindowsX64 || p == Platform::UbuntuX64);
    }
}

/// The quota on unconsumed pairing codes: a request is refused once the
/// account holds the maximum.
pub fn check_pairing_code_quota(outstanding: i64) -> (r: Result<(), AppError>)
    ensures
        outstanding < MAX_UNCONSUMED_PAIRING_CODES ==> r is Ok,
        outstanding >= MAX_UNCONSUMED_PAIRING_CODES ==> (r matches Err(e) && e.status
            == STATUS_CONFLICT && e.code == ErrorCode::QuotaExceeded && e.message@
            == "Account already has the maximum of 16 unconsumed pairing codes"@),
{
    if outstanding >= MAX_UNCONSUMED_PAIRING_CODES {
        return Err(AppError::conflict("Account already has the maximum of 16 unconsumed pairing codes"));
    }
    Ok(())
}

/// The quota on an account's devices: a registration is refused once the
/// account holds the maximum.
pub fn check_device_quota(devices: i64) -> (r: Result<(), AppError>)
    ensures
        devices < MAX_DEVICES_PER_USER ==> r is Ok,
        devices >= MAX_DEVICES_PER_USER ==> (r matches Err(e) && e.status == STATUS_CONFLICT
            && e.code == ErrorCode::QuotaExceeded && e.message@
            == "Account already has the maximum of 32 devices"@),
{
    if devices >= MAX_DEVICES_PER_USER {
        return Err(AppError::conflict("Account already has the maximum of 32 devices"));
    }
    Ok(())
}

/// Two lowercase hexadecimal digits per byte.
pub open spec fn hex_text(b: Seq<u8>) -> Seq<char>
    decreases b.len(),
{
    if b.len() == 0 {
        Seq::empty()
    } else {
        hex_text(b.drop_last()) + seq![
            hex_char((b.last() / 16) as nat),
            hex_char((b.last() % 16) as nat),
        ]
    }
}

fn hex_digit(d: u8) -> (r: char)
    requires
        d < 16,
    ensures
        r == hex_char(d as nat),
{
    if d < 10 {
        if d == 0 { '0' }
        else if d == 1 { '1' }
        else if d == 2 { '2' }
        else if d == 3 { '3' }
        else if d == 4 { '4' }
        else if d == 5 { '5' }
        else if d == 6 { '6' }
        else if d == 7 { '7' }
        else if d == 8 { '8' }
        else { '9' }
    } else if d == 10 { 'a' }
    else if d == 11 { 'b' }
    else if d == 12 { 'c' }
    else if d == 13 { 'd' }
    else if d == 14 { 'e' }
    else { 'f' }
}

/// `bytes` in lowercase hexadecimal, for a rate-limit key that must not
/// hold a secret.
pub fn hex_key(bytes: &[u8]) -> (r: String)
    ensures
        r@ == hex_text(bytes@),
{
    let mut out: Vec<char> = Vec::new();
    let mut i: usize = 0;
    while i < bytes.len()
        invariant
            i <= bytes.len(),
            out@ == hex_text(bytes@.subrange(0, i as int)),
        decreases bytes.len() - i,
    {
        let b = bytes[i];
        out.push(hex_digit(b / 16));
        out.push(hex_digit(b % 16));
        i = i + 1;
        let ghost t = bytes@.subrange(0, i as int);
        assert(t.drop_last() =~= bytes@.subrange(0, i - 1));
        assert(out@ =~= hex_text(t));
    }
    assert(bytes@.subrange(0, i as int) =~= bytes@);
    string_from_chars(out.as_slice())
}

/// The rate-limit key for creating pairing codes: one per account.
pub fn pairing_create_rate_key(user_id: &str) -> (r: String)
    ensures
        r@ == "pairing-create:"@ + user_id@,
{
    concat("pairing-create:", user_id)
}

/// The rate-limit key for registrations from one address.
pub fn register_ip_rate_key(ip: &str) -> (r: String)
    ensures
        r@ == "register-ip:"@ + ip@,
{
    concat("register-ip:", ip)
}

/// The rate-limit key for registrations that try one pairing code, by the
/// code's digest in hexadecimal, so that guesses spread over many addresses
/// still count against the code.
pub fn register_code_rate_key(code_digest: &[u8]) -> (r: String)
    ensures
        r@ == "register-code:"@ + hex_text(code_digest@),
{
    let hex = hex_key(code_digest);
    concat("register-code:", hex.as_str())
}

/// The rate-limit key for listing an account's devices.
pub fn devices_rate_key(user_id: &str) -> (r: String)
    ensures
        r@ == "devices:"@ + user_id@,
{
    concat("devices:", user_id)
}

/// The answer to revoking a pairing code: another account's code is
/// reported missing rather than forbidden, so that the answer does not
/// confirm that the id exists.
pub fn revocation_outcome(revoked: bool) -> (r: Result<(), AppError>)
    ensures
        revoked ==> r is Ok,
        !revoked ==> (r matches Err(e) && e.status == STATUS_NOT_FOUND && e.code
            == ErrorCode::PairingCodeInvalid && e.message@ == "Pairing code not found"@),
{
    if revoked {
        Ok(())
    } else {
        Err(AppError::not_found("Pairing code not found"))
    }
}

/// The answer to unbinding a device: done; forbidden when the device
/// exists but belongs to another account (a client only sends ids from its
/// own list, so a mismatch is a real ownership problem); else not found.
pub fn deletion_outcome(deleted: bool, exists: bool) -> (r: Result<(), AppError>)
    ensures
        deleted ==> r is Ok,
        !deleted && exists ==> (r matches Err(e) && e.status == STATUS_FORBIDDEN && e.code
            == ErrorCode::DeviceForbidden),
        !deleted && !exists ==> (r matches Err(e) && e.status == STATUS_NOT_FOUND
            && e.message@ == "Device not found"@),
{
    if deleted {
        Ok(())
    } else if exists {
        Err(AppError::forbidden())
    } else {
        Err(AppError::not_found("Device not found"))
    }
}

} // verus!
