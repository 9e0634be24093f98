//! The rules for the accounts an operator creates.

use vstd::prelude::*;
use crate::relay::api::devices::is_control_char;
use crate::relay::api::devices::is_control;
use crate::text::{chars_of, is_unicode_whitespace, is_whitespace};

verus! {

/// What the login rules say of `login`: 1 to 254 characters, none of them
/// whitespace or a control character, since logins end up in log lines and
/// command output.
pub open spec fn login_fault(login: Seq<char>) -> Option<Seq<char>> {
    if login.len() == 0 || login.len() > 254 {
        Some("login must be 1..254 characters"@)
    } else if exists|i: int| 0 <= i < login.len() && (is_control_char(#[trigger] login[i])
        || is_unicode_whitespace(login[i])) {
        Some("login must not contain whitespace or control characters"@)
    } else {
        None
    }
}

pub fn validate_login(login: &str) -> (r: Result<(), String>)
    ensures
        match login_fault(login@) {
            None => r is Ok,
            Some(m) => r matches Err(e) && e@ == m,
        },
{
    let v = chars_of(login);
    if v.len() == 0 || v.len() > 254 {
        return Err("login must be 1..254 characters".to_owned());
    }
    let mut i: usize = 0;
    while i < v.len()
        invariant
            v@ == login@,
            1 <= v.len() <= 254,
            i <= v.len(),
            forall|j: int| 0 <= j < i ==> !(is_control_char(#[trigger] v@[j]) || is_unicode_whitespace(v@[j])),
        decreases v.len() - i,
    {
        if is_control(v[i]) || is_whitespace(v[i]) {
            assert(is_control_char(login@[i as int]) || is_unicode_whitespace(login@[i as int]));
            return Err("login must not contain whitespace or control characters".to_owned());
        }
        i = i + 1;
    }
    Ok(())
}

/// The bounds on a new password: 8 to 1024 bytes.
pub fn check_new_password(password: &str) -> (r: Result<(), String>)
    ensures
        (8 <= password.len() <= 1024) ==> r is Ok,
        !(8 <= password.len() <= 1024) ==> (r matches Err(e) && e@ == "password must be 8..1024 bytes"@),
{
    let n = password.len();
    if n < 8 || n > 1024 {
        return Err("password must be 8..1024 bytes".to_owned());
    }
    Ok(())
}

} // verus!
