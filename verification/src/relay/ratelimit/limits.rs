//! The limits the HTTPS surface applies, each a function since a limit is a
//! value of its own type.

use vstd::prelude::*;
use super::Limit;

verus! {

/// 5 login attempts per minute; retry after a minute.
pub fn login() -> (r: Limit)
    ensures
        r == (Limit { max: 5, window_secs: 60, retry_after_secs: 60 }),
{
    Limit::new(5, 60, 60)
}

/// 5 sign-ups per hour; retry after an hour.
pub fn sign_up() -> (r: Limit)
    ensures
        r == (Limit { max: 5, window_secs: 3600, retry_after_secs: 3600 }),
{
    Limit::new(5, 3600, 3600)
}

/// 10 pairing codes per hour; retry after five minutes.
pub fn create_pairing_code() -> (r: Limit)
    ensures
        r == (Limit { max: 10, window_secs: 3600, retry_after_secs: 300 }),
{
    Limit::new(10, 3600, 300)
}

/// 10 registrations per minute from one address; retry after a minute.
pub fn register_by_ip() -> (r: Limit)
    ensures
        r == (Limit { max: 10, window_secs: 60, retry_after_secs: 60 }),
{
    Limit::new(10, 60, 60)
}

/// 5 registrations per hour against one pairing code; retry after an hour.
pub fn register_by_code() -> (r: Limit)
    ensures
        r == (Limit { max: 5, window_secs: 3600, retry_after_secs: 3600 }),
{
    Limit::new(5, 3600, 3600)
}

/// 60 device listings per minute; retry after ten seconds.
pub fn list_devices() -> (r: Limit)
    ensures
        r == (Limit { max: 60, window_secs: 60, retry_after_secs: 10 }),
{
    Limit::new(60, 60, 10)
}

/// 30 WebSocket upgrades per minute; retry after a minute.
pub fn ws_upgrade() -> (r: Limit)
    ensures
        r == (Limit { max: 30, window_secs: 60, retry_after_secs: 60 }),
{
    Limit::new(30, 60, 60)
}

} // verus!
