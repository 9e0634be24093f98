//! WebSocket close codes.

use vstd::prelude::*;

verus! {

pub const NORMAL: u16 = 1000;
pub const GOING_AWAY: u16 = 1001;
pub const PROTOCOL: u16 = 4400;
pub const UNAUTHORIZED: u16 = 4401;
pub const FORBIDDEN: u16 = 4403;
pub const TIMEOUT: u16 = 4408;
pub const CONFLICT: u16 = 4409;
pub const TOO_LARGE: u16 = 4413;
pub const INTERNAL: u16 = 4500;

} // verus!
