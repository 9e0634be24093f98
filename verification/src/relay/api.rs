//! The HTTPS API: the bodies its routes take and give, and the checks on
//! them.

pub mod auth;
pub mod devices;
