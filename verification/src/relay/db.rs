//! The rows the relay stores.

use vstd::prelude::*;

verus! {

/// An account.
#[derive(Debug, Clone)]
pub struct User {
    pub id: u128,
    pub login: String,
    pub password_digest: String,
}

} // verus!
