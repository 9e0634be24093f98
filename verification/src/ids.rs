//! Identifiers in text: what the `uuid` crate reads from a UUID's spelling.

use vstd::prelude::*;

verus! {

/// The number `uuid` gives a UUID spelled `text` (its `parse_str` accepts
/// the hyphenated, simple, braced and URN forms), if it is one.
pub uninterp spec fn uuid_value(text: Seq<char>) -> Option<u128>;

/// Parses `text` as a UUID with `uuid::Uuid::parse_str` and takes its
/// 128-bit number; `None` when the crate refuses the text. The result
/// depends on the text alone.
#[verifier::external_body]
pub(crate) fn parse_uuid(text: &str) -> (r: Option<u128>)
    ensures
        r == uuid_value(text@),
{
    match uuid::Uuid::parse_str(text) {
        Ok(u) => Some(u.as_u128()),
        Err(_) => None,
    }
}

} // verus!
