//! What a builder's setter accepts: a value of the field's type, or a value
//! that converts to it. A conversion that fails is kept in the builder as the
//! reason the field has no value, and `try_from` reports it.

use vstd::prelude::*;
use super::error::ConversionError;
use crate::text::concat;

verus! {

/// A value that converts to a `T`, or says why it cannot.
pub trait Supply<T>: Sized {
    /// Whether `r` is what converting this value gives.
    spec fn converts_to(&self, r: Result<T, ConversionError>) -> bool;

    fn supply(self) -> (r: Result<T, ConversionError>)
        ensures
            self.converts_to(r),
    ;
}

/// A value of the field's type is supplied as it is.
impl<T> Supply<T> for T {
    open spec fn converts_to(&self, r: Result<T, ConversionError>) -> bool {
        r == Ok::<T, ConversionError>(*self)
    }

    fn supply(self) -> (r: Result<T, ConversionError>) {
        Ok(self)
    }
}

/// The reason a field named `name` holds when converting its value failed
/// with `e`.
pub open spec fn conversion_reason(name: Seq<char>, e: ConversionError) -> Seq<char> {
    "error converting supplied value for "@ + name + ": "@ + e.0@
}

/// `field` is what a setter of the field named `name` stores for `value`:
/// the converted value, or the reason converting it failed.
pub open spec fn supplied_as<T, V: Supply<T>>(value: V, field: Result<T, String>, name: Seq<char>) -> bool {
    match field {
        Ok(v) => value.converts_to(Ok(v)),
        Err(e) => exists|c: ConversionError|
            value.converts_to(Err(c)) && e@ == #[trigger] conversion_reason(name, c),
    }
}

/// Converts `value` for the field named `name`.
pub fn supply_field<T, V: Supply<T>>(value: V, name: &str) -> (r: Result<T, String>)
    ensures
        supplied_as(value, r, name@),
{
    let ghost v = value;
    match value.supply() {
        Ok(t) => Ok(t),
        Err(c) => {
            let head = concat("error converting supplied value for ", name);
            let with_name = concat(head.as_str(), ": ");
            let reason = concat(with_name.as_str(), c.0.as_str());
            proof {
                assert(reason@ == conversion_reason(name@, c));
            }
            Err(reason)
        },
    }
}

} // verus!
