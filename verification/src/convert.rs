//! The conversion of a value into its own type, as the standard library
//! has it.

use vstd::prelude::*;

verus! {

/// `core::convert::From<T>` for `T` itself, the reflexive conversion of the
/// standard library: it gives back the value it was handed, unchanged.
pub assume_specification<T>[ <T as core::convert::From<T>>::from ](value: T) -> (same: T)
    ensures
        same == value,
;

} // verus!
