//! Comparison of string slices.

use vstd::prelude::*;

verus! {

/// `str`'s own `PartialEq::eq`, which the standard library documents as
/// comparing the two slices by content: the result is `true` exactly when
/// both hold the same sequence of characters. Taken on trust.
pub assume_specification[ <str as PartialEq>::eq ](a: &str, b: &str) -> (same: bool)
    ensures
        same == (a@ == b@),
;

} // verus!
