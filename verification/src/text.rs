use vstd::prelude::*;

verus! {

/// Equality of two string slices, as `str`'s `PartialEq::eq` in the standard
/// library decides it: the slices are equal exactly when they hold the same
/// characters.
#[verifier::external_body]
pub(crate) fn str_eq(a: &str, b: &str) -> (same: bool)
    ensures
        same == (a@ == b@),
{
    a == b
}

} // verus!
