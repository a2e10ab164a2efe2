//! String-slice comparison for the event dispatchers.
//!
//! Menu and tray events arrive as plain string identifiers; the dispatch
//! tables compare them against the six stable identifier literals.

use vstd::prelude::*;

verus! {

/// Relies on `str`'s `PartialEq` impl: two string slices compare equal
/// exactly when they consist of the same characters.
#[verifier::external_body]
pub(crate) fn str_eq(a: &str, b: &str) -> (r: bool)
    ensures
        r == (a@ == b@),
{
    a == b
}

} // verus!
