//! The computation behind the Python module's `a` export.

use vstd::prelude::*;

verus! {

/// The reply of the `a` export: the received text with `"aaaaa"` appended.
pub fn a(input: String) -> (r: String)
    ensures
        r@ == input@ + "aaaaa"@,
{
    input.concat("aaaaa")
}

} // verus!
