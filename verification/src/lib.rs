use vstd::prelude::*;

pub mod cc_mod;
pub mod lua_api;
pub mod py;
pub mod roundtrip;
pub mod utils;
pub mod wasi;

verus! {

/// Identity on an optional flag.
pub fn c(a: Option<bool>) -> (r: Option<bool>)
    ensures
        r == a,
{
    a
}

} // verus!
