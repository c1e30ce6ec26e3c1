//! Turning any error with a `Debug` form into a [`LuaError`].

use crate::lua_api::{LuaError, LuaResult};
use std::fmt::Debug;
use vstd::prelude::*;

verus! {

/// `format!("{:?}", e)`: the `Debug` text of a value.
///
/// The text is whatever the value's `Debug` impl writes; nothing is stated of it.
#[verifier::external_body]
fn debug_text<E: Debug>(e: &E) -> String {
    format!("{:?}", e)
}

/// Converts a result's error into a [`LuaError`] that carries the error's `Debug` text.
pub trait Debuged<T> {
    fn debuged(self) -> LuaResult<T>;
}

impl<T, E: Debug> Debuged<T> for Result<T, E> {
    /// A success passes through unchanged; a failure becomes an error whose
    /// message is the `Debug` text of the original error.
    fn debuged(self) -> (r: LuaResult<T>)
        ensures
            self is Ok <==> r is Ok,
            self matches Ok(t) ==> r == Ok::<T, LuaError>(t),
    {
        match self {
            Ok(t) => Ok(t),
            Err(e) => Err(LuaError::from_string(debug_text(&e))),
        }
    }
}

} // verus!
