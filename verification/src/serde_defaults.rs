//! Plain scalar defaults for optional boolean fields of the specs.

use vstd::prelude::*;

verus! {

/// The "on by default" value.
pub const DEFAULT_TRUE: bool = true;

/// Default for a boolean field that is on unless set.
pub fn default_true() -> (b: bool)
    ensures
        b == DEFAULT_TRUE,
        b,
{
    DEFAULT_TRUE
}

} // verus!
