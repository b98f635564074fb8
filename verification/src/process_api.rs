//! Helpers for operations on `Process` objects: the diagnostic head a
//! failed call on one Process is wrapped in.

use crate::qualified::{error_ctx_text, qualified_error_ctx};
use vstd::prelude::*;

verus! {

/// The resource kind named in Process diagnostics.
pub open spec fn process_kind() -> Seq<char> {
    seq!['P', 'r', 'o', 'c', 'e', 's', 's']
}

/// The diagnostic head `<verb> Process <ns>/<name>` for an operation on
/// one Process.
pub fn error_ctx(verb: &str, ns: &str, name: &str) -> (r: String)
    ensures
        r@ == error_ctx_text(verb@, process_kind(), ns@, name@),
{
    proof {
        reveal_strlit("Process");
    }
    qualified_error_ctx(verb, "Process", ns, name)
}

} // verus!
