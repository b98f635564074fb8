//! The diagnostic for a credential that the auth Secret was expected to
//! supply through the environment.

use vstd::prelude::*;
use vstd::string::StringExecFns;

verus! {

/// `<name> env var (from auth Secret) required`.
pub open spec fn missing_secret_text(name: Seq<char>) -> Seq<char> {
    name + " env var (from auth Secret) required"@
}

/// The error context for a missing secret environment variable.
pub fn missing_secret_message(name: &str) -> (m: String)
    ensures
        m@ == missing_secret_text(name@),
{
    let mut m = name.to_owned();
    m.append(" env var (from auth Secret) required");
    m
}

} // verus!
