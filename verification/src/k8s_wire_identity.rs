//! The `(apiVersion, kind)` pair that identifies a Kubernetes resource
//! type on the wire.

use vstd::prelude::*;

verus! {

/// A Kubernetes `(apiVersion, kind)` pair, as stamped on the wire.
#[derive(Clone, Copy, Debug, PartialEq, Eq)]
pub struct K8sWireIdentity {
    /// The `apiVersion` field.
    pub api_version: &'static str,
    /// The `kind` field.
    pub kind: &'static str,
}

impl K8sWireIdentity {
    /// Pair an `apiVersion` with a `kind`.
    pub fn new(api_version: &'static str, kind: &'static str) -> (id: K8sWireIdentity)
        ensures
            id.api_version@ == api_version@,
            id.kind@ == kind@,
    {
        K8sWireIdentity { api_version, kind }
    }
}

} // verus!
