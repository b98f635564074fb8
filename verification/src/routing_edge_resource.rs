//! The closed set of Kubernetes resources a routing edge emits: one
//! `networking.k8s.io/v1` Ingress and one `externaldns.k8s.io/v1alpha1`
//! DNSEndpoint per declared hostname.

use crate::k8s_wire_identity::K8sWireIdentity;
use vstd::prelude::*;

verus! {

/// A Kubernetes resource emitted for a routing edge.
#[derive(Clone, Copy, Debug, PartialEq, Eq, Hash, Structural)]
pub enum RoutingEdgeResource {
    /// The `networking.k8s.io/v1` Ingress.
    Ingress,
    /// The `externaldns.k8s.io/v1alpha1` DNSEndpoint.
    DnsEndpoint,
}

impl RoutingEdgeResource {
    /// Every variant, each once.
    pub const ALL: [RoutingEdgeResource; 2] = [
        RoutingEdgeResource::Ingress,
        RoutingEdgeResource::DnsEndpoint,
    ];

    /// The resource's `apiVersion`.
    pub open spec fn api_version_text(self) -> Seq<char> {
        match self {
            RoutingEdgeResource::Ingress => "networking.k8s.io/v1"@,
            RoutingEdgeResource::DnsEndpoint => "externaldns.k8s.io/v1alpha1"@,
        }
    }

    /// The resource's `kind`.
    pub open spec fn kind_text(self) -> Seq<char> {
        match self {
            RoutingEdgeResource::Ingress => "Ingress"@,
            RoutingEdgeResource::DnsEndpoint => "DNSEndpoint"@,
        }
    }

    /// The resource's `apiVersion`.
    pub fn api_version(self) -> (s: &'static str)
        ensures
            s@ == self.api_version_text(),
    {
        match self {
            RoutingEdgeResource::Ingress => "networking.k8s.io/v1",
            RoutingEdgeResource::DnsEndpoint => "externaldns.k8s.io/v1alpha1",
        }
    }

    /// The resource's `kind`.
    pub fn kind(self) -> (s: &'static str)
        ensures
            s@ == self.kind_text(),
    {
        match self {
            RoutingEdgeResource::Ingress => "Ingress",
            RoutingEdgeResource::DnsEndpoint => "DNSEndpoint",
        }
    }

    /// The resource's `(apiVersion, kind)` pair.
    pub fn wire_identity(self) -> (id: K8sWireIdentity)
        ensures
            id.api_version@ == self.api_version_text(),
            id.kind@ == self.kind_text(),
    {
        K8sWireIdentity::new(self.api_version(), self.kind())
    }
}

/// The two edge resources differ in both `apiVersion` and `kind`, so each
/// projection identifies the variant.
pub proof fn law_edge_resources_distinct()
    ensures
        forall|a: RoutingEdgeResource, b: RoutingEdgeResource|
            a.api_version_text() == b.api_version_text() ==> a == b,
        forall|a: RoutingEdgeResource, b: RoutingEdgeResource|
            a.kind_text() == b.kind_text() ==> a == b,
{
    reveal_strlit("networking.k8s.io/v1");
    reveal_strlit("externaldns.k8s.io/v1alpha1");
    reveal_strlit("Ingress");
    reveal_strlit("DNSEndpoint");
    assert(RoutingEdgeResource::Ingress.api_version_text().len()
        != RoutingEdgeResource::DnsEndpoint.api_version_text().len());
    assert(RoutingEdgeResource::Ingress.kind_text().len()
        != RoutingEdgeResource::DnsEndpoint.kind_text().len());
}

} // verus!
