//! `RoutingSpec` — declared DNS + Ingress edges a Process exposes.
//!
//! Two hostname forms:
//!
//! 1. **Per-instance** — `${app}.${eph_id}.${cluster}.${loc}.${domain}`,
//!    where `eph_id` is the hostname's `instance` when set, or a short
//!    content hash of the Process spec when unset.
//! 2. **Stable claim** — `${app}.${cluster}.${loc}.${domain}`, emitted
//!    iff `stable_name_claim` is set and this Process currently holds the
//!    claim for `(cluster, app)`.

use crate::text::{owned, IntoText};
use std::collections::BTreeMap;
use vstd::prelude::*;

verus! {

/// Declared external edges (DNS + Ingress) a Process exposes.
#[derive(Clone, Debug)]
pub struct RoutingSpec {
    /// Hostnames this Process answers on.
    pub hostnames: Vec<RoutingHostname>,
    /// Single backend Service every hostname routes to.
    pub backend: RoutingBackend,
    /// Additionally emit the unprefixed form of every hostname while this
    /// Process holds the claim for `(cluster, app)`.
    pub stable_name_claim: bool,
    /// Claim arbitration priority; higher wins. Default 0.
    pub priority: i32,
}

/// One entry in `RoutingSpec.hostnames`.
#[derive(Clone, Debug, PartialEq, Eq)]
pub struct RoutingHostname {
    /// Application slot — `api`, `gateway`, `web`, …
    pub app: String,
    /// Named instance segment; `None` means a content-hash segment.
    pub instance: Option<String>,
    /// Cluster override; `None` means the reconciler's configured cluster.
    pub cluster: Option<String>,
}

/// Backend Service the FQDN's Ingress routes traffic to.
#[derive(Clone, Debug, PartialEq, Eq)]
pub struct RoutingBackend {
    /// In-cluster Service name (same namespace as the Process).
    pub service: String,
    /// Port number on the Service.
    pub port: u16,
    /// Cluster issuer for TLS; `None` means the reconciler default.
    pub tls_issuer: Option<String>,
    /// Annotations stamped on every emitted Ingress.
    pub ingress_annotations: BTreeMap<String, String>,
}

impl RoutingSpec {
    /// Number of FQDNs emitted: one per hostname, two per hostname while
    /// the claim is held.
    pub open spec fn fqdn_count(&self, claim_held: bool) -> nat {
        self.hostnames@.len() * if claim_held {
            2nat
        } else {
            1nat
        }
    }

    /// True iff at least one hostname is declared.
    pub fn has_hostnames(&self) -> (b: bool)
        ensures
            b == (self.hostnames@.len() > 0),
    {
        !self.hostnames.is_empty()
    }

    /// Total count of FQDNs this Process will emit.
    pub fn emitted_fqdn_count(&self, claim_held: bool) -> (n: usize)
        requires
            claim_held ==> self.hostnames@.len() * 2 <= usize::MAX,
        ensures
            n as nat == self.fqdn_count(claim_held),
    {
        self.hostnames.len() * if claim_held {
            2
        } else {
            1
        }
    }
}

impl RoutingHostname {
    /// The entry names its instance (a present, non-empty instance).
    pub open spec fn named(&self) -> bool {
        self.instance matches Some(i) && i@.len() > 0
    }

    /// True iff this entry resolves to a named slot (vs content hash).
    pub fn is_named(&self) -> (b: bool)
        ensures
            b == self.named(),
    {
        match &self.instance {
            Some(i) => !i.as_str().is_empty(),
            None => false,
        }
    }

    /// The cluster override, or `fallback` when none is set; an explicit
    /// empty override is returned as `""`.
    pub fn cluster_or<'a>(&'a self, fallback: &'a str) -> (s: &'a str)
        ensures
            s@ == (match self.cluster {
                Some(c) => c@,
                None => fallback@,
            }),
    {
        match &self.cluster {
            Some(c) => c.as_str(),
            None => fallback,
        }
    }

    /// A named-slot hostname with the configured cluster.
    pub fn instanced(app: impl IntoText, instance: impl IntoText) -> (h: RoutingHostname)
        ensures
            h.app@ == app.text(),
            h.instance matches Some(i) && i@ == instance.text(),
            h.cluster is None,
    {
        RoutingHostname {
            app: app.into_text(),
            instance: Some(instance.into_text()),
            cluster: None,
        }
    }

    /// A content-hashed hostname with the configured cluster.
    pub fn content_hashed(app: impl IntoText) -> (h: RoutingHostname)
        ensures
            h.app@ == app.text(),
            h.instance is None,
            h.cluster is None,
    {
        RoutingHostname { app: app.into_text(), instance: None, cluster: None }
    }
}

impl RoutingBackend {
    /// A backend with the default TLS issuer and no Ingress annotations.
    pub fn plain(service: impl IntoText, port: u16) -> (b: RoutingBackend)
        ensures
            b.service@ == service.text(),
            b.port == port,
            b.tls_issuer is None,
            b.ingress_annotations@.len() == 0,
    {
        RoutingBackend {
            service: service.into_text(),
            port,
            tls_issuer: None,
            ingress_annotations: BTreeMap::new(),
        }
    }
}

/// Which of the two FQDN shapes a routing edge carries.
#[derive(Clone, Copy, Debug, PartialEq, Eq, Structural)]
pub enum RoutingForm {
    /// The unprefixed claim form.
    Stable,
    /// The per-instance form.
    Instance,
}

impl RoutingForm {
    /// Wire form stamped on edge labels and annotations.
    pub open spec fn label(self) -> Seq<char> {
        match self {
            RoutingForm::Stable => "stable"@,
            RoutingForm::Instance => "instance"@,
        }
    }

    /// Wire form stamped on edge labels and annotations.
    pub fn as_str(self) -> (s: &'static str)
        ensures
            s@ == self.label(),
    {
        match self {
            RoutingForm::Stable => "stable",
            RoutingForm::Instance => "instance",
        }
    }

    /// `Stable` for a stable edge, `Instance` otherwise.
    pub fn from_is_stable(is_stable: bool) -> (f: RoutingForm)
        ensures
            f == (if is_stable {
                RoutingForm::Stable
            } else {
                RoutingForm::Instance
            }),
    {
        if is_stable {
            RoutingForm::Stable
        } else {
            RoutingForm::Instance
        }
    }

    /// The wire form as an owned string.
    pub fn to_string(self) -> (s: String)
        ensures
            s@ == self.label(),
    {
        owned(self.as_str())
    }
}

/// A named instance makes a hostname named exactly when the instance is
/// non-empty; a content-hashed hostname is never named; the two routing
/// forms have distinct wire labels, so the form round-trips through the
/// stable flag.
pub proof fn law_routing_forms(h: RoutingHostname, b: bool)
    ensures
        (h.instance matches Some(i) && i@.len() > 0) ==> h.named(),
        h.instance is None ==> !h.named(),
        RoutingForm::Stable.label() != RoutingForm::Instance.label(),
        (if b {
            RoutingForm::Stable
        } else {
            RoutingForm::Instance
        }) is Stable == b,
{
    reveal_strlit("stable");
    reveal_strlit("instance");
    assert(RoutingForm::Stable.label().len() != RoutingForm::Instance.label().len());
}

/// Holding the claim doubles the FQDN count.
pub proof fn law_claim_doubles_fqdns(r: RoutingSpec)
    ensures
        r.fqdn_count(true) == 2 * r.fqdn_count(false),
{
}

} // verus!
