//! Annotation and label keys stamped on emitted resources.

use vstd::prelude::*;

verus! {

/// Key carrying the routing form (`stable` / `instance`) of an edge.
pub const ROUTING_FORM: &'static str = "tatara.pleme.io/routing-form";

/// Key carrying the application slot of an edge.
pub const APP: &'static str = "tatara.pleme.io/app";

} // verus!
