//! Wire bodies and parameters of the patch calls the controllers make:
//! merge patches of `/status`, of `spec.suspended` and of one
//! annotation, and the forced server-side-apply posture.
//!
//! The calls themselves go to the Kubernetes API and are made by the
//! controllers; this module builds what is handed to them.

use kube::api::PatchParams;
use vstd::prelude::*;

verus! {

/// The JSON object with the single entry `key: value`.
pub uninterp spec fn json_object_of(key: Seq<char>, value: serde_json::Value) -> serde_json::Value;

/// The JSON boolean `b`.
pub uninterp spec fn json_of_bool(b: bool) -> serde_json::Value;

/// The parameters `PatchParams::apply(manager)` builds.
pub uninterp spec fn ssa_apply_params(manager: Seq<char>) -> PatchParams;

/// The parameters `params.force()` builds.
pub uninterp spec fn forced_params(params: PatchParams) -> PatchParams;

/// `<serde_json::Value as FromIterator<(K, V)>>::from_iter` on one pair:
/// the object whose only entry maps `key` to `value`.
#[verifier::external_body]
fn single_entry_object(key: &str, value: serde_json::Value) -> (v: serde_json::Value)
    ensures
        v == json_object_of(key@, value),
{
    <serde_json::Value as std::iter::FromIterator<(String, serde_json::Value)>>::from_iter([(key.to_owned(), value)])
}

/// `<serde_json::Value as From<bool>>::from`: the JSON boolean `b`.
#[verifier::external_body]
fn bool_value(b: bool) -> (v: serde_json::Value)
    ensures
        v == json_of_bool(b),
{
    serde_json::Value::from(b)
}

/// `kube::api::PatchParams::apply`: server-side-apply parameters owned by
/// the field manager `manager`, otherwise at their defaults.
pub assume_specification[ PatchParams::apply ](manager: &str) -> (p: PatchParams)
    ensures
        p == ssa_apply_params(manager@),
;

/// `kube::api::PatchParams::force`: the same parameters with conflicts
/// forced through.
pub assume_specification[ PatchParams::force ](params: PatchParams) -> (p: PatchParams)
    ensures
        p == forced_params(params),
;

/// The merge-patch body `{"status": status}`.
pub fn merge_status_body(status: serde_json::Value) -> (v: serde_json::Value)
    ensures
        v == json_object_of("status"@, status),
{
    single_entry_object("status", status)
}

/// The merge-patch body `{"spec": {"suspended": suspended}}`.
pub fn spec_suspended_body(suspended: bool) -> (v: serde_json::Value)
    ensures
        v == json_object_of("spec"@, json_object_of("suspended"@, json_of_bool(suspended))),
{
    let flag = bool_value(suspended);
    let inner = single_entry_object("suspended", flag);
    single_entry_object("spec", inner)
}

/// The merge-patch body `{"metadata": {"annotations": {key: value}}}`;
/// a JSON null `value` removes the annotation.
pub fn annotation_body(key: &str, value: serde_json::Value) -> (v: serde_json::Value)
    ensures
        v == json_object_of(
            "metadata"@,
            json_object_of("annotations"@, json_object_of(key@, value)),
        ),
{
    let entry = single_entry_object(key, value);
    let annotations = single_entry_object("annotations", entry);
    single_entry_object("metadata", annotations)
}

/// Server-side-apply parameters for `field_manager`, forced through
/// conflicts.
pub fn apply_patch_params(field_manager: &str) -> (p: PatchParams)
    ensures
        p == forced_params(ssa_apply_params(field_manager@)),
{
    PatchParams::apply(field_manager).force()
}

} // verus!
