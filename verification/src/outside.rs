//! Outside values the library carries through unchanged, and the
//! wall-clock read.

use vstd::prelude::*;

verus! {

/// A free-form JSON document (`serde_json::Value`), carried opaquely.
#[verifier::external_type_specification]
#[verifier::external_body]
pub struct ExJsonValue(serde_json::Value);

/// `<serde_json::Value as Clone>::clone`: the derived deep copy, equal to
/// the original document.
pub assume_specification[ <serde_json::Value as Clone>::clone ](v: &serde_json::Value) -> (res:
    serde_json::Value)
    ensures
        res == *v,
;

/// A controller's requeue decision (`kube::runtime::controller::Action`),
/// carried opaquely.
#[verifier::external_type_specification]
#[verifier::external_body]
pub struct ExAction(kube::runtime::controller::Action);

/// Query parameters of a Kubernetes patch call
/// (`kube::api::PatchParams`), carried opaquely.
#[verifier::external_type_specification]
#[verifier::external_body]
pub struct ExPatchParams(kube::api::PatchParams);

/// An instant in UTC, as seconds since the Unix epoch plus the
/// nanoseconds into that second.
#[derive(Clone, Copy, Debug, PartialEq, Eq, Hash, PartialOrd, Ord, Structural)]
pub struct Timestamp {
    pub seconds: i64,
    pub nanos: u32,
}

impl Timestamp {
    /// The instant `seconds` after the Unix epoch, on a whole second.
    pub fn at_epoch_second(seconds: i64) -> (t: Timestamp)
        ensures
            t.seconds == seconds,
            t.nanos == 0,
    {
        Timestamp { seconds, nanos: 0 }
    }
}

/// `chrono::Utc::now`, read as seconds and sub-second nanoseconds since
/// the Unix epoch. Nothing is promised of the instant returned.
#[verifier::external_body]
pub(crate) fn utc_now() -> Timestamp {
    let now = chrono::Utc::now();
    Timestamp { seconds: now.timestamp(), nanos: now.timestamp_subsec_nanos() }
}

/// Named result of `serde_json::Value::is_null` on `v`: the document is
/// JSON null.
pub uninterp spec fn json_is_null(v: serde_json::Value) -> bool;

/// `serde_json::Value::Null`, the JSON null document, on which
/// `Value::is_null` is true.
#[verifier::external_body]
pub(crate) fn json_null() -> (v: serde_json::Value)
    ensures
        json_is_null(v),
{
    serde_json::Value::Null
}

} // verus!
