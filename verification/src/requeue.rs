//! Named requeue intents of the reconcilers: how long a controller waits
//! before it reconciles an object again.

use kube::runtime::controller::Action;
use vstd::prelude::*;

verus! {

/// The requeue action built by `Action::requeue(Duration::from_secs(secs))`.
pub uninterp spec fn requeue_action(secs: u64) -> Action;

/// `kube::runtime::controller::Action::requeue` on a whole number of
/// seconds: the action is a function of `secs` alone.
#[verifier::external_body]
fn requeue_for_secs(secs: u64) -> (a: Action)
    ensures
        a == requeue_action(secs),
{
    Action::requeue(std::time::Duration::from_secs(secs))
}

/// Second count of the tight re-poll intent.
pub const TICK_SECONDS: u64 = 1;

/// Second count of the short-retry intent.
pub const SHORT_RETRY_SECONDS: u64 = 5;

/// Second count of the steady-state heartbeat intent.
pub const HEARTBEAT_SECONDS: u64 = 30;

/// Requeue the object after `secs` seconds.
pub fn after_secs(secs: u64) -> (a: Action)
    ensures
        a == requeue_action(secs),
{
    requeue_for_secs(secs)
}

/// Requeue after [`TICK_SECONDS`].
pub fn tick() -> (a: Action)
    ensures
        a == requeue_action(TICK_SECONDS),
{
    after_secs(TICK_SECONDS)
}

/// Requeue after [`SHORT_RETRY_SECONDS`].
pub fn short_retry() -> (a: Action)
    ensures
        a == requeue_action(SHORT_RETRY_SECONDS),
{
    after_secs(SHORT_RETRY_SECONDS)
}

/// Requeue after [`HEARTBEAT_SECONDS`].
pub fn heartbeat() -> (a: Action)
    ensures
        a == requeue_action(HEARTBEAT_SECONDS),
{
    after_secs(HEARTBEAT_SECONDS)
}

/// The three named intents wait strictly increasing, hence distinct,
/// numbers of seconds: tick < short retry < heartbeat.
pub proof fn law_requeue_intents_increasing()
    ensures
        TICK_SECONDS < SHORT_RETRY_SECONDS,
        SHORT_RETRY_SECONDS < HEARTBEAT_SECONDS,
{
}

} // verus!
