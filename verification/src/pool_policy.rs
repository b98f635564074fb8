//! The closed sets of the `EphemeralPool` axis: the on-failure
//! replacement policy, the per-slot member state, the pool-wide phase
//! and the on-release return policy.

use crate::text::{owned, str_eq};
use vstd::prelude::*;

verus! {

/// What the pool reconciler does when a member reaches `Failed`.
#[derive(Clone, Copy, Debug, PartialEq, Eq, Hash, Structural)]
pub enum ReplacementPolicy {
    /// The failed member is reaped and replaced immediately.
    ReplaceImmediate,
    /// The failed member stays for inspection; the pool runs short.
    HoldFailed,
    /// Any failure pauses the whole pool until an operator resumes it.
    PausePool,
}

/// A replacement-policy label outside the closed set; carries the input
/// verbatim.
#[derive(Clone, Debug, PartialEq, Eq)]
pub struct UnknownReplacementPolicy(pub String);

impl Default for ReplacementPolicy {
    fn default() -> (p: Self)
        ensures
            p == ReplacementPolicy::ReplaceImmediate,
    {
        ReplacementPolicy::ReplaceImmediate
    }
}

impl ReplacementPolicy {
    /// A Failed member is replaced at once.
    pub open spec fn replaces(self) -> bool {
        self is ReplaceImmediate
    }

    /// A Failed member pauses the whole pool.
    pub open spec fn pauses(self) -> bool {
        self is PausePool
    }

    /// Every policy, in declaration order.
    pub const ALL: [ReplacementPolicy; 3] = [
        ReplacementPolicy::ReplaceImmediate,
        ReplacementPolicy::HoldFailed,
        ReplacementPolicy::PausePool,
    ];

    /// Canonical PascalCase wire label.
    pub open spec fn label(self) -> Seq<char> {
        match self {
            ReplacementPolicy::ReplaceImmediate => "ReplaceImmediate"@,
            ReplacementPolicy::HoldFailed => "HoldFailed"@,
            ReplacementPolicy::PausePool => "PausePool"@,
        }
    }

    /// The policy whose label is `s`, if any.
    pub open spec fn from_label(s: Seq<char>) -> Option<ReplacementPolicy> {
        if s == ReplacementPolicy::ReplaceImmediate.label() {
            Some(ReplacementPolicy::ReplaceImmediate)
        } else if s == ReplacementPolicy::HoldFailed.label() {
            Some(ReplacementPolicy::HoldFailed)
        } else if s == ReplacementPolicy::PausePool.label() {
            Some(ReplacementPolicy::PausePool)
        } else {
            None
        }
    }

    /// Canonical PascalCase wire label.
    pub fn as_str(self) -> (s: &'static str)
        ensures
            s@ == self.label(),
    {
        match self {
            ReplacementPolicy::ReplaceImmediate => "ReplaceImmediate",
            ReplacementPolicy::HoldFailed => "HoldFailed",
            ReplacementPolicy::PausePool => "PausePool",
        }
    }

    /// The label as an owned string (the text form of the policy).
    pub fn to_string(self) -> (s: String)
        ensures
            s@ == self.label(),
    {
        owned(self.as_str())
    }

    /// Should the pool auto-spawn a replacement for a Failed member?
    pub fn replaces_failed(self) -> (b: bool)
        ensures
            b == self.replaces(),
    {
        match self {
            ReplacementPolicy::ReplaceImmediate => true,
            ReplacementPolicy::HoldFailed | ReplacementPolicy::PausePool => false,
        }
    }

    /// Should reaching Failed on any member pause the whole pool?
    pub fn pauses_on_failure(self) -> (b: bool)
        ensures
            b == self.pauses(),
    {
        match self {
            ReplacementPolicy::PausePool => true,
            ReplacementPolicy::ReplaceImmediate | ReplacementPolicy::HoldFailed => false,
        }
    }

    /// Parse a label (exact, case-sensitive); anything else is rejected
    /// verbatim.
    pub fn parse_label(s: &str) -> (r: Result<ReplacementPolicy, UnknownReplacementPolicy>)
        ensures
            match r {
                Ok(p) => ReplacementPolicy::from_label(s@) == Some(p),
                Err(e) => ReplacementPolicy::from_label(s@) is None && e.0@ == s@,
            },
    {
        if str_eq(s, "ReplaceImmediate") {
            Ok(ReplacementPolicy::ReplaceImmediate)
        } else if str_eq(s, "HoldFailed") {
            Ok(ReplacementPolicy::HoldFailed)
        } else if str_eq(s, "PausePool") {
            Ok(ReplacementPolicy::PausePool)
        } else {
            Err(UnknownReplacementPolicy(owned(s)))
        }
    }
}

impl core::str::FromStr for ReplacementPolicy {
    type Err = UnknownReplacementPolicy;

    fn from_str(s: &str) -> (r: Result<ReplacementPolicy, UnknownReplacementPolicy>)
        ensures
            match r {
                Ok(p) => ReplacementPolicy::from_label(s@) == Some(p),
                Err(e) => ReplacementPolicy::from_label(s@) is None && e.0@ == s@,
            },
    {
        ReplacementPolicy::parse_label(s)
    }
}

/// Per-slot state in the pool's member ledger.
#[derive(Clone, Copy, Debug, PartialEq, Eq, Hash, Structural)]
pub enum MemberState {
    /// The pool reconciler is creating/converging the backing Process.
    Spawning,
    /// The Process is attested and ready for allocation.
    Free,
    /// Held by an allocation.
    Allocated,
    /// The return policy is being applied.
    Returning,
    /// Permanent failure — the member needs operator attention.
    Failed,
}

/// A member-state label outside the closed set; carries the input
/// verbatim.
#[derive(Clone, Debug, PartialEq, Eq)]
pub struct UnknownMemberState(pub String);

impl MemberState {
    /// Every member state, in declaration order.
    pub const ALL: [MemberState; 5] = [
        MemberState::Spawning,
        MemberState::Free,
        MemberState::Allocated,
        MemberState::Returning,
        MemberState::Failed,
    ];

    /// Canonical PascalCase wire label.
    pub open spec fn label(self) -> Seq<char> {
        match self {
            MemberState::Spawning => "Spawning"@,
            MemberState::Free => "Free"@,
            MemberState::Allocated => "Allocated"@,
            MemberState::Returning => "Returning"@,
            MemberState::Failed => "Failed"@,
        }
    }

    /// The member state whose label is `s`, if any.
    pub open spec fn from_label(s: Seq<char>) -> Option<MemberState> {
        if s == MemberState::Spawning.label() {
            Some(MemberState::Spawning)
        } else if s == MemberState::Free.label() {
            Some(MemberState::Free)
        } else if s == MemberState::Allocated.label() {
            Some(MemberState::Allocated)
        } else if s == MemberState::Returning.label() {
            Some(MemberState::Returning)
        } else if s == MemberState::Failed.label() {
            Some(MemberState::Failed)
        } else {
            None
        }
    }

    /// Members in this state count toward the pool's available supply.
    pub open spec fn supply(self) -> bool {
        self is Free || self is Spawning
    }

    /// Canonical PascalCase wire label.
    pub fn as_str(self) -> (s: &'static str)
        ensures
            s@ == self.label(),
    {
        match self {
            MemberState::Spawning => "Spawning",
            MemberState::Free => "Free",
            MemberState::Allocated => "Allocated",
            MemberState::Returning => "Returning",
            MemberState::Failed => "Failed",
        }
    }

    /// The label as an owned string (the text form of the state).
    pub fn to_string(self) -> (s: String)
        ensures
            s@ == self.label(),
    {
        owned(self.as_str())
    }

    /// Is this member in the permanent-failure state?
    pub fn is_failed(self) -> (b: bool)
        ensures
            b == (self is Failed),
    {
        match self {
            MemberState::Failed => true,
            MemberState::Spawning | MemberState::Free | MemberState::Allocated
            | MemberState::Returning => false,
        }
    }

    /// Does this member contribute to the pool's available supply
    /// (ready slots plus slots coming online)?
    pub fn counts_toward_supply(self) -> (b: bool)
        ensures
            b == self.supply(),
    {
        match self {
            MemberState::Free | MemberState::Spawning => true,
            MemberState::Allocated | MemberState::Returning | MemberState::Failed => false,
        }
    }

    /// Parse a label (exact, case-sensitive); anything else is rejected
    /// verbatim.
    pub fn parse_label(s: &str) -> (r: Result<MemberState, UnknownMemberState>)
        ensures
            match r {
                Ok(p) => MemberState::from_label(s@) == Some(p),
                Err(e) => MemberState::from_label(s@) is None && e.0@ == s@,
            },
    {
        if str_eq(s, "Spawning") {
            Ok(MemberState::Spawning)
        } else if str_eq(s, "Free") {
            Ok(MemberState::Free)
        } else if str_eq(s, "Allocated") {
            Ok(MemberState::Allocated)
        } else if str_eq(s, "Returning") {
            Ok(MemberState::Returning)
        } else if str_eq(s, "Failed") {
            Ok(MemberState::Failed)
        } else {
            Err(UnknownMemberState(owned(s)))
        }
    }
}

impl core::str::FromStr for MemberState {
    type Err = UnknownMemberState;

    fn from_str(s: &str) -> (r: Result<MemberState, UnknownMemberState>)
        ensures
            match r {
                Ok(p) => MemberState::from_label(s@) == Some(p),
                Err(e) => MemberState::from_label(s@) is None && e.0@ == s@,
            },
    {
        MemberState::parse_label(s)
    }
}

/// Pool lifecycle phase, observed across the whole member population.
#[derive(Clone, Copy, Debug, PartialEq, Eq, Hash, Structural)]
pub enum PoolPhase {
    /// Just admitted; no members yet.
    Initializing,
    /// Ready count equals the desired size.
    Steady,
    /// Supply is short of the desired size; members are being created.
    ScalingUp,
    /// Supply exceeds the desired size; excess members are being reaped.
    ScalingDown,
    /// The minimum-size constraint is violated.
    Degraded,
    /// The pool is being deleted; every member is being reaped.
    Draining,
}

/// A pool-phase label outside the closed set; carries the input verbatim.
#[derive(Clone, Debug, PartialEq, Eq)]
pub struct UnknownPoolPhase(pub String);

impl Default for PoolPhase {
    fn default() -> (p: Self)
        ensures
            p == PoolPhase::Initializing,
    {
        PoolPhase::Initializing
    }
}

impl PoolPhase {
    /// The pool has converged on its desired supply.
    pub open spec fn steady(self) -> bool {
        self is Steady
    }

    /// The pool is in its absorbing exit state.
    pub open spec fn terminal(self) -> bool {
        self is Draining
    }

    /// Every pool phase, in declaration order.
    pub const ALL: [PoolPhase; 6] = [
        PoolPhase::Initializing,
        PoolPhase::Steady,
        PoolPhase::ScalingUp,
        PoolPhase::ScalingDown,
        PoolPhase::Degraded,
        PoolPhase::Draining,
    ];

    /// Canonical PascalCase wire label.
    pub open spec fn label(self) -> Seq<char> {
        match self {
            PoolPhase::Initializing => "Initializing"@,
            PoolPhase::Steady => "Steady"@,
            PoolPhase::ScalingUp => "ScalingUp"@,
            PoolPhase::ScalingDown => "ScalingDown"@,
            PoolPhase::Degraded => "Degraded"@,
            PoolPhase::Draining => "Draining"@,
        }
    }

    /// The pool phase whose label is `s`, if any.
    pub open spec fn from_label(s: Seq<char>) -> Option<PoolPhase> {
        if s == PoolPhase::Initializing.label() {
            Some(PoolPhase::Initializing)
        } else if s == PoolPhase::Steady.label() {
            Some(PoolPhase::Steady)
        } else if s == PoolPhase::ScalingUp.label() {
            Some(PoolPhase::ScalingUp)
        } else if s == PoolPhase::ScalingDown.label() {
            Some(PoolPhase::ScalingDown)
        } else if s == PoolPhase::Degraded.label() {
            Some(PoolPhase::Degraded)
        } else if s == PoolPhase::Draining.label() {
            Some(PoolPhase::Draining)
        } else {
            None
        }
    }

    /// Canonical PascalCase wire label.
    pub fn as_str(self) -> (s: &'static str)
        ensures
            s@ == self.label(),
    {
        match self {
            PoolPhase::Initializing => "Initializing",
            PoolPhase::Steady => "Steady",
            PoolPhase::ScalingUp => "ScalingUp",
            PoolPhase::ScalingDown => "ScalingDown",
            PoolPhase::Degraded => "Degraded",
            PoolPhase::Draining => "Draining",
        }
    }

    /// The label as an owned string (the text form of the phase).
    pub fn to_string(self) -> (s: String)
        ensures
            s@ == self.label(),
    {
        owned(self.as_str())
    }

    /// Is the pool converged (supply matches desired)?
    pub fn is_steady(self) -> (b: bool)
        ensures
            b == self.steady(),
    {
        match self {
            PoolPhase::Steady => true,
            PoolPhase::Initializing | PoolPhase::ScalingUp | PoolPhase::ScalingDown
            | PoolPhase::Degraded | PoolPhase::Draining => false,
        }
    }

    /// Is the pool in its absorbing exit state (being deleted)?
    pub fn is_terminal(self) -> (b: bool)
        ensures
            b == self.terminal(),
    {
        match self {
            PoolPhase::Draining => true,
            PoolPhase::Initializing | PoolPhase::Steady | PoolPhase::ScalingUp
            | PoolPhase::ScalingDown | PoolPhase::Degraded => false,
        }
    }

    /// Parse a label (exact, case-sensitive); anything else is rejected
    /// verbatim.
    pub fn parse_label(s: &str) -> (r: Result<PoolPhase, UnknownPoolPhase>)
        ensures
            match r {
                Ok(p) => PoolPhase::from_label(s@) == Some(p),
                Err(e) => PoolPhase::from_label(s@) is None && e.0@ == s@,
            },
    {
        if str_eq(s, "Initializing") {
            Ok(PoolPhase::Initializing)
        } else if str_eq(s, "Steady") {
            Ok(PoolPhase::Steady)
        } else if str_eq(s, "ScalingUp") {
            Ok(PoolPhase::ScalingUp)
        } else if str_eq(s, "ScalingDown") {
            Ok(PoolPhase::ScalingDown)
        } else if str_eq(s, "Degraded") {
            Ok(PoolPhase::Degraded)
        } else if str_eq(s, "Draining") {
            Ok(PoolPhase::Draining)
        } else {
            Err(UnknownPoolPhase(owned(s)))
        }
    }
}

impl core::str::FromStr for PoolPhase {
    type Err = UnknownPoolPhase;

    fn from_str(s: &str) -> (r: Result<PoolPhase, UnknownPoolPhase>)
        ensures
            match r {
                Ok(p) => PoolPhase::from_label(s@) == Some(p),
                Err(e) => PoolPhase::from_label(s@) is None && e.0@ == s@,
            },
    {
        PoolPhase::parse_label(s)
    }
}

/// What the pool does when an allocation releases a member.
#[derive(Clone, Copy, Debug, PartialEq, Eq, Hash, Structural)]
pub enum ReturnPolicy {
    /// Tear down the Process and create a fresh one.
    Replace,
    /// Keep the Process running; run a typed reset Job that wipes state.
    Reset,
    /// Keep the Process indefinitely after release (debugging aid).
    Keep,
}

/// A return-policy label outside the closed set; carries the input
/// verbatim.
#[derive(Clone, Debug, PartialEq, Eq)]
pub struct UnknownReturnPolicy(pub String);

impl Default for ReturnPolicy {
    fn default() -> (p: Self)
        ensures
            p == ReturnPolicy::Replace,
    {
        ReturnPolicy::Replace
    }
}

impl ReturnPolicy {
    /// The backing Process survives release.
    pub open spec fn keeps(self) -> bool {
        self is Reset || self is Keep
    }

    /// Release runs a reset Job in place.
    pub open spec fn resets(self) -> bool {
        self is Reset
    }

    /// Every return policy, in declaration order.
    pub const ALL: [ReturnPolicy; 3] = [ReturnPolicy::Replace, ReturnPolicy::Reset, ReturnPolicy::Keep];

    /// Canonical PascalCase wire label.
    pub open spec fn label(self) -> Seq<char> {
        match self {
            ReturnPolicy::Replace => "Replace"@,
            ReturnPolicy::Reset => "Reset"@,
            ReturnPolicy::Keep => "Keep"@,
        }
    }

    /// The return policy whose label is `s`, if any.
    pub open spec fn from_label(s: Seq<char>) -> Option<ReturnPolicy> {
        if s == ReturnPolicy::Replace.label() {
            Some(ReturnPolicy::Replace)
        } else if s == ReturnPolicy::Reset.label() {
            Some(ReturnPolicy::Reset)
        } else if s == ReturnPolicy::Keep.label() {
            Some(ReturnPolicy::Keep)
        } else {
            None
        }
    }

    /// Canonical PascalCase wire label.
    pub fn as_str(self) -> (s: &'static str)
        ensures
            s@ == self.label(),
    {
        match self {
            ReturnPolicy::Replace => "Replace",
            ReturnPolicy::Reset => "Reset",
            ReturnPolicy::Keep => "Keep",
        }
    }

    /// The label as an owned string (the text form of the policy).
    pub fn to_string(self) -> (s: String)
        ensures
            s@ == self.label(),
    {
        owned(self.as_str())
    }

    /// Does the pool keep the backing Process alive across release?
    pub fn keeps_process(self) -> (b: bool)
        ensures
            b == self.keeps(),
    {
        match self {
            ReturnPolicy::Replace => false,
            ReturnPolicy::Reset | ReturnPolicy::Keep => true,
        }
    }

    /// Does the policy run a typed reset Job to wipe state in place?
    pub fn runs_reset_job(self) -> (b: bool)
        ensures
            b == self.resets(),
    {
        match self {
            ReturnPolicy::Reset => true,
            ReturnPolicy::Replace | ReturnPolicy::Keep => false,
        }
    }

    /// Parse a label (exact, case-sensitive); anything else is rejected
    /// verbatim.
    pub fn parse_label(s: &str) -> (r: Result<ReturnPolicy, UnknownReturnPolicy>)
        ensures
            match r {
                Ok(p) => ReturnPolicy::from_label(s@) == Some(p),
                Err(e) => ReturnPolicy::from_label(s@) is None && e.0@ == s@,
            },
    {
        if str_eq(s, "Replace") {
            Ok(ReturnPolicy::Replace)
        } else if str_eq(s, "Reset") {
            Ok(ReturnPolicy::Reset)
        } else if str_eq(s, "Keep") {
            Ok(ReturnPolicy::Keep)
        } else {
            Err(UnknownReturnPolicy(owned(s)))
        }
    }
}

impl core::str::FromStr for ReturnPolicy {
    type Err = UnknownReturnPolicy;

    fn from_str(s: &str) -> (r: Result<ReturnPolicy, UnknownReturnPolicy>)
        ensures
            match r {
                Ok(p) => ReturnPolicy::from_label(s@) == Some(p),
                Err(e) => ReturnPolicy::from_label(s@) is None && e.0@ == s@,
            },
    {
        ReturnPolicy::parse_label(s)
    }
}

/// Replacement-policy labels are distinct, non-empty, and round-trip
/// through the parser.
pub proof fn law_replacement_policy_labels(p: ReplacementPolicy, q: ReplacementPolicy, s: Seq<char>)
    ensures
        p.label() == q.label() ==> p == q,
        ReplacementPolicy::from_label(p.label()) == Some(p),
        ReplacementPolicy::from_label(s) matches Some(r) ==> r.label() == s,
        ReplacementPolicy::from_label(Seq::<char>::empty()) is None,
{
    reveal_strlit("ReplaceImmediate");
    reveal_strlit("HoldFailed");
    reveal_strlit("PausePool");
    assert(Seq::<char>::empty().len() == 0);
    assert(ReplacementPolicy::ReplaceImmediate.label().len() == 16);
    assert(ReplacementPolicy::HoldFailed.label().len() == 10);
    assert(ReplacementPolicy::PausePool.label().len() == 9);
}

/// The replacement policy's two predicates never both fire, each policy
/// has its own (replaces, pauses) pair, and the default policy replaces.
pub proof fn law_replacement_policy_predicates(p: ReplacementPolicy, q: ReplacementPolicy)
    ensures
        !(p.replaces() && p.pauses()),
        (p.replaces() == q.replaces() && p.pauses() == q.pauses()) ==> p == q,
        ReplacementPolicy::ReplaceImmediate.replaces(),
{
}

/// Member-state labels are distinct, non-empty, and round-trip through
/// the parser.
pub proof fn law_member_state_labels(p: MemberState, q: MemberState, s: Seq<char>)
    ensures
        p.label() == q.label() ==> p == q,
        MemberState::from_label(p.label()) == Some(p),
        MemberState::from_label(s) matches Some(r) ==> r.label() == s,
        MemberState::from_label(Seq::<char>::empty()) is None,
{
    reveal_strlit("Spawning");
    reveal_strlit("Free");
    reveal_strlit("Allocated");
    reveal_strlit("Returning");
    reveal_strlit("Failed");
    assert(Seq::<char>::empty().len() == 0);
    assert(MemberState::Spawning.label().len() == 8);
    assert(MemberState::Free.label().len() == 4);
    assert(MemberState::Allocated.label().len() == 9);
    assert(MemberState::Returning.label().len() == 9);
    assert(MemberState::Failed.label().len() == 6);
    assert(MemberState::Allocated.label()[0] != MemberState::Returning.label()[0]);
}

/// A failed member never counts toward supply; every state is in exactly
/// one of the supply (Free, Spawning), failed (Failed) and in-use
/// (Allocated, Returning) buckets.
pub proof fn law_member_state_buckets(s: MemberState)
    ensures
        !(s is Failed && s.supply()),
        s.supply() <==> (s is Free || s is Spawning),
        (!s.supply() && !(s is Failed)) <==> (s is Allocated || s is Returning),
{
}

/// Pool-phase labels are distinct, non-empty, and round-trip through
/// the parser.
pub proof fn law_pool_phase_labels(p: PoolPhase, q: PoolPhase, s: Seq<char>)
    ensures
        p.label() == q.label() ==> p == q,
        PoolPhase::from_label(p.label()) == Some(p),
        PoolPhase::from_label(s) matches Some(r) ==> r.label() == s,
        PoolPhase::from_label(Seq::<char>::empty()) is None,
{
    reveal_strlit("Initializing");
    reveal_strlit("Steady");
    reveal_strlit("ScalingUp");
    reveal_strlit("ScalingDown");
    reveal_strlit("Degraded");
    reveal_strlit("Draining");
    assert(Seq::<char>::empty().len() == 0);
    assert(PoolPhase::Initializing.label().len() == 12);
    assert(PoolPhase::Steady.label().len() == 6);
    assert(PoolPhase::ScalingUp.label().len() == 9);
    assert(PoolPhase::ScalingDown.label().len() == 11);
    assert(PoolPhase::Degraded.label().len() == 8);
    assert(PoolPhase::Draining.label().len() == 8);
    assert(PoolPhase::Degraded.label()[1] != PoolPhase::Draining.label()[1]);
}

/// No pool phase is both steady and terminal; the default phase is
/// neither.
pub proof fn law_pool_phase_predicates(p: PoolPhase)
    ensures
        !(p.steady() && p.terminal()),
        (!p.steady() && !p.terminal()) <==> (p is Initializing || p is ScalingUp
            || p is ScalingDown || p is Degraded),
        !PoolPhase::Initializing.steady() && !PoolPhase::Initializing.terminal(),
{
}

/// Return-policy labels are distinct, non-empty, and round-trip through
/// the parser.
pub proof fn law_return_policy_labels(p: ReturnPolicy, q: ReturnPolicy, s: Seq<char>)
    ensures
        p.label() == q.label() ==> p == q,
        ReturnPolicy::from_label(p.label()) == Some(p),
        ReturnPolicy::from_label(s) matches Some(r) ==> r.label() == s,
        ReturnPolicy::from_label(Seq::<char>::empty()) is None,
{
    reveal_strlit("Replace");
    reveal_strlit("Reset");
    reveal_strlit("Keep");
    assert(Seq::<char>::empty().len() == 0);
    assert(ReturnPolicy::Replace.label().len() == 7);
    assert(ReturnPolicy::Reset.label().len() == 5);
    assert(ReturnPolicy::Keep.label().len() == 4);
}

/// Running a reset Job implies keeping the Process, and each policy has
/// its own (keeps, resets) pair.
pub proof fn law_return_policy_predicates(p: ReturnPolicy, q: ReturnPolicy)
    ensures
        p.resets() ==> p.keeps(),
        (p.keeps() == q.keeps() && p.resets() == q.resets()) ==> p == q,
        !ReturnPolicy::Replace.keeps() && !ReturnPolicy::Replace.resets(),
{
}

} // verus!
