//! `EphemeralPool` — a population of warm, pre-attested ephemeral
//! Processes that get allocated to requestors on demand and returned,
//! per a typed policy, when the requestor releases them.
//!
//! The pool is a population manager over the Process algebra: a pool
//! member is a Process whose lifetime slot the pool reconciler flips
//! between permanent (free list) and ephemeral (allocated).

use crate::outside::{utc_now, Timestamp};
pub use crate::pool_policy::{
    MemberState, PoolPhase, ReplacementPolicy, ReturnPolicy, UnknownMemberState, UnknownPoolPhase,
    UnknownReplacementPolicy, UnknownReturnPolicy,
};
use crate::text::{chars_of, chars_start_with, owned, seq_starts_with, str_eq, IntoText};
use std::collections::BTreeMap;
use std::collections::HashSet;
use std::time::Duration;
use vstd::prelude::*;
use vstd::std_specs::hash::obeys_key_model;

verus! {

/// Reference from one Kubernetes object to its owner.
#[derive(Clone, Debug, PartialEq, Eq)]
pub struct OwnerReference {
    pub api_version: String,
    pub kind: String,
    pub name: String,
    pub uid: String,
    pub controller: Option<bool>,
    pub block_owner_deletion: Option<bool>,
}

/// The object metadata of a Kubernetes resource, as far as the pool
/// logic reads or stamps it.
#[derive(Clone, Debug)]
pub struct ObjectMeta {
    pub name: Option<String>,
    pub namespace: Option<String>,
    pub uid: Option<String>,
    /// Set by the API server once deletion of the object has begun.
    pub deletion_timestamp: Option<Timestamp>,
    pub labels: Option<BTreeMap<String, String>>,
    pub annotations: Option<BTreeMap<String, String>>,
    pub finalizers: Option<Vec<String>>,
    pub owner_references: Option<Vec<OwnerReference>>,
}

impl Default for ObjectMeta {
    fn default() -> (m: Self)
        ensures
            m.name is None,
            m.namespace is None,
            m.uid is None,
            m.deletion_timestamp is None,
            m.labels is None,
            m.annotations is None,
            m.finalizers is None,
            m.owner_references is None,
    {
        ObjectMeta {
            name: None,
            namespace: None,
            uid: None,
            deletion_timestamp: None,
            labels: None,
            annotations: None,
            finalizers: None,
            owner_references: None,
        }
    }
}

/// The characters of an optional string slot, with an absent slot read
/// as the empty string.
pub open spec fn text_or_empty(slot: Option<String>) -> Seq<char> {
    match slot {
        Some(s) => s@,
        None => Seq::<char>::empty(),
    }
}

/// `EphemeralPool` spec — a typed pool of warm Processes.
#[derive(Clone, Debug)]
pub struct PoolSpec {
    /// Target number of warm Processes kept in `Free`.
    pub desired_size: u32,
    /// Hard floor on the free count. Default 0.
    pub min_size: u32,
    /// Hard ceiling on total pool members; 0 means no cap. Default 0.
    pub max_size: u32,
    /// What to do when an allocation releases a member.
    pub return_policy: ReturnPolicy,
    /// Which allocation requests this pool serves.
    pub selector: PoolSelector,
    /// Template for each member: the wire form of the ephemeral spec the
    /// reconciler lowers and instantiates.
    pub template: serde_json::Value,
    /// How long a member may sit in `Free` before it is recycled
    /// (humantime). Default `"24h"`.
    pub free_ttl: String,
    /// Longest time one allocation may hold a member (humantime).
    /// Default `"4h"`.
    pub max_allocation_ttl: String,
    /// When non-zero, the number of healthy members kept regardless of
    /// allocation pressure.
    pub desired: u32,
    /// What the pool reconciler does when a member reaches `Failed`.
    pub replacement_policy: ReplacementPolicy,
    /// When true, one healthy member holds the unprefixed DNS names.
    pub stable_name_claim: bool,
}

/// Named result of `humantime::parse_duration` on the given text:
/// `None` where the text does not parse.
pub uninterp spec fn humantime_duration(text: Seq<char>) -> Option<Duration>;

/// Most ASCII decimal digits a duration text handed to humantime may
/// hold. A text with at most this many digits denotes less than 2^64
/// seconds (each number is below 10^k for its k digits, each unit is at
/// most a year of 31,557,600 s, and the fractional parts add less than
/// one unit each), so the parser never reaches the seconds carry in
/// `Duration::new` that panics at `u64::MAX` seconds.
pub const DURATION_TEXT_MAX_DIGITS: usize = 11;

/// Number of ASCII decimal digits in `s`.
pub open spec fn decimal_digits(s: Seq<char>) -> nat
    decreases s.len(),
{
    if s.len() == 0 {
        0
    } else {
        decimal_digits(s.drop_last()) + if '0' <= s.last() && s.last() <= '9' {
            1nat
        } else {
            0nat
        }
    }
}

/// Does `text` hold at most `DURATION_TEXT_MAX_DIGITS` decimal digits,
/// the texts a humantime parse is safe on?
pub fn duration_text_in_range(text: &str) -> (b: bool)
    ensures
        b == (decimal_digits(text@) <= DURATION_TEXT_MAX_DIGITS),
{
    let cs = chars_of(text);
    let n = cs.len();
    let mut count: usize = 0;
    let mut i: usize = 0;
    while i < n
        invariant
            n == cs@.len(),
            cs@ == text@,
            0 <= i <= n,
            count as nat == decimal_digits(cs@.subrange(0, i as int)),
            count <= i,
        decreases n - i,
    {
        let c = cs[i];
        assert(cs@.subrange(0, i + 1).drop_last() =~= cs@.subrange(0, i as int));
        if '0' <= c && c <= '9' {
            count = count + 1;
        }
        i = i + 1;
    }
    assert(cs@.subrange(0, n as int) =~= cs@);
    count <= DURATION_TEXT_MAX_DIGITS
}

/// `humantime::parse_duration(text).ok()`: the duration the humantime
/// text denotes, or `None` where it does not parse. The result is the
/// named function of the text; nothing more is stated of it. The parser
/// panics on some texts denoting 2^64 seconds or more (a seconds carry
/// in `Duration::new`), so only texts of at most
/// `DURATION_TEXT_MAX_DIGITS` digits, which denote less, are admitted.
#[verifier::external_body]
fn parse_humantime(text: &str) -> (r: Option<Duration>)
    requires
        decimal_digits(text@) <= DURATION_TEXT_MAX_DIGITS,
    ensures
        r == humantime_duration(text@),
{
    humantime::parse_duration(text).ok()
}

/// The default free-member TTL.
pub fn default_free_ttl() -> (s: String)
    ensures
        s@ == "24h"@,
{
    owned("24h")
}

/// The default cap on one allocation's hold time.
pub fn default_max_allocation_ttl() -> (s: String)
    ensures
        s@ == "4h"@,
{
    owned("4h")
}

impl PoolSpec {
    /// The humantime-parsed free TTL; `None` when the text does not parse.
    /// The text may hold at most `DURATION_TEXT_MAX_DIGITS` digits (see
    /// `duration_text_in_range`).
    pub fn free_ttl_duration(&self) -> (d: Option<Duration>)
        requires
            decimal_digits(self.free_ttl@) <= DURATION_TEXT_MAX_DIGITS,
        ensures
            d == humantime_duration(self.free_ttl@),
    {
        parse_humantime(self.free_ttl.as_str())
    }

    /// A pool spec for `template` with every other slot at its wire
    /// default (sizes 0, `Replace`, empty selector, `"24h"`, `"4h"`,
    /// `ReplaceImmediate`, no stable claim).
    pub fn with_template(template: serde_json::Value) -> (s: PoolSpec)
        ensures
            s.desired_size == 0,
            s.min_size == 0,
            s.max_size == 0,
            s.return_policy == ReturnPolicy::Replace,
            s.selector.is_empty(),
            s.template == template,
            s.free_ttl@ == "24h"@,
            s.max_allocation_ttl@ == "4h"@,
            s.desired == 0,
            s.replacement_policy == ReplacementPolicy::ReplaceImmediate,
            !s.stable_name_claim,
    {
        PoolSpec {
            desired_size: 0,
            min_size: 0,
            max_size: 0,
            return_policy: ReturnPolicy::default(),
            selector: PoolSelector::default(),
            template,
            free_ttl: default_free_ttl(),
            max_allocation_ttl: default_max_allocation_ttl(),
            desired: 0,
            replacement_policy: ReplacementPolicy::default(),
            stable_name_claim: false,
        }
    }
}

/// A namespaced `EphemeralPool` object: metadata, spec, observed status.
#[derive(Clone, Debug)]
pub struct EphemeralPool {
    pub metadata: ObjectMeta,
    pub spec: PoolSpec,
    pub status: Option<PoolStatus>,
}

impl EphemeralPool {
    /// A pool named `name` with the given spec and default metadata
    /// otherwise; no status yet.
    pub fn new(name: &str, spec: PoolSpec) -> (p: EphemeralPool)
        ensures
            p.metadata.name matches Some(n) && n@ == name@,
            p.metadata.namespace is None,
            p.metadata.uid is None,
            p.metadata.deletion_timestamp is None,
            p.metadata.labels is None,
            p.metadata.annotations is None,
            p.metadata.finalizers is None,
            p.metadata.owner_references is None,
            p.spec == spec,
            p.status is None,
    {
        let mut metadata = ObjectMeta::default();
        metadata.name = Some(owned(name));
        EphemeralPool { metadata, spec, status: None }
    }

    /// A pool named `name` in `namespace`, with the given spec.
    pub fn new_in(name: &str, namespace: impl IntoText, spec: PoolSpec) -> (p: EphemeralPool)
        ensures
            p.metadata.name matches Some(n) && n@ == name@,
            p.metadata.namespace matches Some(ns) && ns@ == namespace.text(),
            p.metadata.uid is None,
            p.metadata.deletion_timestamp is None,
            p.metadata.labels is None,
            p.metadata.annotations is None,
            p.metadata.finalizers is None,
            p.metadata.owner_references is None,
            p.spec == spec,
            p.status is None,
    {
        let mut p = EphemeralPool::new(name, spec);
        p.metadata.namespace = Some(namespace.into_text());
        p
    }

    /// The object name, with a missing name read as `""`.
    pub fn name_or_empty(&self) -> (s: &str)
        ensures
            s@ == text_or_empty(self.metadata.name),
    {
        match &self.metadata.name {
            Some(n) => n.as_str(),
            None => {
                proof {
                    reveal_strlit("");
                }
                ""
            },
        }
    }

    /// Owned copy of the object name, with a missing name read as `""`.
    pub fn owned_name_or_empty(&self) -> (s: String)
        ensures
            s@ == text_or_empty(self.metadata.name),
    {
        match &self.metadata.name {
            Some(n) => n.clone(),
            None => String::new(),
        }
    }

    /// True iff the API server has stamped a deletion timestamp.
    pub fn is_being_deleted(&self) -> (b: bool)
        ensures
            b == (self.metadata.deletion_timestamp is Some),
    {
        self.metadata.deletion_timestamp.is_some()
    }

    /// Owned copy of the namespace, with a missing namespace read as `""`
    /// (never a default namespace).
    pub fn owned_namespace_or_empty(&self) -> (s: String)
        ensures
            s@ == text_or_empty(self.metadata.namespace),
    {
        match &self.metadata.namespace {
            Some(n) => n.clone(),
            None => String::new(),
        }
    }

    /// The uid when present (even if empty), else the name, else `""`.
    pub open spec fn uid_or_name_text(&self) -> Seq<char> {
        match self.metadata.uid {
            Some(u) => u@,
            None => text_or_empty(self.metadata.name),
        }
    }

    /// The uid when present (even if empty), else the name, else `""`.
    pub fn owned_uid_or_name_or_empty(&self) -> (s: String)
        ensures
            s@ == self.uid_or_name_text(),
    {
        match &self.metadata.uid {
            Some(u) => u.clone(),
            None => self.owned_name_or_empty(),
        }
    }

    /// True iff the name slot is present and equal to `candidate`; an
    /// absent name matches nothing, not even `""`.
    pub fn has_name(&self, candidate: &str) -> (b: bool)
        ensures
            b == (self.metadata.name matches Some(n) && n@ == candidate@),
    {
        match &self.metadata.name {
            Some(n) => str_eq(n.as_str(), candidate),
            None => false,
        }
    }
}

/// Observed pool population state.
#[derive(Clone, Debug)]
pub struct PoolStatus {
    /// Pool lifecycle phase.
    pub phase: PoolPhase,
    /// When the pool entered the current phase.
    pub phase_since: Option<Timestamp>,
    /// Members currently `Free`.
    pub ready_count: u32,
    /// Members currently `Allocated`.
    pub allocated_count: u32,
    /// Members currently `Spawning`.
    pub spawning_count: u32,
    /// Members currently `Returning`.
    pub returning_count: u32,
    /// Member ledger — one entry per pool slot.
    pub members: Vec<PoolMember>,
    /// Operator-visible message.
    pub message: Option<String>,
    /// Standard Kubernetes conditions.
    pub conditions: Vec<PoolCondition>,
}

impl Default for PoolStatus {
    fn default() -> (s: Self)
        ensures
            s.phase == PoolPhase::Initializing,
            s.phase_since is None,
            s.ready_count == 0,
            s.allocated_count == 0,
            s.spawning_count == 0,
            s.returning_count == 0,
            s.members@.len() == 0,
            s.message is None,
            s.conditions@.len() == 0,
    {
        PoolStatus {
            phase: PoolPhase::default(),
            phase_since: None,
            ready_count: 0,
            allocated_count: 0,
            spawning_count: 0,
            returning_count: 0,
            members: Vec::new(),
            message: None,
            conditions: Vec::new(),
        }
    }
}

/// One pool slot's state.
#[derive(Clone, Debug)]
pub struct PoolMember {
    /// Name of the backing Process.
    pub process_name: String,
    /// The slot's current state.
    pub state: MemberState,
    /// When the member entered the current state.
    pub entered_state_at: Timestamp,
    /// The allocation holding this slot, if allocated.
    pub allocation_ref: Option<AllocationRef>,
}

/// Number of members of `members` in state `s`.
pub open spec fn count_state(members: Seq<PoolMember>, s: MemberState) -> nat
    decreases members.len(),
{
    if members.len() == 0 {
        0
    } else {
        count_state(members.drop_last(), s) + if members.last().state == s {
            1nat
        } else {
            0nat
        }
    }
}

/// The `(ready, allocated, spawning, returning)` counts of `members`.
pub open spec fn fanout(members: Seq<PoolMember>) -> (nat, nat, nat, nat) {
    (
        count_state(members, MemberState::Free),
        count_state(members, MemberState::Allocated),
        count_state(members, MemberState::Spawning),
        count_state(members, MemberState::Returning),
    )
}

/// Each member is counted in exactly one state.
pub proof fn lemma_counts_partition(members: Seq<PoolMember>)
    ensures
        count_state(members, MemberState::Free) + count_state(members, MemberState::Allocated)
            + count_state(members, MemberState::Spawning) + count_state(
            members,
            MemberState::Returning,
        ) + count_state(members, MemberState::Failed) == members.len(),
    decreases members.len(),
{
    if members.len() > 0 {
        lemma_counts_partition(members.drop_last());
    }
}

impl PoolStatus {
    /// The observed status for `phase` and `members` at `now`: the four
    /// counters count the members per state (failed members count in
    /// none), the members move in unchanged, no message, no conditions.
    pub fn observed(phase: PoolPhase, members: Vec<PoolMember>, now: Timestamp) -> (s: PoolStatus)
        requires
            members@.len() <= u32::MAX,
        ensures
            s.phase == phase,
            s.phase_since == Some(now),
            (s.ready_count as nat, s.allocated_count as nat, s.spawning_count as nat,
            s.returning_count as nat) == fanout(members@),
            s.members@ == members@,
            s.message is None,
            s.conditions@.len() == 0,
    {
        let (ready_count, allocated_count, spawning_count, returning_count) =
            PoolMember::state_count_fanout(&members);
        PoolStatus {
            phase,
            phase_since: Some(now),
            ready_count,
            allocated_count,
            spawning_count,
            returning_count,
            members,
            message: None,
            conditions: Vec::new(),
        }
    }

    /// `observed` stamped with the wall clock read once at the call.
    pub fn observed_now(phase: PoolPhase, members: Vec<PoolMember>) -> (s: PoolStatus)
        requires
            members@.len() <= u32::MAX,
        ensures
            s.phase == phase,
            s.phase_since is Some,
            (s.ready_count as nat, s.allocated_count as nat, s.spawning_count as nat,
            s.returning_count as nat) == fanout(members@),
            s.members@ == members@,
            s.message is None,
            s.conditions@.len() == 0,
    {
        PoolStatus::observed(phase, members, utc_now())
    }
}

impl PoolMember {
    /// Single-pass count of the members in `Free`, `Allocated`,
    /// `Spawning` and `Returning` (in that order); `Failed` members count
    /// in none of them.
    pub fn state_count_fanout(members: &[PoolMember]) -> (r: (u32, u32, u32, u32))
        requires
            members@.len() <= u32::MAX,
        ensures
            (r.0 as nat, r.1 as nat, r.2 as nat, r.3 as nat) == fanout(members@),
    {
        let mut ready: u32 = 0;
        let mut allocated: u32 = 0;
        let mut spawning: u32 = 0;
        let mut returning: u32 = 0;
        let n = members.len();
        let mut i: usize = 0;
        while i < n
            invariant
                n == members@.len(),
                n <= u32::MAX,
                0 <= i <= n,
                ready as nat == count_state(members@.subrange(0, i as int), MemberState::Free),
                allocated as nat == count_state(
                    members@.subrange(0, i as int),
                    MemberState::Allocated,
                ),
                spawning as nat == count_state(
                    members@.subrange(0, i as int),
                    MemberState::Spawning,
                ),
                returning as nat == count_state(
                    members@.subrange(0, i as int),
                    MemberState::Returning,
                ),
            decreases n - i,
        {
            let ghost prefix = members@.subrange(0, i as int);
            let ghost next = members@.subrange(0, i + 1);
            assert(next.drop_last() =~= prefix);
            proof {
                lemma_counts_partition(prefix);
            }
            match members[i].state {
                MemberState::Free => ready = ready + 1,
                MemberState::Allocated => allocated = allocated + 1,
                MemberState::Spawning => spawning = spawning + 1,
                MemberState::Returning => returning = returning + 1,
                MemberState::Failed => {},
            }
            i = i + 1;
        }
        assert(members@.subrange(0, n as int) =~= members@);
        (ready, allocated, spawning, returning)
    }

    /// The set of the members' process names (duplicates collapse).
    pub fn process_names_set(members: &[PoolMember]) -> (r: HashSet<String>)
        ensures
            obeys_key_model::<String>() ==> forall|k: String|
                r@.contains(k) <==> exists|i: int|
                    0 <= i < members@.len() && #[trigger] members@[i].process_name == k,
    {
        let mut set: HashSet<String> = HashSet::new();
        let n = members.len();
        let mut i: usize = 0;
        while i < n
            invariant
                n == members@.len(),
                0 <= i <= n,
                obeys_key_model::<String>() ==> forall|k: String|
                    set@.contains(k) <==> exists|j: int|
                        0 <= j < i && #[trigger] members@[j].process_name == k,
            decreases n - i,
        {
            let name = members[i].process_name.clone();
            set.insert(name);
            i = i + 1;
        }
        set
    }

    /// An unallocated member: the given name, state and entry time, no
    /// allocation.
    pub fn unallocated(
        process_name: impl IntoText,
        state: MemberState,
        entered_state_at: Timestamp,
    ) -> (m: PoolMember)
        ensures
            m.process_name@ == process_name.text(),
            m.state == state,
            m.entered_state_at == entered_state_at,
            m.allocation_ref is None,
    {
        PoolMember {
            process_name: process_name.into_text(),
            state,
            entered_state_at,
            allocation_ref: None,
        }
    }
}

/// Light reference to an `EphemeralAllocation`.
#[derive(Clone, Debug, PartialEq, Eq)]
pub struct AllocationRef {
    pub name: String,
    pub namespace: String,
}

impl AllocationRef {
    /// The reference `(name, namespace)`, in that order.
    pub fn new(name: impl IntoText, namespace: impl IntoText) -> (r: AllocationRef)
        ensures
            r.name@ == name.text(),
            r.namespace@ == namespace.text(),
    {
        AllocationRef { name: name.into_text(), namespace: namespace.into_text() }
    }
}

/// Standard Kubernetes condition shape.
#[derive(Clone, Debug)]
pub struct PoolCondition {
    pub type_: String,
    pub status: String,
    pub reason: String,
    pub message: String,
    pub last_transition_time: Timestamp,
}

/// Routing selector — matches an allocation's requestor against pool
/// eligibility predicates.
#[derive(Clone, Debug)]
pub struct PoolSelector {
    /// Globs matched against the requestor's repo; empty matches every repo.
    pub repos: Vec<String>,
    /// Globs matched against the requestor's branch; empty matches every
    /// branch.
    pub branches: Vec<String>,
    /// Labels that must all be present on the request.
    pub pr_labels: Vec<String>,
    /// Allocation kinds this pool serves; empty serves any kind.
    pub kinds: Vec<String>,
}

/// Allocation routing key — what pool selectors are matched against.
#[derive(Clone, Copy, Debug)]
pub struct MatchKey<'a> {
    pub repo: &'a str,
    pub branch: &'a str,
    pub pr_labels: &'a [String],
    pub kind: &'a str,
}

/// Trailing-`*` glob: an empty pattern matches anything; a pattern
/// ending in `*` matches every value starting with the pattern minus
/// that one `*`; any other pattern matches only itself.
pub open spec fn glob_matches(pattern: Seq<char>, value: Seq<char>) -> bool {
    if pattern.len() == 0 {
        true
    } else if pattern.last() == '*' {
        seq_starts_with(value, pattern.drop_last())
    } else {
        pattern == value
    }
}

/// An empty pattern list matches anything; otherwise some pattern must
/// match.
pub open spec fn glob_any_matches(patterns: Seq<String>, value: Seq<char>) -> bool {
    patterns.len() == 0 || exists|i: int|
        0 <= i < patterns.len() && #[trigger] glob_matches(patterns[i]@, value)
}

/// An empty kind list accepts any kind; otherwise the kind must be listed.
pub open spec fn kind_listed(kinds: Seq<String>, value: Seq<char>) -> bool {
    kinds.len() == 0 || exists|i: int| 0 <= i < kinds.len() && #[trigger] kinds[i]@ == value
}

/// `item` is one of the labels of `present`.
pub open spec fn label_in(item: Seq<char>, present: Seq<String>) -> bool {
    exists|j: int| 0 <= j < present.len() && #[trigger] present[j]@ == item
}

/// Every required label is present.
pub open spec fn labels_present(required: Seq<String>, present: Seq<String>) -> bool {
    forall|i: int| 0 <= i < required.len() ==> #[trigger] label_in(required[i]@, present)
}

impl PoolSelector {
    /// No constraint on any axis.
    pub open spec fn is_empty(&self) -> bool {
        self.repos@.len() == 0 && self.branches@.len() == 0 && self.pr_labels@.len() == 0
            && self.kinds@.len() == 0
    }

    /// The selector accepts `key`.
    pub open spec fn accepts(&self, key: MatchKey) -> bool {
        glob_any_matches(self.repos@, key.repo@) && glob_any_matches(self.branches@, key.branch@)
            && labels_present(self.pr_labels@, key.pr_labels@) && kind_listed(
            self.kinds@,
            key.kind@,
        )
    }

    /// Specificity score: 8 for a repo constraint, 4 for a branch
    /// constraint, 2 per required label, 1 for a kind constraint.
    pub open spec fn score(&self) -> nat {
        (if self.repos@.len() > 0 {
            8nat
        } else {
            0nat
        }) + (if self.branches@.len() > 0 {
            4nat
        } else {
            0nat
        }) + 2 * self.pr_labels@.len() + (if self.kinds@.len() > 0 {
            1nat
        } else {
            0nat
        })
    }

    /// Does this selector match the given allocation routing key?
    pub fn matches(&self, key: &MatchKey<'_>) -> (b: bool)
        ensures
            b == self.accepts(*key),
    {
        glob_any(&self.repos, key.repo) && glob_any(&self.branches, key.branch) && labels_subset(
            &self.pr_labels,
            key.pr_labels,
        ) && kind_any(&self.kinds, key.kind)
    }

    /// Specificity score — higher is more specific; breaks ties between
    /// matching selectors.
    pub fn specificity(&self) -> (s: u32)
        requires
            self.score() <= u32::MAX,
        ensures
            s as nat == self.score(),
    {
        let mut score: u32 = 0;
        if !self.repos.is_empty() {
            score = score + 8;
        }
        if !self.branches.is_empty() {
            score = score + 4;
        }
        score = score + (self.pr_labels.len() as u32) * 2;
        if !self.kinds.is_empty() {
            score = score + 1;
        }
        score
    }
}

impl Default for PoolSelector {
    fn default() -> (s: Self)
        ensures
            s.is_empty(),
    {
        PoolSelector { repos: Vec::new(), branches: Vec::new(), pr_labels: Vec::new(), kinds: Vec::new() }
    }
}

/// Trailing-`*` glob match of `value` against `pattern`.
pub fn glob_match(pattern: &str, value: &str) -> (b: bool)
    ensures
        b == glob_matches(pattern@, value@),
{
    let p = chars_of(pattern);
    if p.len() == 0 {
        return true;
    }
    if p[p.len() - 1] == '*' {
        let v = chars_of(value);
        assert(p@.subrange(0, p@.len() - 1) =~= p@.drop_last());
        chars_start_with(&v, &p, p.len() - 1)
    } else {
        str_eq(pattern, value)
    }
}

/// Some pattern matches `value`, or there are no patterns.
fn glob_any(patterns: &Vec<String>, value: &str) -> (b: bool)
    ensures
        b == glob_any_matches(patterns@, value@),
{
    if patterns.is_empty() {
        return true;
    }
    let n = patterns.len();
    let mut i: usize = 0;
    while i < n
        invariant
            n == patterns@.len(),
            0 <= i <= n,
            forall|j: int| 0 <= j < i ==> !glob_matches(#[trigger] patterns@[j]@, value@),
        decreases n - i,
    {
        if glob_match(patterns[i].as_str(), value) {
            return true;
        }
        i = i + 1;
    }
    false
}

/// `value` is one of `kinds`, or there are no kinds.
fn kind_any(kinds: &Vec<String>, value: &str) -> (b: bool)
    ensures
        b == kind_listed(kinds@, value@),
{
    if kinds.is_empty() {
        return true;
    }
    let n = kinds.len();
    let mut i: usize = 0;
    while i < n
        invariant
            n == kinds@.len(),
            0 <= i <= n,
            forall|j: int| 0 <= j < i ==> #[trigger] kinds@[j]@ != value@,
        decreases n - i,
    {
        if str_eq(kinds[i].as_str(), value) {
            return true;
        }
        i = i + 1;
    }
    false
}

/// `item` occurs in `present`.
fn label_present(item: &String, present: &[String]) -> (b: bool)
    ensures
        b == label_in(item@, present@),
{
    let n = present.len();
    let mut j: usize = 0;
    while j < n
        invariant
            n == present@.len(),
            0 <= j <= n,
            forall|k: int| 0 <= k < j ==> #[trigger] present@[k]@ != item@,
        decreases n - j,
    {
        if str_eq(present[j].as_str(), item.as_str()) {
            return true;
        }
        j = j + 1;
    }
    false
}

/// Every label of `required` occurs in `present`.
fn labels_subset(required: &Vec<String>, present: &[String]) -> (b: bool)
    ensures
        b == labels_present(required@, present@),
{
    let n = required.len();
    let mut i: usize = 0;
    while i < n
        invariant
            n == required@.len(),
            0 <= i <= n,
            forall|k: int| 0 <= k < i ==> #[trigger] label_in(required@[k]@, present@),
        decreases n - i,
    {
        if !label_present(&required[i], present) {
            return false;
        }
        i = i + 1;
    }
    true
}

/// A selector without constraints matches every key and has specificity
/// zero; any constraint makes the specificity positive.
pub proof fn law_empty_selector_matches_everything(s: PoolSelector, key: MatchKey)
    ensures
        s.is_empty() ==> s.accepts(key) && s.score() == 0,
        !s.is_empty() ==> s.score() > 0,
{
}

/// Trailing-`*` glob semantics: an empty pattern matches every value; a
/// pattern ending in `*` matches exactly the values that begin with the
/// pattern without its `*`; any other pattern matches only itself.
pub proof fn law_glob_semantics(pattern: Seq<char>, value: Seq<char>)
    ensures
        pattern.len() == 0 ==> glob_matches(pattern, value),
        (pattern.len() > 0 && pattern[pattern.len() - 1] == '*') ==> (glob_matches(
            pattern,
            value,
        ) <==> (pattern.len() - 1 <= value.len() && forall|k: int|
            0 <= k < pattern.len() - 1 ==> #[trigger] value[k] == pattern[k])),
        (pattern.len() > 0 && pattern[pattern.len() - 1] != '*') ==> (glob_matches(
            pattern,
            value,
        ) <==> pattern == value),
{
    if pattern.len() > 0 && pattern[pattern.len() - 1] == '*' {
        let prefix = pattern.drop_last();
        if pattern.len() - 1 <= value.len() && (forall|k: int|
            0 <= k < pattern.len() - 1 ==> #[trigger] value[k] == pattern[k]) {
            assert(value.subrange(0, prefix.len() as int) =~= prefix);
        }
        if glob_matches(pattern, value) {
            assert forall|k: int| 0 <= k < pattern.len() - 1 implies #[trigger] value[k]
                == pattern[k] by {
                assert(value.subrange(0, prefix.len() as int)[k] == prefix[k]);
            }
        }
    }
}

/// A selector accepts a key exactly when every axis accepts it: some repo
/// glob matches the repo (or none is listed), some branch glob matches
/// the branch (or none is listed), every required label is among the
/// key's labels, and the key's kind equals one of the listed kinds,
/// wherever it stands in the list (or none is listed).
pub proof fn law_selector_axes(s: PoolSelector, key: MatchKey)
    ensures
        s.accepts(key) <==> {
            &&& (s.repos@.len() == 0 || exists|i: int|
                0 <= i < s.repos@.len() && #[trigger] glob_matches(s.repos@[i]@, key.repo@))
            &&& (s.branches@.len() == 0 || exists|i: int|
                0 <= i < s.branches@.len() && #[trigger] glob_matches(
                    s.branches@[i]@,
                    key.branch@,
                ))
            &&& (forall|i: int|
                0 <= i < s.pr_labels@.len() ==> key.pr_labels@.map_values(|l: String| l@).contains(
                    #[trigger] s.pr_labels@[i]@,
                ))
            &&& (s.kinds@.len() == 0 || exists|i: int|
                0 <= i < s.kinds@.len() && #[trigger] s.kinds@[i]@ == key.kind@)
        },
{
    assert forall|i: int| 0 <= i < s.pr_labels@.len() implies label_in(
        #[trigger] s.pr_labels@[i]@,
        key.pr_labels@,
    ) == key.pr_labels@.map_values(|l: String| l@).contains(s.pr_labels@[i]@) by {
        lemma_label_in_contains(s.pr_labels@[i]@, key.pr_labels@);
    }
    assert(kind_listed(s.kinds@, key.kind@) <==> (s.kinds@.len() == 0 || exists|i: int|
        0 <= i < s.kinds@.len() && #[trigger] s.kinds@[i]@ == key.kind@));
    assert(glob_any_matches(s.repos@, key.repo@) <==> (s.repos@.len() == 0 || exists|i: int|
        0 <= i < s.repos@.len() && #[trigger] glob_matches(s.repos@[i]@, key.repo@)));
    assert(glob_any_matches(s.branches@, key.branch@) <==> (s.branches@.len() == 0
        || exists|i: int|
        0 <= i < s.branches@.len() && #[trigger] glob_matches(s.branches@[i]@, key.branch@)));
}

/// `label_in` is membership among the label texts.
proof fn lemma_label_in_contains(item: Seq<char>, present: Seq<String>)
    ensures
        label_in(item, present) <==> present.map_values(|l: String| l@).contains(item),
{
    let texts = present.map_values(|l: String| l@);
    if label_in(item, present) {
        let j = choose|j: int| 0 <= j < present.len() && #[trigger] present[j]@ == item;
        assert(texts[j] == item);
    }
    if texts.contains(item) {
        let k = choose|k: int| 0 <= k < texts.len() && texts[k] == item;
        assert(present[k]@ == item);
    }
}

/// The specificity weights: a repo constraint counts 8, a branch
/// constraint 4, each required label 2 and a kind constraint 1, so a
/// repo-only selector outranks a branch-only one, which outranks any
/// single-label or kind-only selector.
pub proof fn law_specificity_weights(s: PoolSelector)
    ensures
        s.score() == (if s.repos@.len() > 0 {
            8int
        } else {
            0int
        }) + (if s.branches@.len() > 0 {
            4int
        } else {
            0int
        }) + 2 * s.pr_labels@.len() + (if s.kinds@.len() > 0 {
            1int
        } else {
            0int
        }),
        (s.repos@.len() > 0 && s.branches@.len() == 0 && s.pr_labels@.len() == 0
            && s.kinds@.len() == 0) ==> s.score() == 8,
        (s.repos@.len() == 0 && s.branches@.len() > 0 && s.pr_labels@.len() == 0
            && s.kinds@.len() == 0) ==> s.score() == 4,
        (s.repos@.len() == 0 && s.branches@.len() == 0 && s.pr_labels@.len() == 1
            && s.kinds@.len() == 0) ==> s.score() == 2,
        (s.repos@.len() == 0 && s.branches@.len() == 0 && s.pr_labels@.len() == 0
            && s.kinds@.len() > 0) ==> s.score() == 1,
{
}

/// Specificity ranks more constrained selectors higher: a selector that
/// constrains every axis the other constrains, with at least as many
/// required labels, scores at least as high, and strictly higher when it
/// adds a constraint.
pub proof fn law_specificity_monotone(a: PoolSelector, b: PoolSelector)
    requires
        b.repos@.len() > 0 ==> a.repos@.len() > 0,
        b.branches@.len() > 0 ==> a.branches@.len() > 0,
        b.kinds@.len() > 0 ==> a.kinds@.len() > 0,
        b.pr_labels@.len() <= a.pr_labels@.len(),
    ensures
        b.score() <= a.score(),
        ((a.repos@.len() > 0 && b.repos@.len() == 0) || (a.branches@.len() > 0
            && b.branches@.len() == 0) || (a.kinds@.len() > 0 && b.kinds@.len() == 0)
            || b.pr_labels@.len() < a.pr_labels@.len()) ==> b.score() < a.score(),
{
}

/// The name projections agree: a present name equal to `candidate` reads
/// as `candidate`, an absent name reads as `""` (so the empty-string
/// projection cannot tell it from an empty name), and the uid-or-name
/// seed is the uid whenever one is present, empty or not, and the name
/// projection otherwise.
pub proof fn law_pool_name_projections(p: EphemeralPool, candidate: Seq<char>)
    ensures
        (p.metadata.name matches Some(n) && n@ == candidate) ==> text_or_empty(p.metadata.name)
            == candidate,
        p.metadata.name is None ==> text_or_empty(p.metadata.name) == Seq::<char>::empty(),
        p.metadata.uid is None ==> p.uid_or_name_text() == text_or_empty(p.metadata.name),
        p.metadata.uid matches Some(u) ==> p.uid_or_name_text() == u@,
        (p.metadata.uid is None && p.metadata.name is None) ==> p.uid_or_name_text()
            == Seq::<char>::empty(),
{
}

/// `count_state` counts the members in state `s`.
proof fn lemma_count_state_filter(members: Seq<PoolMember>, s: MemberState)
    ensures
        count_state(members, s) == members.filter(|m: PoolMember| m.state == s).len(),
    decreases members.len(),
{
    reveal(Seq::filter);
    if members.len() > 0 {
        lemma_count_state_filter(members.drop_last(), s);
    }
}

/// The status fan-out is `(ready, allocated, spawning, returning)`: the
/// number of members that are `Free`, `Allocated`, `Spawning` and
/// `Returning`, in that order.
pub proof fn law_fanout_counts(members: Seq<PoolMember>)
    ensures
        fanout(members).0 == members.filter(|m: PoolMember| m.state == MemberState::Free).len(),
        fanout(members).1 == members.filter(|m: PoolMember| m.state == MemberState::Allocated).len(),
        fanout(members).2 == members.filter(|m: PoolMember| m.state == MemberState::Spawning).len(),
        fanout(members).3 == members.filter(|m: PoolMember| m.state == MemberState::Returning).len(),
{
    lemma_count_state_filter(members, MemberState::Free);
    lemma_count_state_filter(members, MemberState::Allocated);
    lemma_count_state_filter(members, MemberState::Spawning);
    lemma_count_state_filter(members, MemberState::Returning);
}

/// The status counters plus the failed members account for every member.
pub proof fn law_fanout_partitions_members(members: Seq<PoolMember>)
    ensures
        fanout(members).0 + fanout(members).1 + fanout(members).2 + fanout(members).3
            + count_state(members, MemberState::Failed) == members.len(),
{
    lemma_counts_partition(members);
}

} // verus!
