use std::str::FromStr;
use tatara_process::outside::Timestamp;
use tatara_process::pool::{
    default_free_ttl, default_max_allocation_ttl, duration_text_in_range, glob_match, AllocationRef, EphemeralPool,
    MatchKey, MemberState, PoolMember, PoolPhase, PoolSelector, PoolSpec, PoolStatus,
    ReplacementPolicy, ReturnPolicy,
};

fn at_epoch_second(s: i64) -> Timestamp {
    Timestamp::at_epoch_second(s)
}

fn now_timestamp() -> Timestamp {
    let now = chrono::Utc::now();
    Timestamp { seconds: now.timestamp(), nanos: now.timestamp_subsec_nanos() }
}

fn nanos_since_epoch(t: Timestamp) -> i128 {
    i128::from(t.seconds) * 1_000_000_000 + i128::from(t.nanos)
}

#[test]
fn glob_trailing_star_matches_prefix() {
    assert!(glob_match("pleme-io/*", "pleme-io/demo-app"));
    assert!(!glob_match("pleme-io/*", "drzln/dotfiles"));
    assert!(glob_match("release-*", "release-2026-05"));
    assert!(!glob_match("release-*", "main"));
    assert!(glob_match("main", "main"));
    assert!(!glob_match("main", "develop"));
}

#[test]
fn empty_selector_matches_anything() {
    let s = PoolSelector::default();
    assert!(s.matches(&MatchKey { repo: "any/repo", branch: "any-branch", pr_labels: &[], kind: "any" }));
}

#[test]
fn repo_glob_filters_match_key() {
    let s = PoolSelector { repos: vec!["pleme-io/demo-*".into()], ..Default::default() };
    assert!(s.matches(&MatchKey { repo: "pleme-io/demo-app", branch: "x", pr_labels: &[], kind: "y" }));
    assert!(!s.matches(&MatchKey { repo: "pleme-io/other-repo", branch: "x", pr_labels: &[], kind: "y" }));
}

#[test]
fn pr_labels_require_all() {
    let s = PoolSelector {
        pr_labels: vec!["needs-ephemeral".into(), "integration".into()],
        ..Default::default()
    };
    assert!(s.matches(&MatchKey {
        repo: "x",
        branch: "y",
        pr_labels: &["needs-ephemeral".into(), "integration".into(), "extra".into()],
        kind: "z",
    }));
    assert!(!s.matches(&MatchKey { repo: "x", branch: "y", pr_labels: &["needs-ephemeral".into()], kind: "z" }));
}

#[test]
fn specificity_ranks_more_constrained_higher() {
    let general = PoolSelector::default();
    let specific = PoolSelector {
        repos: vec!["pleme-io/*".into()],
        branches: vec!["main".into()],
        pr_labels: vec!["needs-ephemeral".into()],
        kinds: vec!["github-pr".into()],
    };
    assert!(specific.specificity() > general.specificity());
}

#[test]
fn return_policy_defaults_to_replace() {
    assert_eq!(ReturnPolicy::default(), ReturnPolicy::Replace);
}

#[test]
fn pool_phase_defaults_to_initializing() {
    assert_eq!(PoolPhase::default(), PoolPhase::Initializing);
}

#[test]
fn replacement_policy_as_str_matches_serde() {
    // The wire form is the PascalCase variant name.
    for p in ReplacementPolicy::ALL {
        assert_eq!(p.as_str(), format!("{p:?}"));
    }
}

#[test]
fn replacement_policy_display_matches_as_str() {
    for p in ReplacementPolicy::ALL {
        assert_eq!(p.to_string(), p.as_str());
    }
}

#[test]
fn unknown_replacement_policy_errors() {
    for bad in ["replaceimmediate", "PAUSEPOOL", "Replace-Immediate", "hold_failed", "Pause", "Reset"] {
        let err = ReplacementPolicy::from_str(bad).unwrap_err();
        assert_eq!(err.0, bad, "error payload should echo input verbatim");
    }
}

#[test]
fn replacement_policy_predicate_truth_tables() {
    assert!(ReplacementPolicy::ReplaceImmediate.replaces_failed());
    assert!(!ReplacementPolicy::ReplaceImmediate.pauses_on_failure());

    assert!(!ReplacementPolicy::HoldFailed.replaces_failed());
    assert!(!ReplacementPolicy::HoldFailed.pauses_on_failure());

    assert!(!ReplacementPolicy::PausePool.replaces_failed());
    assert!(ReplacementPolicy::PausePool.pauses_on_failure());
}

#[test]
fn replacement_policy_predicates_are_disjoint() {
    for policy in ReplacementPolicy::ALL {
        assert!(
            !(policy.replaces_failed() && policy.pauses_on_failure()),
            "{policy:?} returns true from both replaces_failed and pauses_on_failure",
        );
    }
}

#[test]
fn replacement_policy_predicate_pair_is_injective() {
    let projections: Vec<(bool, bool)> =
        ReplacementPolicy::ALL.into_iter().map(|p| (p.replaces_failed(), p.pauses_on_failure())).collect();
    let unique: std::collections::HashSet<_> = projections.iter().copied().collect();
    assert_eq!(projections.len(), unique.len(), "predicate pair projection is not injective: {projections:?}");
}

#[test]
fn replacement_policy_default_replaces_failed() {
    let d = ReplacementPolicy::default();
    assert_eq!(d, ReplacementPolicy::ReplaceImmediate);
    assert!(d.replaces_failed());
    assert!(!d.pauses_on_failure());
}

#[test]
fn kinds_filter_to_known_set() {
    let s = PoolSelector { kinds: vec!["github-pr".into(), "manual".into()], ..Default::default() };
    assert!(s.matches(&MatchKey { repo: "x", branch: "y", pr_labels: &[], kind: "github-pr" }));
    assert!(!s.matches(&MatchKey { repo: "x", branch: "y", pr_labels: &[], kind: "scheduled" }));
}

#[test]
fn return_policy_as_str_matches_serde() {
    for p in ReturnPolicy::ALL {
        assert_eq!(p.as_str(), format!("{p:?}"));
    }
}

#[test]
fn return_policy_display_matches_as_str() {
    for p in ReturnPolicy::ALL {
        assert_eq!(p.to_string(), p.as_str());
    }
}

#[test]
fn unknown_return_policy_errors() {
    for bad in ["replace", "RESET", "Re-place", "keep_for_inspection", "DeleteAndRespawn", "ReplaceImmediate"] {
        let err = ReturnPolicy::from_str(bad).unwrap_err();
        assert_eq!(err.0, bad, "error payload should echo input verbatim");
    }
}

#[test]
fn return_policy_predicate_truth_tables() {
    assert!(!ReturnPolicy::Replace.keeps_process());
    assert!(!ReturnPolicy::Replace.runs_reset_job());

    assert!(ReturnPolicy::Reset.keeps_process());
    assert!(ReturnPolicy::Reset.runs_reset_job());

    assert!(ReturnPolicy::Keep.keeps_process());
    assert!(!ReturnPolicy::Keep.runs_reset_job());
}

#[test]
fn return_policy_reset_implies_keeps_process() {
    for policy in ReturnPolicy::ALL {
        if policy.runs_reset_job() {
            assert!(policy.keeps_process(), "{policy:?} runs a reset job but does not keep the process");
        }
    }
}

#[test]
fn return_policy_predicate_pair_is_injective() {
    let projections: Vec<(bool, bool)> =
        ReturnPolicy::ALL.into_iter().map(|p| (p.keeps_process(), p.runs_reset_job())).collect();
    let unique: std::collections::HashSet<_> = projections.iter().copied().collect();
    assert_eq!(projections.len(), unique.len(), "predicate pair projection is not injective: {projections:?}");
}

#[test]
fn return_policy_default_is_replace_and_neither_predicate_fires() {
    let d = ReturnPolicy::default();
    assert_eq!(d, ReturnPolicy::Replace);
    assert!(!d.keeps_process());
    assert!(!d.runs_reset_job());
}

#[test]
fn member_state_as_str_matches_serde() {
    for s in MemberState::ALL {
        assert_eq!(s.as_str(), format!("{s:?}"));
    }
}

#[test]
fn member_state_display_matches_as_str() {
    for s in MemberState::ALL {
        assert_eq!(s.to_string(), s.as_str());
    }
}

#[test]
fn unknown_member_state_errors() {
    for bad in ["free", "SPAWNING", "Free-State", "allocated_now", "ReplaceImmediate", "Reset", "Attested"] {
        let err = MemberState::from_str(bad).unwrap_err();
        assert_eq!(err.0, bad, "error payload should echo input verbatim");
    }
}

#[test]
fn member_state_predicate_truth_tables() {
    assert!(!MemberState::Spawning.is_failed());
    assert!(MemberState::Spawning.counts_toward_supply());

    assert!(!MemberState::Free.is_failed());
    assert!(MemberState::Free.counts_toward_supply());

    assert!(!MemberState::Allocated.is_failed());
    assert!(!MemberState::Allocated.counts_toward_supply());

    assert!(!MemberState::Returning.is_failed());
    assert!(!MemberState::Returning.counts_toward_supply());

    assert!(MemberState::Failed.is_failed());
    assert!(!MemberState::Failed.counts_toward_supply());
}

#[test]
fn member_state_failed_implies_no_supply() {
    for state in MemberState::ALL {
        assert!(
            !(state.is_failed() && state.counts_toward_supply()),
            "{state:?} returns true from both is_failed and counts_toward_supply",
        );
    }
}

#[test]
fn member_state_buckets_cover_every_variant() {
    let mut supply = 0u32;
    let mut failed = 0u32;
    let mut in_use = 0u32;
    for state in MemberState::ALL {
        match (state.is_failed(), state.counts_toward_supply()) {
            (true, false) => failed += 1,
            (false, true) => supply += 1,
            (false, false) => in_use += 1,
            (true, true) => panic!("disjointness already pins this empty for {state:?}"),
        }
    }
    assert_eq!(supply, 2, "supply bucket: Free + Spawning");
    assert_eq!(failed, 1, "failed bucket: Failed");
    assert_eq!(in_use, 2, "in-use bucket: Allocated + Returning");
    assert_eq!(supply + failed + in_use, MemberState::ALL.len() as u32);
}

#[test]
fn pool_phase_as_str_matches_serde() {
    for p in PoolPhase::ALL {
        assert_eq!(p.as_str(), format!("{p:?}"));
    }
}

#[test]
fn pool_phase_display_matches_as_str() {
    for p in PoolPhase::ALL {
        assert_eq!(p.to_string(), p.as_str());
    }
}

#[test]
fn unknown_pool_phase_errors() {
    for bad in ["steady", "SCALINGUP", "Scaling-Up", "scaling_down", "Free", "Replace", "Attested", "HoldFailed"] {
        let err = PoolPhase::from_str(bad).unwrap_err();
        assert_eq!(err.0, bad, "error payload should echo input verbatim");
    }
}

#[test]
fn pool_phase_predicate_truth_tables() {
    assert!(!PoolPhase::Initializing.is_steady());
    assert!(!PoolPhase::Initializing.is_terminal());

    assert!(PoolPhase::Steady.is_steady());
    assert!(!PoolPhase::Steady.is_terminal());

    assert!(!PoolPhase::ScalingUp.is_steady());
    assert!(!PoolPhase::ScalingUp.is_terminal());

    assert!(!PoolPhase::ScalingDown.is_steady());
    assert!(!PoolPhase::ScalingDown.is_terminal());

    assert!(!PoolPhase::Degraded.is_steady());
    assert!(!PoolPhase::Degraded.is_terminal());

    assert!(!PoolPhase::Draining.is_steady());
    assert!(PoolPhase::Draining.is_terminal());
}

#[test]
fn pool_phase_steady_excludes_terminal() {
    for phase in PoolPhase::ALL {
        assert!(!(phase.is_steady() && phase.is_terminal()), "{phase:?} is both steady and terminal");
    }
}

#[test]
fn pool_phase_buckets_cover_every_variant() {
    let mut converged = 0u32;
    let mut terminal = 0u32;
    let mut transient = 0u32;
    for phase in PoolPhase::ALL {
        match (phase.is_steady(), phase.is_terminal()) {
            (true, false) => converged += 1,
            (false, true) => terminal += 1,
            (false, false) => transient += 1,
            (true, true) => panic!("disjointness already pins this empty for {phase:?}"),
        }
    }
    assert_eq!(converged, 1, "converged bucket: Steady");
    assert_eq!(terminal, 1, "terminal bucket: Draining");
    assert_eq!(transient, 4, "transient bucket: Initializing + ScalingUp + ScalingDown + Degraded");
    assert_eq!(converged + terminal + transient, PoolPhase::ALL.len() as u32);
}

#[test]
fn pool_phase_default_is_initializing_in_transient_bucket() {
    let d = PoolPhase::default();
    assert_eq!(d, PoolPhase::Initializing);
    assert!(!d.is_steady());
    assert!(!d.is_terminal());
}

/// A pool member template: an ephemeral spec document, carried opaquely.
fn empty_template() -> serde_json::Value {
    let mut aplicacao = serde_json::Map::new();
    aplicacao.insert("chart".into(), serde_json::Value::String("oci://x".into()));
    aplicacao.insert("version".into(), serde_json::Value::String("1".into()));
    let mut spec = serde_json::Map::new();
    spec.insert("aplicacao".into(), serde_json::Value::Object(aplicacao));
    spec.insert("ttl".into(), serde_json::Value::String("1h".into()));
    spec.insert("teardown".into(), serde_json::Value::String("Always".into()));
    spec.insert("maxConcurrent".into(), serde_json::Value::from(0u32));
    serde_json::Value::Object(spec)
}

fn pool_spec() -> PoolSpec {
    PoolSpec { desired_size: 1, ..PoolSpec::with_template(empty_template()) }
}

fn pool_named(name: &str) -> EphemeralPool {
    EphemeralPool::new(name, pool_spec())
}

fn pool_unnamed() -> EphemeralPool {
    let mut p = EphemeralPool::new("scratch", pool_spec());
    p.metadata.name = None;
    p
}

#[test]
fn name_or_empty_returns_empty_string_when_metadata_name_is_none() {
    let p = pool_unnamed();
    assert!(p.metadata.name.is_none(), "fixture invariant");
    assert_eq!(p.name_or_empty(), "");
}

#[test]
fn name_or_empty_returns_populated_slot_verbatim() {
    let p = pool_named("attest-pool");
    assert_eq!(p.name_or_empty(), "attest-pool");
}

#[test]
fn name_or_empty_returns_empty_string_when_slot_is_explicitly_empty_string() {
    let mut p = pool_named("scratch");
    p.metadata.name = Some(String::new());
    assert_eq!(p.name_or_empty(), "");
}

#[test]
fn name_or_empty_is_a_pure_projection() {
    let p = pool_named("router-pool");
    assert_eq!(p.name_or_empty(), p.name_or_empty());
    assert_eq!(p.name_or_empty(), "router-pool");
    assert_eq!(p.name_or_empty(), "router-pool");
}

#[test]
fn name_or_empty_matches_pre_lift_chain_verbatim() {
    let cases: [(Option<String>, &str); 3] =
        [(None, ""), (Some("attest-pool".into()), "attest-pool"), (Some(String::new()), "")];
    for (slot, expected) in cases {
        let mut p = pool_named("scratch");
        p.metadata.name = slot.clone();
        let chain = p.metadata.name.as_deref().unwrap_or("");
        assert_eq!(chain, expected, "chain sanity");
        assert_eq!(p.name_or_empty(), chain);
        assert_eq!(p.name_or_empty(), expected);
    }
}

#[test]
fn name_or_empty_borrows_from_metadata_name_slot() {
    let p = pool_named("attest-pool");
    let s: &str = p.name_or_empty();
    assert_eq!(s.as_ptr(), p.metadata.name.as_deref().unwrap().as_ptr());
}

#[test]
fn owned_name_or_empty_returns_empty_string_when_metadata_name_is_none() {
    let p = pool_unnamed();
    assert!(p.metadata.name.is_none(), "fixture invariant");
    assert_eq!(p.owned_name_or_empty(), String::new());
}

#[test]
fn owned_name_or_empty_returns_owned_string_when_slot_is_populated() {
    let p = pool_named("attest-pool");
    assert_eq!(p.owned_name_or_empty(), "attest-pool");
}

#[test]
fn owned_name_or_empty_returns_empty_string_when_slot_is_explicitly_empty_string() {
    let mut p = pool_named("scratch");
    p.metadata.name = Some(String::new());
    assert_eq!(p.owned_name_or_empty(), String::new());
    assert!(p.owned_name_or_empty().is_empty());
}

#[test]
fn owned_name_or_empty_is_a_pure_projection() {
    let p = pool_named("router-pool");
    assert_eq!(p.owned_name_or_empty(), p.owned_name_or_empty());
    assert_eq!(p.owned_name_or_empty(), "router-pool");
    assert_eq!(p.owned_name_or_empty(), "router-pool");
}

#[test]
fn owned_name_or_empty_matches_pre_lift_chain_verbatim() {
    let cases: [(Option<String>, &str); 3] =
        [(None, ""), (Some("attest-pool".into()), "attest-pool"), (Some(String::new()), "")];
    for (slot, expected) in cases {
        let mut p = pool_named("scratch");
        p.metadata.name = slot.clone();
        let chain = p.metadata.name.clone().unwrap_or_default();
        assert_eq!(chain.as_str(), expected, "chain sanity");
        assert_eq!(p.owned_name_or_empty(), chain);
        assert_eq!(p.owned_name_or_empty().as_str(), expected);
    }
}

#[test]
fn owned_name_or_empty_matches_borrow_form_peer_on_populated_slot() {
    let p = pool_named("attest-pool");
    assert_eq!(p.name_or_empty(), p.owned_name_or_empty().as_str());
}

#[test]
fn owned_name_or_empty_matches_borrow_form_peer_on_missing_slot() {
    let p = pool_unnamed();
    assert_eq!(p.name_or_empty(), p.owned_name_or_empty().as_str());
    assert_eq!(p.name_or_empty(), "");
    assert_eq!(p.owned_name_or_empty(), String::new());
}

fn tombstoned_pool() -> EphemeralPool {
    let mut p = pool_named("attest-pool");
    p.metadata.namespace = Some("ephemeral-pools".into());
    p.metadata.deletion_timestamp = Some(now_timestamp());
    p
}

#[test]
fn is_being_deleted_returns_false_when_deletion_timestamp_is_absent() {
    let mut p = pool_named("attest-pool");
    p.metadata.deletion_timestamp = None;
    assert!(!p.is_being_deleted());
}

#[test]
fn is_being_deleted_returns_true_when_deletion_timestamp_is_present() {
    let p = tombstoned_pool();
    assert!(p.is_being_deleted());
}

#[test]
fn is_being_deleted_is_a_pure_projection() {
    let p = tombstoned_pool();
    let a = p.is_being_deleted();
    let b = p.is_being_deleted();
    assert_eq!(a, b);
    assert!(a);
}

#[test]
fn is_being_deleted_matches_pre_lift_pool_reconciler_chain_shape() {
    fn chain(p: &EphemeralPool) -> bool {
        p.metadata.deletion_timestamp.is_some()
    }
    let mut p = pool_named("attest-pool");
    p.metadata.deletion_timestamp = None;
    assert_eq!(p.is_being_deleted(), chain(&p));
    let p = tombstoned_pool();
    assert_eq!(p.is_being_deleted(), chain(&p));
}

#[test]
fn is_being_deleted_composes_with_pool_phase_draining_at_reconcile_preempt() {
    let alive = pool_named("attest-pool");
    assert!(!alive.is_being_deleted());
    let dying = tombstoned_pool();
    assert!(dying.is_being_deleted());
}

#[test]
fn owned_namespace_or_empty_returns_empty_string_when_metadata_namespace_is_none() {
    let mut p = pool_named("attest-pool");
    p.metadata.namespace = None;
    assert!(p.metadata.namespace.is_none(), "fixture invariant");
    assert_eq!(p.owned_namespace_or_empty(), String::new());
}

#[test]
fn owned_namespace_or_empty_returns_owned_string_when_slot_is_populated() {
    let mut p = pool_named("attest-pool");
    p.metadata.namespace = Some("ephemeral-pools".into());
    assert_eq!(p.owned_namespace_or_empty(), "ephemeral-pools");
}

#[test]
fn owned_namespace_or_empty_returns_empty_string_when_slot_is_explicitly_empty_string() {
    let mut p = pool_named("attest-pool");
    p.metadata.namespace = Some(String::new());
    assert_eq!(p.owned_namespace_or_empty(), String::new());
    assert!(p.owned_namespace_or_empty().is_empty());
}

#[test]
fn owned_namespace_or_empty_is_a_pure_projection() {
    let mut p = pool_named("attest-pool");
    p.metadata.namespace = Some("ephemeral-pools".into());
    assert_eq!(p.owned_namespace_or_empty(), p.owned_namespace_or_empty());
    assert_eq!(p.owned_namespace_or_empty(), "ephemeral-pools");
    assert_eq!(p.owned_namespace_or_empty(), "ephemeral-pools");
}

#[test]
fn owned_namespace_or_empty_matches_pre_lift_chain_verbatim() {
    let cases: [(Option<String>, &str); 3] =
        [(None, ""), (Some("ephemeral-pools".into()), "ephemeral-pools"), (Some(String::new()), "")];
    for (slot, expected) in cases {
        let mut p = pool_named("attest-pool");
        p.metadata.namespace = slot.clone();
        let chain = p.metadata.namespace.clone().unwrap_or_default();
        assert_eq!(chain.as_str(), expected, "chain sanity");
        assert_eq!(p.owned_namespace_or_empty(), chain);
        assert_eq!(p.owned_namespace_or_empty().as_str(), expected);
    }
}

#[test]
fn owned_namespace_or_empty_composes_with_owned_name_or_empty_on_paired_slot_axis() {
    let mut p = pool_named("attest-pool");
    p.metadata.namespace = None;
    p.metadata.name = None;
    assert_eq!(p.owned_name_or_empty(), p.owned_namespace_or_empty());
    assert_eq!(p.owned_name_or_empty(), String::new());
    assert_eq!(p.owned_namespace_or_empty(), String::new());
}

#[test]
fn owned_namespace_or_empty_does_not_default_to_process_default_namespace() {
    let mut p = pool_named("attest-pool");
    p.metadata.namespace = None;
    assert_ne!(p.owned_namespace_or_empty(), "default");
    assert_eq!(p.owned_namespace_or_empty(), "");
}

#[test]
fn owned_uid_or_name_or_empty_returns_uid_when_uid_is_present() {
    let mut p = pool_named("attest-pool");
    p.metadata.uid = Some("uid-42".into());
    assert_eq!(p.owned_uid_or_name_or_empty(), "uid-42");
}

#[test]
fn owned_uid_or_name_or_empty_falls_back_to_name_when_uid_is_missing() {
    let mut p = pool_named("attest-pool");
    p.metadata.uid = None;
    assert_eq!(p.owned_uid_or_name_or_empty(), "attest-pool");
}

#[test]
fn owned_uid_or_name_or_empty_sinks_to_empty_when_both_slots_are_missing() {
    let mut p = pool_named("attest-pool");
    p.metadata.uid = None;
    p.metadata.name = None;
    assert_eq!(p.owned_uid_or_name_or_empty(), String::new());
    assert!(p.owned_uid_or_name_or_empty().is_empty());
}

#[test]
fn owned_uid_or_name_or_empty_prefers_uid_when_both_slots_are_present() {
    let mut p = pool_named("attest-pool");
    p.metadata.uid = Some("uid-preferred".into());
    p.metadata.name = Some("attest-pool".into());
    assert_eq!(p.owned_uid_or_name_or_empty(), "uid-preferred");
    assert_ne!(p.owned_uid_or_name_or_empty(), "attest-pool");
}

#[test]
fn owned_uid_or_name_or_empty_returns_uid_even_when_uid_is_explicitly_empty_string() {
    let mut p = pool_named("attest-pool");
    p.metadata.uid = Some(String::new());
    p.metadata.name = Some("attest-pool".into());
    assert_eq!(p.owned_uid_or_name_or_empty(), String::new());
    assert_ne!(p.owned_uid_or_name_or_empty(), "attest-pool");
}

#[test]
fn owned_uid_or_name_or_empty_is_a_pure_projection() {
    let mut p = pool_named("attest-pool");
    p.metadata.uid = Some("uid-42".into());
    assert_eq!(p.owned_uid_or_name_or_empty(), p.owned_uid_or_name_or_empty());
    p.metadata.uid = None;
    assert_eq!(p.owned_uid_or_name_or_empty(), p.owned_uid_or_name_or_empty());
    p.metadata.name = None;
    assert_eq!(p.owned_uid_or_name_or_empty(), p.owned_uid_or_name_or_empty());
}

#[test]
fn owned_uid_or_name_or_empty_matches_pre_lift_chain_verbatim() {
    let cases: [(Option<String>, Option<String>, &str); 6] = [
        (Some("uid-42".into()), Some("attest-pool".into()), "uid-42"),
        (Some("uid-42".into()), None, "uid-42"),
        (Some(String::new()), Some("attest-pool".into()), ""),
        (None, Some("attest-pool".into()), "attest-pool"),
        (None, Some(String::new()), ""),
        (None, None, ""),
    ];
    for (uid_slot, name_slot, expected) in cases {
        let mut p = pool_named("attest-pool");
        p.metadata.uid = uid_slot.clone();
        p.metadata.name = name_slot.clone();
        let chain = p.metadata.uid.clone().unwrap_or_else(|| p.metadata.name.clone().unwrap_or_default());
        assert_eq!(chain.as_str(), expected, "chain sanity");
        assert_eq!(p.owned_uid_or_name_or_empty(), chain);
        assert_eq!(p.owned_uid_or_name_or_empty().as_str(), expected);
    }
}

#[test]
fn owned_uid_or_name_or_empty_composes_with_member_process_name_seed_shape() {
    let mut p = pool_named("attest-pool");
    p.metadata.uid = Some("uid-42".into());
    let seed: String = p.owned_uid_or_name_or_empty();
    let _borrowed: &str = &seed;
    assert_eq!(seed, "uid-42");
    p.metadata.uid = None;
    let seed_fallback: String = p.owned_uid_or_name_or_empty();
    let _borrowed_fallback: &str = &seed_fallback;
    assert_eq!(seed_fallback, "attest-pool");
}

#[test]
fn allocation_ref_new_composes_owned_string_pair_verbatim() {
    let r = AllocationRef::new(String::from("pr-42-demo"), String::from("ephemeral-pools"));
    assert_eq!(r.name, "pr-42-demo");
    assert_eq!(r.namespace, "ephemeral-pools");
}

#[test]
fn allocation_ref_new_matches_pre_lift_struct_literal_verbatim() {
    let owned_name = String::from("pr-42-demo");
    let owned_ns = String::from("ephemeral-pools");
    let lifted = AllocationRef::new(owned_name.clone(), owned_ns.clone());
    let literal = AllocationRef { name: owned_name, namespace: owned_ns };
    assert_eq!(lifted, literal);
}

#[test]
fn allocation_ref_new_accepts_str_provenance_via_into_string() {
    let from_str = AllocationRef::new("pr-42-demo", "ephemeral-pools");
    let from_string = AllocationRef::new(String::from("pr-42-demo"), String::from("ephemeral-pools"));
    assert_eq!(from_str, from_string);
    let mixed_a = AllocationRef::new(String::from("pr-42-demo"), "ephemeral-pools");
    let mixed_b = AllocationRef::new("pr-42-demo", String::from("ephemeral-pools"));
    assert_eq!(from_str, mixed_a);
    assert_eq!(from_str, mixed_b);
}

#[test]
fn allocation_ref_new_positional_axis_order_pinned_name_first_namespace_second() {
    let r = AllocationRef::new("alpha-name", "beta-namespace");
    assert_eq!(r.name, "alpha-name");
    assert_eq!(r.namespace, "beta-namespace");
    assert_ne!(r.name, "beta-namespace");
    assert_ne!(r.namespace, "alpha-name");
}

#[test]
fn allocation_ref_new_preserves_empty_string_verbatim() {
    let r = AllocationRef::new("", "");
    assert_eq!(r.name, "");
    assert_eq!(r.namespace, "");
    let mixed = AllocationRef::new("pr-42-demo", "");
    assert_eq!(mixed.name, "pr-42-demo");
    assert_eq!(mixed.namespace, "");
}

#[test]
fn allocation_ref_new_composes_with_owned_name_or_empty_pool_projection() {
    let pool = pool_named("attest-pool");
    let r = AllocationRef::new(pool.owned_name_or_empty(), pool.owned_namespace_or_empty());
    assert_eq!(r.name, "attest-pool");
    assert_eq!(r.namespace, pool.owned_namespace_or_empty());
}

fn member(state: MemberState) -> PoolMember {
    PoolMember::unallocated("m", state, at_epoch_second(0))
}

#[test]
fn state_count_fanout_returns_all_zeros_on_empty_slice() {
    assert_eq!(PoolMember::state_count_fanout(&[]), (0, 0, 0, 0));
}

#[test]
fn state_count_fanout_partitions_variants_into_correct_slots() {
    let members = vec![
        member(MemberState::Free),
        member(MemberState::Free),
        member(MemberState::Allocated),
        member(MemberState::Spawning),
        member(MemberState::Spawning),
        member(MemberState::Spawning),
        member(MemberState::Returning),
    ];
    assert_eq!(PoolMember::state_count_fanout(&members), (2, 1, 3, 1));
}

#[test]
fn state_count_fanout_excludes_failed_from_every_counter() {
    let members = vec![member(MemberState::Failed), member(MemberState::Failed), member(MemberState::Failed)];
    assert_eq!(PoolMember::state_count_fanout(&members), (0, 0, 0, 0));

    let mixed = vec![member(MemberState::Free), member(MemberState::Failed), member(MemberState::Failed)];
    assert_eq!(PoolMember::state_count_fanout(&mixed), (1, 0, 0, 0));
}

#[test]
fn state_count_fanout_matches_pre_lift_count_state_helper_verbatim() {
    fn count_state(members: &[PoolMember], target: MemberState) -> u32 {
        members.iter().filter(|m| m.state == target).count() as u32
    }
    let members = vec![
        member(MemberState::Free),
        member(MemberState::Allocated),
        member(MemberState::Allocated),
        member(MemberState::Spawning),
        member(MemberState::Returning),
        member(MemberState::Returning),
        member(MemberState::Failed),
    ];
    let (ready, allocated, spawning, returning) = PoolMember::state_count_fanout(&members);
    assert_eq!(ready, count_state(&members, MemberState::Free));
    assert_eq!(allocated, count_state(&members, MemberState::Allocated));
    assert_eq!(spawning, count_state(&members, MemberState::Spawning));
    assert_eq!(returning, count_state(&members, MemberState::Returning));
}

fn named_member(process_name: &str, state: MemberState) -> PoolMember {
    PoolMember::unallocated(process_name, state, at_epoch_second(0))
}

#[test]
fn process_names_set_returns_empty_hashset_on_empty_slice() {
    let empty: Vec<PoolMember> = vec![];
    assert!(PoolMember::process_names_set(&empty).is_empty());
}

#[test]
fn process_names_set_collects_every_process_name_from_populated_slice() {
    let members = vec![
        named_member("pool-a-0", MemberState::Free),
        named_member("pool-a-1", MemberState::Allocated),
        named_member("pool-a-2", MemberState::Spawning),
        named_member("pool-a-3", MemberState::Returning),
        named_member("pool-a-4", MemberState::Failed),
    ];
    let set = PoolMember::process_names_set(&members);
    assert_eq!(set.len(), 5);
    for slot in 0..5 {
        let want = format!("pool-a-{slot}");
        assert!(set.contains(&want), "missing {want}; set = {set:?}");
    }
}

#[test]
fn process_names_set_deduplicates_duplicate_process_names() {
    let members = vec![
        named_member("pool-b-0", MemberState::Free),
        named_member("pool-b-0", MemberState::Spawning),
        named_member("pool-b-1", MemberState::Free),
    ];
    let set = PoolMember::process_names_set(&members);
    assert_eq!(set.len(), 2);
    assert!(set.contains("pool-b-0"));
    assert!(set.contains("pool-b-1"));
}

#[test]
fn process_names_set_membership_probe_matches_pre_lift_chain_verbatim() {
    let members = vec![named_member("pool-c-0", MemberState::Free), named_member("pool-c-1", MemberState::Allocated)];
    let candidates: [&str; 4] = ["pool-c-0", "pool-c-1", "pool-c-2", ""];
    let via_primitive = PoolMember::process_names_set(&members);
    for candidate in candidates {
        let chain: std::collections::HashSet<String> = members.iter().map(|m| m.process_name.clone()).collect();
        assert_eq!(via_primitive.contains(candidate), chain.contains(candidate), "candidate = {candidate:?}");
    }
}

#[test]
fn process_names_set_is_a_pure_projection() {
    let members = vec![named_member("pool-d-0", MemberState::Free), named_member("pool-d-1", MemberState::Spawning)];
    let first = PoolMember::process_names_set(&members);
    let second = PoolMember::process_names_set(&members);
    assert_eq!(first, second);
}

#[test]
fn pool_status_observed_composes_pre_lift_status_seed_verbatim() {
    let now = at_epoch_second(1_700_000_000);
    let members = vec![
        member(MemberState::Free),
        member(MemberState::Allocated),
        member(MemberState::Spawning),
        member(MemberState::Returning),
        member(MemberState::Failed),
    ];
    let member_count = members.len();
    let observed = PoolStatus::observed(PoolPhase::Steady, members, now);
    assert_eq!(observed.phase, PoolPhase::Steady);
    assert_eq!(observed.phase_since, Some(now));
    assert_eq!(observed.ready_count, 1);
    assert_eq!(observed.allocated_count, 1);
    assert_eq!(observed.spawning_count, 1);
    assert_eq!(observed.returning_count, 1);
    assert_eq!(observed.members.len(), member_count);
    assert!(observed.message.is_none());
    assert!(observed.conditions.is_empty());
}

#[test]
fn pool_status_observed_moves_members_by_value_without_extra_clone() {
    let members = vec![member(MemberState::Free), member(MemberState::Spawning)];
    let now = at_epoch_second(0);
    let observed = PoolStatus::observed(PoolPhase::Steady, members, now);
    assert_eq!(observed.members.len(), 2);
}

#[test]
fn pool_status_observed_now_composes_through_observed_with_wall_clock() {
    let members = vec![
        member(MemberState::Free),
        member(MemberState::Allocated),
        member(MemberState::Spawning),
        member(MemberState::Returning),
    ];
    let via_now = PoolStatus::observed_now(PoolPhase::Steady, members.clone());
    let via_injected = PoolStatus::observed(PoolPhase::Steady, members.clone(), now_timestamp());
    assert_eq!(via_now.phase, via_injected.phase);
    assert_eq!(via_now.ready_count, via_injected.ready_count);
    assert_eq!(via_now.allocated_count, via_injected.allocated_count);
    assert_eq!(via_now.spawning_count, via_injected.spawning_count);
    assert_eq!(via_now.returning_count, via_injected.returning_count);
    assert_eq!(via_now.members.len(), via_injected.members.len());
    assert_eq!(via_now.message, via_injected.message);
    assert_eq!(via_now.conditions.len(), via_injected.conditions.len());
}

#[test]
fn pool_status_observed_now_reads_wall_clock_into_phase_since() {
    let before = now_timestamp();
    let observed = PoolStatus::observed_now(PoolPhase::Steady, vec![]);
    let after = now_timestamp();
    let phase_since = observed.phase_since.expect("observed_now must stamp phase_since with the wall clock");
    assert!(phase_since >= before && phase_since <= after, "{phase_since:?} must fall in [{before:?}, {after:?}]");
}

#[test]
fn pool_status_observed_now_stamps_the_same_defaults_as_the_injected_peer() {
    let observed = PoolStatus::observed_now(PoolPhase::Steady, vec![]);
    assert!(observed.message.is_none());
    assert!(observed.conditions.is_empty());
}

#[test]
fn pool_status_observed_now_wall_clock_is_read_per_invocation_not_cached() {
    let first = PoolStatus::observed_now(PoolPhase::Steady, vec![]).phase_since.expect("first stamps");
    let second = PoolStatus::observed_now(PoolPhase::Steady, vec![]).phase_since.expect("second stamps");
    assert!(second >= first, "second {second:?} must be >= first {first:?}");
    let after = now_timestamp();
    assert!(second <= after, "second {second:?} must be <= {after:?}");
}

#[test]
fn pool_status_observed_now_matches_pre_lift_utc_now_composition_shape() {
    let members = vec![member(MemberState::Free), member(MemberState::Spawning)];
    for phase in [PoolPhase::Steady, PoolPhase::ScalingUp, PoolPhase::Degraded] {
        let composed = PoolStatus::observed_now(phase, members.clone()).phase_since.expect("stamps");
        let injected = PoolStatus::observed(phase, members.clone(), now_timestamp()).phase_since.expect("stamps");
        let delta = (nanos_since_epoch(injected) - nanos_since_epoch(composed)).abs();
        assert!(delta <= 100_000_000, "{composed:?} and {injected:?} must agree within 100ms for {phase:?}");
    }
}

#[test]
fn pool_member_unallocated_fills_every_slot_verbatim() {
    let anchor = at_epoch_second(1_700_000_000);
    let m = PoolMember::unallocated("pool-x-0", MemberState::Free, anchor);
    assert_eq!(m.process_name, "pool-x-0");
    assert_eq!(m.state, MemberState::Free);
    assert_eq!(m.entered_state_at, anchor);
    assert!(m.allocation_ref.is_none());
}

#[test]
fn pool_member_unallocated_accepts_owned_string_and_str_at_the_same_signature() {
    let anchor = at_epoch_second(0);
    let via_str = PoolMember::unallocated("pool-y-0", MemberState::Spawning, anchor);
    let owned: String = "pool-y-0".to_string();
    let via_string = PoolMember::unallocated(owned, MemberState::Spawning, anchor);
    assert_eq!(via_str.process_name, via_string.process_name);
    assert_eq!(via_str.state, via_string.state);
    assert_eq!(via_str.entered_state_at, via_string.entered_state_at);
    assert_eq!(via_str.allocation_ref, via_string.allocation_ref);
}

#[test]
fn pool_member_unallocated_matches_pre_lift_struct_literal_bytewise() {
    let anchor = at_epoch_second(1_700_000_000);
    for state in MemberState::ALL {
        let via_primitive = PoolMember::unallocated("m", state, anchor);
        let literal = PoolMember { process_name: "m".into(), state, entered_state_at: anchor, allocation_ref: None };
        assert_eq!(via_primitive.process_name, literal.process_name);
        assert_eq!(via_primitive.state, literal.state);
        assert_eq!(via_primitive.entered_state_at, literal.entered_state_at);
        assert_eq!(via_primitive.allocation_ref, literal.allocation_ref);
    }
}

#[test]
fn pool_member_unallocated_preserves_caller_clock_anchor() {
    let epoch = at_epoch_second(0);
    let future = at_epoch_second(2_000_000_000);
    let anchored_at_epoch = PoolMember::unallocated("a", MemberState::Free, epoch);
    let anchored_at_future = PoolMember::unallocated("b", MemberState::Free, future);
    assert_eq!(anchored_at_epoch.entered_state_at, epoch);
    assert_eq!(anchored_at_future.entered_state_at, future);
    assert_ne!(anchored_at_epoch.entered_state_at, anchored_at_future.entered_state_at);
}

#[test]
fn has_name_returns_true_when_slot_is_populated_and_equal() {
    let p = pool_named("attest-pool");
    assert!(p.has_name("attest-pool"));
}

#[test]
fn has_name_returns_false_when_slot_is_populated_and_different() {
    let p = pool_named("attest-pool");
    assert!(!p.has_name("other-pool"));
    assert!(!p.has_name("attest"));
    assert!(!p.has_name("attest-pool-2"));
    assert!(!p.has_name("ATTEST-POOL"));
}

#[test]
fn has_name_returns_false_when_slot_is_none_even_against_empty_candidate() {
    let p = pool_unnamed();
    assert!(p.metadata.name.is_none(), "fixture invariant");
    assert!(!p.has_name(""));
    assert!(!p.has_name("attest-pool"));
}

#[test]
fn has_name_returns_true_only_when_populated_slot_and_candidate_are_both_empty() {
    let mut p = pool_named("scratch");
    p.metadata.name = Some(String::new());
    assert!(p.has_name(""));
    assert!(!p.has_name("attest-pool"));
}

#[test]
fn has_name_matches_pre_lift_chain_verbatim_across_full_corner_set() {
    let slots: [Option<String>; 3] = [None, Some(String::from("attest-pool")), Some(String::new())];
    let candidates: [&str; 3] = ["attest-pool", "", "other"];
    for slot in slots {
        let mut p = pool_named("scratch");
        p.metadata.name = slot.clone();
        for candidate in candidates {
            let chain = p.metadata.name.as_deref() == Some(candidate);
            assert_eq!(p.has_name(candidate), chain, "slot = {slot:?}, candidate = {candidate:?}");
        }
    }
}

#[test]
fn has_name_diverges_from_name_or_empty_on_the_missing_slot_corner() {
    let p = pool_unnamed();
    assert_eq!(p.name_or_empty(), "");
    assert!(!p.has_name(""));
}

#[test]
fn has_name_is_a_pure_projection() {
    let p = pool_named("router-pool");
    assert_eq!(p.has_name("router-pool"), p.has_name("router-pool"));
    assert_eq!(p.has_name("other"), p.has_name("other"));
    assert!(p.has_name("router-pool"));
    assert!(!p.has_name("other"));
}

fn pool_spec_with_free_ttl(free_ttl: &str) -> PoolSpec {
    PoolSpec { free_ttl: free_ttl.into(), ..pool_spec() }
}

#[test]
fn pool_spec_free_ttl_duration_parseable_humantime_projects_to_some() {
    for (ttl, expected_secs) in [("30s", 30u64), ("5m", 300), ("1h", 3600), ("24h", 86_400), ("1d", 86_400)] {
        let spec = pool_spec_with_free_ttl(ttl);
        assert_eq!(
            spec.free_ttl_duration(),
            Some(std::time::Duration::from_secs(expected_secs)),
            "free_ttl_duration drift for {ttl:?}",
        );
    }
}

#[test]
fn pool_spec_free_ttl_duration_unparseable_returns_none() {
    for bad in ["", "1our", "forever", "not-a-duration", "1", "-1s"] {
        let spec = pool_spec_with_free_ttl(bad);
        assert_eq!(spec.free_ttl_duration(), None, "free_ttl_duration should be None for {bad:?}");
    }
}

#[test]
fn pool_spec_free_ttl_duration_zero_seconds_returns_some_zero() {
    let spec = pool_spec_with_free_ttl("0s");
    assert_eq!(spec.free_ttl_duration(), Some(std::time::Duration::ZERO));
}

#[test]
fn pool_spec_free_ttl_duration_default_free_ttl_matches_24h() {
    let spec = pool_spec_with_free_ttl(&default_free_ttl());
    assert_eq!(spec.free_ttl_duration(), Some(std::time::Duration::from_secs(24 * 3600)));
}

#[test]
fn pool_spec_free_ttl_duration_matches_pre_lift_hand_authored_chain_bytewise() {
    for ttl in ["24h", "10s", "1our", ""] {
        let spec = pool_spec_with_free_ttl(ttl);
        let via_primitive = spec.free_ttl_duration();
        let direct = humantime::parse_duration(&spec.free_ttl).ok();
        assert_eq!(via_primitive, direct, "free_ttl_duration must equal humantime::parse_duration(..).ok() for {ttl:?}");
    }
}

#[test]
fn with_template_stamps_caller_supplied_template_verbatim() {
    let t = empty_template();
    let s = PoolSpec::with_template(t.clone());
    assert_eq!(s.template, t);
}

#[test]
fn with_template_defaulted_slots_ride_wire_schema_defaults() {
    let s = PoolSpec::with_template(empty_template());
    assert_eq!(s.desired_size, 0);
    assert_eq!(s.min_size, 0);
    assert_eq!(s.max_size, 0);
    assert_eq!(s.return_policy, ReturnPolicy::default());
    assert!(s.selector.repos.is_empty());
    assert!(s.selector.branches.is_empty());
    assert!(s.selector.pr_labels.is_empty());
    assert!(s.selector.kinds.is_empty());
    assert_eq!(s.free_ttl, default_free_ttl());
    assert_eq!(s.max_allocation_ttl, default_max_allocation_ttl());
    assert_eq!(s.desired, 0);
    assert_eq!(s.replacement_policy, ReplacementPolicy::default());
    assert!(!s.stable_name_claim);
}

#[test]
fn with_template_supports_struct_update_override_at_each_pre_lift_axis() {
    let base = PoolSpec::with_template(empty_template());
    let size_1 = PoolSpec { desired_size: 1, ..PoolSpec::with_template(empty_template()) };
    assert_eq!(base.desired_size, 0);
    assert_eq!(size_1.desired_size, 1);
    assert_eq!(size_1.free_ttl, base.free_ttl);
    assert_eq!(size_1.max_allocation_ttl, base.max_allocation_ttl);

    let with_selector =
        PoolSpec { desired_size: 1, selector: PoolSelector::default(), ..PoolSpec::with_template(empty_template()) };
    assert_eq!(with_selector.desired_size, 1);
    assert_eq!(with_selector.free_ttl, base.free_ttl);

    let with_desired = PoolSpec {
        desired: 5,
        replacement_policy: ReplacementPolicy::HoldFailed,
        ..PoolSpec::with_template(empty_template())
    };
    assert_eq!(with_desired.desired, 5);
    assert_eq!(with_desired.replacement_policy, ReplacementPolicy::HoldFailed);
    assert_eq!(with_desired.desired_size, 0);

    let with_sizes =
        PoolSpec { desired_size: 3, min_size: 1, max_size: 5, ..PoolSpec::with_template(empty_template()) };
    assert_eq!(with_sizes.desired_size, 3);
    assert_eq!(with_sizes.min_size, 1);
    assert_eq!(with_sizes.max_size, 5);
    assert_eq!(with_sizes.replacement_policy, base.replacement_policy);
}

#[test]
fn with_template_free_ttl_composes_with_free_ttl_duration_at_default_window() {
    let s = PoolSpec::with_template(empty_template());
    assert_eq!(s.free_ttl_duration(), Some(std::time::Duration::from_secs(24 * 3600)));
}

#[test]
fn new_in_stamps_metadata_name_from_the_name_slot() {
    let p = EphemeralPool::new_in("attest-pool", "pools", pool_spec());
    assert_eq!(p.metadata.name.as_deref(), Some("attest-pool"));
}

#[test]
fn new_in_stamps_metadata_namespace_from_the_ns_slot() {
    let p = EphemeralPool::new_in("attest-pool", "pools", pool_spec());
    assert_eq!(p.metadata.namespace.as_deref(), Some("pools"));
}

#[test]
fn new_in_stamps_spec_from_the_spec_slot_verbatim() {
    let mut s = pool_spec();
    s.desired_size = 7;
    let p = EphemeralPool::new_in("attest-pool", "pools", s.clone());
    assert_eq!(p.spec.desired_size, s.desired_size);
    assert_eq!(p.spec.min_size, s.min_size);
    assert_eq!(p.spec.max_size, s.max_size);
}

#[test]
fn new_in_accepts_both_owned_and_borrowed_namespace_slot() {
    let s = pool_spec();
    let via_str = EphemeralPool::new_in("attest-pool", "pools", s.clone());
    let via_string = EphemeralPool::new_in("attest-pool", String::from("pools"), s.clone());
    assert_eq!(via_str.metadata.namespace, via_string.metadata.namespace);
}

#[test]
fn new_in_matches_pre_lift_construct_then_set_namespace_bytewise() {
    for ns in ["ephemeral-pools", "pools"] {
        let via_primitive = EphemeralPool::new_in("attest-pool", ns, pool_spec());
        let mut by_hand = EphemeralPool::new("attest-pool", pool_spec());
        by_hand.metadata.namespace = Some(ns.into());
        assert_eq!(via_primitive.metadata.name, by_hand.metadata.name);
        assert_eq!(via_primitive.metadata.namespace, by_hand.metadata.namespace);
    }
}

#[test]
fn new_in_defaults_other_metadata_slots_at_kube_derived_new() {
    let p = EphemeralPool::new_in("attest-pool", "pools", pool_spec());
    assert!(p.metadata.finalizers.is_none());
    assert!(p.metadata.owner_references.is_none());
    assert!(p.metadata.labels.is_none());
    assert!(p.metadata.annotations.is_none());
}

// ── Further cases of the library's own ───────────────────────────────

#[test]
fn glob_edge_cases() {
    assert!(glob_match("", "anything"));
    assert!(glob_match("*", ""));
    assert!(glob_match("*", "x"));
    assert!(!glob_match("a*b", "ab"));
    assert!(glob_match("a*b", "a*b"));
    assert!(glob_match("ab*", "ab"));
}

#[test]
fn specificity_scores_each_axis() {
    let s = PoolSelector {
        repos: vec!["r".into()],
        branches: vec![],
        pr_labels: vec!["a".into(), "b".into(), "c".into()],
        kinds: vec!["k".into()],
    };
    assert_eq!(s.specificity(), 8 + 2 * 3 + 1);
    assert_eq!(PoolSelector::default().specificity(), 0);
    let b = PoolSelector { branches: vec!["main".into(), "dev".into()], ..Default::default() };
    assert_eq!(b.specificity(), 4);
}

#[test]
fn branch_globs_filter_match_key() {
    let s = PoolSelector { branches: vec!["release-*".into(), "main".into()], ..Default::default() };
    assert!(s.matches(&MatchKey { repo: "x", branch: "main", pr_labels: &[], kind: "k" }));
    assert!(s.matches(&MatchKey { repo: "x", branch: "release-1", pr_labels: &[], kind: "k" }));
    assert!(!s.matches(&MatchKey { repo: "x", branch: "dev", pr_labels: &[], kind: "k" }));
}

#[test]
fn fanout_and_failed_partition_every_member() {
    let members: Vec<PoolMember> = MemberState::ALL.iter().cycle().take(23).map(|s| member(*s)).collect();
    let (r, a, s, t) = PoolMember::state_count_fanout(&members);
    let failed = members.iter().filter(|m| m.state.is_failed()).count() as u32;
    assert_eq!(r + a + s + t + failed, members.len() as u32);
}

#[test]
fn pool_status_default_is_empty_initializing() {
    let s = PoolStatus::default();
    assert_eq!(s.phase, PoolPhase::Initializing);
    assert!(s.phase_since.is_none());
    assert_eq!((s.ready_count, s.allocated_count, s.spawning_count, s.returning_count), (0, 0, 0, 0));
    assert!(s.members.is_empty());
}

#[test]
fn duration_text_in_range_counts_decimal_digits() {
    assert!(duration_text_in_range("24h"));
    assert!(duration_text_in_range(""));
    assert!(duration_text_in_range("99999999999s"));
    assert!(!duration_text_in_range("100000000000s"));
    assert!(!duration_text_in_range("18446744073709551615s1000000000ns"));
    assert!(duration_text_in_range("1h 30m 15s 5ms 7us 9ns"));
}
