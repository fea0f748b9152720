use runtrue_persistence::digest::content_digest_sha256;
use runtrue_persistence::error::ControlPlaneError;
use runtrue_persistence::policy_lifecycle::{
    decide_deny_replacement, decide_policy_activation, decide_shadow_persist,
    decide_simulation_persist, policy_step_allowed, ActivationFacts, ActiveBundleFacts,
    PolicyCounters, PolicyDraftFacts, PolicyDraftStatus, PolicyStep, ShadowReportFacts,
    SimulationReportFacts,
};

#[test]
fn draft_steps_move_forward() {
    assert!(policy_step_allowed(PolicyStep::Simulate, PolicyDraftStatus::Draft));
    assert!(policy_step_allowed(PolicyStep::Simulate, PolicyDraftStatus::Simulated));
    assert!(!policy_step_allowed(PolicyStep::Simulate, PolicyDraftStatus::Shadow));
    assert!(policy_step_allowed(PolicyStep::Shadow, PolicyDraftStatus::Simulated));
    assert!(!policy_step_allowed(PolicyStep::Shadow, PolicyDraftStatus::Draft));
    assert!(policy_step_allowed(PolicyStep::Activate, PolicyDraftStatus::Shadow));
    assert!(!policy_step_allowed(PolicyStep::Activate, PolicyDraftStatus::Simulated));
    assert!(!policy_step_allowed(PolicyStep::Activate, PolicyDraftStatus::Activated));
}

fn draft(status: PolicyDraftStatus) -> PolicyDraftFacts {
    PolicyDraftFacts {
        id: "draft".into(),
        tenant_id: "tenant".into(),
        author_id: "author".into(),
        digest: content_digest_sha256(b"bundle"),
        simulation_digest: Some(content_digest_sha256(b"simulation")),
        status,
    }
}

fn active(epoch: u64) -> ActiveBundleFacts {
    ActiveBundleFacts {
        draft_id: "draft".into(),
        digest: content_digest_sha256(b"bundle"),
        simulation_digest: content_digest_sha256(b"simulation"),
        approved_by: "approver".into(),
        policy_epoch: epoch,
    }
}

fn activation(expected: u64) -> ActivationFacts {
    ActivationFacts {
        draft_digest: content_digest_sha256(b"bundle"),
        simulation_digest: content_digest_sha256(b"simulation"),
        approved_by: "approver".into(),
        approved_unix_ms: 100,
        expected_policy_epoch: expected,
        actor_id: "approver".into(),
        occurred_unix_ms: 100,
    }
}

fn counters(epoch: u64, cache: u64) -> PolicyCounters {
    PolicyCounters { policy_epoch: epoch, decision_cache_generation: cache }
}

#[test]
fn activation_moves_the_epoch_by_one() {
    let d = draft(PolicyDraftStatus::Activated);
    let stored = Some(draft(PolicyDraftStatus::Shadow));
    let decide = |state: PolicyCounters, active_epoch: u64, prior: Option<bool>, simulation: Option<bool>| {
        decide_policy_activation(
            &d,
            "tenant",
            &Some(active(active_epoch)),
            &activation(4),
            &stored,
            prior,
            simulation,
            counters(4, 9),
            state,
            true,
        )
    };
    assert_eq!(decide(counters(5, 10), 5, None, Some(true)), Ok(true));
    assert_eq!(decide(counters(5, 10), 5, Some(true), Some(true)), Ok(false));
    assert_eq!(decide(counters(5, 10), 5, Some(false), Some(true)), Err(ControlPlaneError::IdempotencyConflict));
    assert_eq!(decide(counters(6, 10), 6, None, Some(true)), Err(ControlPlaneError::IdempotencyConflict));
    assert_eq!(decide(counters(5, 11), 5, None, Some(true)), Err(ControlPlaneError::IdempotencyConflict));
    assert_eq!(decide(counters(5, 10), 5, None, Some(false)), Err(ControlPlaneError::IdempotencyConflict));
    assert_eq!(
        decide(counters(5, 10), 5, None, None),
        Err(ControlPlaneError::NotFound { kind: "eligible policy simulation", id: "draft".into() })
    );
}

#[test]
fn activation_evidence_binds_the_actor() {
    let evidence = Err(ControlPlaneError::InvalidInput(
        "policy activation evidence does not bind state, draft, and actor",
    ));
    let stored = Some(draft(PolicyDraftStatus::Shadow));
    let mut own = draft(PolicyDraftStatus::Activated);
    own.author_id = "approver".into();
    assert_eq!(
        decide_policy_activation(&own, "tenant", &Some(active(5)), &activation(4), &stored, None, Some(true), counters(4, 9), counters(5, 10), true),
        evidence
    );
    assert_eq!(
        decide_policy_activation(&draft(PolicyDraftStatus::Activated), "other", &Some(active(5)), &activation(4), &stored, None, Some(true), counters(4, 9), counters(5, 10), true),
        evidence
    );
    assert_eq!(
        decide_policy_activation(&draft(PolicyDraftStatus::Activated), "tenant", &None, &activation(4), &stored, None, Some(true), counters(4, 9), counters(5, 10), true),
        Err(ControlPlaneError::InvalidInput("activated policy state has no active bundle"))
    );
    assert_eq!(
        decide_policy_activation(&draft(PolicyDraftStatus::Activated), "tenant", &Some(active(5)), &activation(4), &Some(draft(PolicyDraftStatus::Simulated)), None, Some(true), counters(4, 9), counters(5, 10), true),
        Err(ControlPlaneError::IdempotencyConflict)
    );
    assert_eq!(
        decide_policy_activation(&draft(PolicyDraftStatus::Activated), "tenant", &Some(active(0)), &activation(u64::MAX), &stored, None, Some(true), counters(u64::MAX, 9), counters(0, 10), true),
        Err(ControlPlaneError::IntegerRange { field: "policy epoch" })
    );
}

#[test]
fn deny_replacements_move_the_cache_by_one() {
    assert_eq!(decide_deny_replacement(false, None, false, 9, counters(4, 9), counters(4, 10), true, true), Ok(true));
    assert_eq!(
        decide_deny_replacement(false, None, false, 8, counters(4, 9), counters(4, 10), true, true),
        Err(ControlPlaneError::IdempotencyConflict)
    );
    assert_eq!(
        decide_deny_replacement(false, None, false, 9, counters(4, 9), counters(4, 10), true, false),
        Err(ControlPlaneError::IdempotencyConflict)
    );
    assert_eq!(decide_deny_replacement(true, Some(true), false, 9, counters(4, 10), counters(4, 10), true, true), Ok(false));
    assert_eq!(
        decide_deny_replacement(true, Some(false), false, 9, counters(4, 10), counters(4, 10), true, true),
        Err(ControlPlaneError::IdempotencyConflict)
    );
    assert_eq!(
        decide_deny_replacement(true, None, false, 9, counters(4, 10), counters(4, 10), true, true),
        Err(ControlPlaneError::IdempotencyConflict)
    );
    assert_eq!(decide_deny_replacement(true, None, true, 0, counters(0, 0), counters(0, 0), true, false), Ok(false));
    assert_eq!(
        decide_deny_replacement(false, None, false, u64::MAX, counters(4, u64::MAX), counters(4, 0), true, true),
        Err(ControlPlaneError::IntegerRange { field: "policy decision cache generation" })
    );
}

fn report(results: u64, stored: u64, caller: u64) -> SimulationReportFacts {
    SimulationReportFacts {
        report_digest: content_digest_sha256(b"simulation"),
        policy_digest: content_digest_sha256(b"bundle"),
        results,
        stored_case_count: stored,
        caller_case_count: caller,
        evaluation_error_count: 0,
        expectation_mismatch_count: 0,
    }
}

#[test]
fn simulations_bind_their_draft() {
    let d = draft(PolicyDraftStatus::Simulated);
    let stored = Some(draft(PolicyDraftStatus::Draft));
    assert_eq!(decide_simulation_persist(&d, &report(3, 2, 1), &stored, None, 5), Ok(true));
    assert_eq!(decide_simulation_persist(&d, &report(3, 2, 1), &stored, Some(true), 5), Ok(false));
    assert_eq!(
        decide_simulation_persist(&d, &report(3, 2, 1), &stored, Some(false), 5),
        Err(ControlPlaneError::IdempotencyConflict)
    );
    let binding = Err(ControlPlaneError::InvalidInput("policy simulation does not bind the stored draft"));
    assert_eq!(decide_simulation_persist(&d, &report(4, 2, 1), &stored, None, 5), binding);
    assert_eq!(decide_simulation_persist(&d, &report(1025, 1025, 0), &stored, None, 5), binding);
    assert_eq!(decide_simulation_persist(&d, &report(129, 0, 129), &stored, None, 5), binding);
    assert_eq!(
        decide_simulation_persist(&d, &report(3, 2, 1), &Some(draft(PolicyDraftStatus::Shadow)), None, 5),
        Err(ControlPlaneError::IdempotencyConflict)
    );
    assert_eq!(
        decide_simulation_persist(&d, &report(3, 2, 1), &None, None, 5),
        Err(ControlPlaneError::NotFound { kind: "policy draft", id: "draft".into() })
    );
}

fn shadow(epoch: u64, results: u64) -> ShadowReportFacts {
    ShadowReportFacts {
        shadow_policy_digest: content_digest_sha256(b"bundle"),
        results,
        policy_epoch: epoch,
        active_policy_digest: Some(content_digest_sha256(b"active")),
    }
}

#[test]
fn shadow_runs_bind_the_current_policy() {
    let d = draft(PolicyDraftStatus::Shadow);
    let stored = Some(draft(PolicyDraftStatus::Simulated));
    let active = Some(content_digest_sha256(b"active"));
    assert_eq!(decide_shadow_persist(&d, &Some(shadow(4, 10)), &stored, 4, &active, None, false, 5), Ok(true));
    assert_eq!(decide_shadow_persist(&d, &Some(shadow(4, 10)), &stored, 4, &active, Some(true), false, 5), Ok(false));
    assert_eq!(
        decide_shadow_persist(&d, &Some(shadow(3, 10)), &stored, 4, &active, None, false, 5),
        Err(ControlPlaneError::IdempotencyConflict)
    );
    assert_eq!(
        decide_shadow_persist(&d, &Some(shadow(4, 0)), &stored, 4, &active, None, false, 5),
        Err(ControlPlaneError::InvalidInput("policy shadow report does not bind the draft"))
    );
    assert_eq!(decide_shadow_persist(&d, &None, &stored, 4, &active, None, true, 5), Ok(false));
    assert_eq!(decide_shadow_persist(&d, &None, &stored, 4, &active, None, false, 5), Ok(true));
    assert_eq!(
        decide_shadow_persist(&draft(PolicyDraftStatus::Simulated), &None, &stored, 4, &active, None, false, 5),
        Err(ControlPlaneError::InvalidInput("policy shadow record requires shadow draft state"))
    );
    assert_eq!(
        decide_shadow_persist(&d, &None, &Some(draft(PolicyDraftStatus::Draft)), 4, &active, None, false, 5),
        Err(ControlPlaneError::IdempotencyConflict)
    );
}
