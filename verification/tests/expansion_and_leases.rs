use runtrue_persistence::digest::{content_digest_sha256, expanded_job_id};
use runtrue_persistence::error::ControlPlaneError;
use runtrue_persistence::expansion::{
    check_expanded_job_bound, check_expansion_consistency, check_expansion_template,
    decide_existing_expanded_jobs, decide_expansion_persist, plan_expanded_job_states,
    validate_expansion_bounds, validate_materialization_binding, ExistingExpandedJob,
    ExpandedJobSetRecord, ExpandedJobSetSummary, PlannedExpandedJob,
};
use runtrue_persistence::jobs::JobEntry;
use runtrue_persistence::leases::{
    check_download_ticket, check_ticket_job, check_ticket_ranges, decide_download_start,
    settle_issued_ticket, validate_download_request, validate_source_lease,
    validate_source_ticket_bounds, DownloadStart, IssueRunnerSourceTicket,
    RunnerSourceDownload, RunnerSourceTicketRecord, SourceLeaseRecord, SourceTransferRecord,
};
use runtrue_persistence::states::JobState;

fn record() -> ExpandedJobSetRecord {
    let canonical = b"{\"jobs\":[]}".to_vec();
    ExpandedJobSetRecord {
        id: "workflow-expanded-contract".into(),
        tenant_id: "tenant-contract".into(),
        repository_id: "repository".into(),
        run_id: "workflow-expansion-run-contract".into(),
        parent_capsule_digest: content_digest_sha256(b"capsule"),
        template_id: "dynamic".into(),
        producer_job_id: "build".into(),
        producer_output_name: "axes".into(),
        matrix_input_digest: content_digest_sha256(b"matrix"),
        policy_epoch: 9,
        generated_job_count: 2,
        job_set_digest: content_digest_sha256(&canonical),
        canonical_job_set: canonical,
        signing_key_id: "key".into(),
        signature: vec![7; 64],
        created_unix_ms: 890,
    }
}

fn summary() -> ExpandedJobSetSummary {
    ExpandedJobSetSummary {
        parent_capsule_digest: content_digest_sha256(b"capsule"),
        producer_job_id: "build".into(),
        producer_output_name: "axes".into(),
        matrix_input_digest: content_digest_sha256(b"matrix"),
        policy_epoch: 9,
        job_ids: vec!["dynamic-1".into(), "dynamic-2".into()],
        generated_job_ids: vec!["dynamic-1".into(), "dynamic-2".into()],
    }
}

#[test]
fn expansion_records_are_checked() {
    let r = record();
    assert_eq!(validate_expansion_bounds(&r), Ok(()));
    assert_eq!(check_expansion_consistency(&r, &summary()), Ok(()));
    let mut big = record();
    big.generated_job_count = 1025;
    assert_eq!(
        validate_expansion_bounds(&big),
        Err(ControlPlaneError::InvalidInput(
            "expanded job set exceeds its signed resource bounds"
        ))
    );
    let mut short = record();
    short.signature = vec![1; 63];
    assert!(validate_expansion_bounds(&short).is_err());
    let mut reordered = summary();
    reordered.generated_job_ids.reverse();
    assert_eq!(
        check_expansion_consistency(&r, &reordered),
        Err(ControlPlaneError::IdempotencyConflict)
    );
    let mut tampered = record();
    tampered.canonical_job_set.push(b' ');
    assert_eq!(
        check_expansion_consistency(&tampered, &summary()),
        Err(ControlPlaneError::IdempotencyConflict)
    );
    assert_eq!(check_expansion_template(&summary(), &"build".into(), &"axes".into(), 4), Ok(()));
    assert_eq!(
        check_expansion_template(&summary(), &"build".into(), &"axes".into(), 1),
        Err(ControlPlaneError::IdempotencyConflict)
    );
}

#[test]
fn expansion_persistence_replays_exact_records() {
    let r = record();
    assert_eq!(decide_expansion_persist(None, &r), Ok(false));
    assert_eq!(decide_expansion_persist(Some(&r), &r), Ok(true));
    let mut other = record();
    other.policy_epoch = 10;
    assert_eq!(
        decide_expansion_persist(Some(&r), &other),
        Err(ControlPlaneError::IdempotencyConflict)
    );
    other.created_unix_ms = u64::MAX;
    assert_eq!(
        decide_expansion_persist(None, &other),
        Err(ControlPlaneError::IntegerRange { field: "expansion creation" })
    );
}

fn planned(key: &str, trust: bool) -> PlannedExpandedJob {
    PlannedExpandedJob {
        key: key.into(),
        needs: vec!["build".into()],
        concurrency: None,
        trust_satisfied: trust,
    }
}

#[test]
fn expanded_jobs_start_from_their_needs() {
    let template = vec!["build".to_string()];
    let planned_jobs = vec![planned("dynamic-1", true), planned("dynamic-2", false)];
    let succeeded = vec![JobEntry { key: "build".into(), state: JobState::Succeeded }];
    assert_eq!(
        plan_expanded_job_states(&planned_jobs, &template, &succeeded),
        Ok(vec![JobState::Queued, JobState::BlockedPolicy])
    );
    let failed = vec![
        JobEntry { key: "build".into(), state: JobState::Running },
        JobEntry { key: "build".into(), state: JobState::Failed },
    ];
    assert_eq!(
        plan_expanded_job_states(&planned_jobs, &template, &failed),
        Ok(vec![JobState::Skipped, JobState::BlockedPolicy])
    );
    let running = vec![JobEntry { key: "build".into(), state: JobState::Running }];
    assert_eq!(
        plan_expanded_job_states(&planned_jobs, &template, &running),
        Ok(vec![JobState::Created, JobState::BlockedPolicy])
    );
    assert_eq!(
        plan_expanded_job_states(&planned_jobs, &template, &vec![]),
        Err(ControlPlaneError::CorruptState(
            "expanded job dependency is absent from its run"
        ))
    );
    assert_eq!(
        plan_expanded_job_states(&planned_jobs, &vec![], &succeeded),
        Err(ControlPlaneError::IdempotencyConflict)
    );
}

#[test]
fn existing_expanded_jobs_decide_materialization() {
    let planned_jobs = vec![planned("dynamic-1", true), planned("dynamic-2", true)];
    let stored = |key: &str| ExistingExpandedJob {
        id: expanded_job_id("workflow-expanded-contract", key),
        attempt: 1,
        requirements_match: true,
        concurrency_group: None,
    };
    assert_eq!(
        decide_existing_expanded_jobs("workflow-expanded-contract", &planned_jobs, &vec![None, None]),
        Ok(false)
    );
    assert_eq!(
        decide_existing_expanded_jobs(
            "workflow-expanded-contract",
            &planned_jobs,
            &vec![Some(stored("dynamic-1")), Some(stored("dynamic-2"))]
        ),
        Ok(true)
    );
    assert_eq!(
        decide_existing_expanded_jobs(
            "workflow-expanded-contract",
            &planned_jobs,
            &vec![Some(stored("dynamic-1")), None]
        ),
        Err(ControlPlaneError::CorruptState(
            "expanded scheduler job materialization is partial"
        ))
    );
    assert_eq!(
        decide_existing_expanded_jobs(
            "workflow-expanded-contract",
            &planned_jobs,
            &vec![Some(stored("dynamic-2")), None]
        ),
        Err(ControlPlaneError::IdempotencyConflict)
    );
    assert_eq!(
        validate_materialization_binding("lease", "runner", 1, 1, 0),
        Err(ControlPlaneError::RunnerBrokerBindingMismatch)
    );
    assert_eq!(validate_materialization_binding("lease", "runner", 1, 1, 1), Ok(()));
    assert_eq!(check_expanded_job_bound(1000, 24), Ok(()));
    assert_eq!(
        check_expanded_job_bound(usize::MAX, 24),
        Err(ControlPlaneError::InvalidInput(
            "materialized run exceeds the signed workflow job bound"
        ))
    );
}

fn lease() -> SourceLeaseRecord {
    SourceLeaseRecord {
        job_id: "source-job-contract".into(),
        runner_id: "source-runner-contract".into(),
        fencing_generation: 1,
        installation_fencing_epoch: 3,
        state: "active".into(),
        issued_unix_ms: 850,
        expires_unix_ms: 950,
        hard_deadline_unix_ms: 1_000,
    }
}

#[test]
fn leases_bind_runners() {
    let l = lease();
    assert_eq!(
        validate_source_lease(Some(&l), false, 3, "source-runner-contract", 1, 860),
        Ok("source-job-contract".to_string())
    );
    let mismatch = Err(ControlPlaneError::RunnerBrokerBindingMismatch);
    assert_eq!(validate_source_lease(None, false, 3, "source-runner-contract", 1, 860), mismatch);
    assert_eq!(validate_source_lease(Some(&l), true, 3, "source-runner-contract", 1, 860), mismatch);
    assert_eq!(validate_source_lease(Some(&l), false, 3, "other-runner", 1, 860), mismatch);
    assert_eq!(validate_source_lease(Some(&l), false, 3, "source-runner-contract", 2, 860), mismatch);
    assert_eq!(validate_source_lease(Some(&l), false, 4, "source-runner-contract", 1, 860), mismatch);
    assert_eq!(validate_source_lease(Some(&l), false, 3, "source-runner-contract", 1, 950), mismatch);
    assert_eq!(validate_source_lease(Some(&l), false, 3, "source-runner-contract", 1, 849), mismatch);
    assert_eq!(
        validate_source_lease(Some(&l), false, 3, "source-runner-contract", u64::MAX, 860),
        Err(ControlPlaneError::IntegerRange { field: "source lease fence" })
    );
    let mut corrupt = lease();
    corrupt.issued_unix_ms = -1;
    assert_eq!(
        validate_source_lease(Some(&corrupt), false, 3, "source-runner-contract", 1, 860),
        Err(ControlPlaneError::CorruptState("negative lease issue"))
    );
}

fn issue() -> IssueRunnerSourceTicket {
    IssueRunnerSourceTicket {
        id: "source-ticket-contract".into(),
        tenant_id: "tenant-contract".into(),
        runner_id: "source-runner-contract".into(),
        execution_lease_id: "source-lease-contract".into(),
        fencing_generation: 1,
        job_id: "source-job-contract".into(),
        job_attempt: 1,
        maximum_bytes: 1024,
        issued_unix_ms: 860,
        expires_unix_ms: 940,
    }
}

fn ticket() -> RunnerSourceTicketRecord {
    let r = issue();
    RunnerSourceTicketRecord {
        id: r.id,
        tenant_id: r.tenant_id,
        runner_id: r.runner_id,
        execution_lease_id: r.execution_lease_id,
        fencing_generation: r.fencing_generation,
        job_id: r.job_id,
        job_attempt: r.job_attempt,
        source_snapshot_id: "snapshot".into(),
        tree_manifest_digest: content_digest_sha256(b"tree"),
        maximum_bytes: r.maximum_bytes,
        issued_unix_ms: r.issued_unix_ms,
        expires_unix_ms: r.expires_unix_ms,
    }
}

fn download() -> RunnerSourceDownload {
    RunnerSourceDownload {
        ticket_id: "source-ticket-contract".into(),
        object_digest: content_digest_sha256(b"source object contract"),
        runner_id: "source-runner-contract".into(),
        execution_lease_id: "source-lease-contract".into(),
        fencing_generation: 1,
        job_id: "source-job-contract".into(),
        job_attempt: 1,
        size_bytes: 512,
        recorded_unix_ms: 870,
    }
}

#[test]
fn source_ticket_contract_decisions() {
    let r = issue();
    assert_eq!(validate_source_ticket_bounds(&r), Ok(()));
    assert_eq!(check_ticket_ranges(&r), Ok(()));
    assert_eq!(check_ticket_job(&"source-job-contract".to_string(), &r), Ok(()));
    let tree = content_digest_sha256(b"tree");
    let created = settle_issued_ticket(ticket(), &r, &"snapshot".to_string(), &tree, true).unwrap();
    assert!(!created.replayed);
    let replayed = settle_issued_ticket(ticket(), &r, &"snapshot".to_string(), &tree, false).unwrap();
    assert!(replayed.replayed);
    assert_eq!(replayed.value, created.value);
    assert_eq!(
        settle_issued_ticket(ticket(), &r, &"other".to_string(), &tree, false),
        Err(ControlPlaneError::IdempotencyConflict)
    );
    let mut bad = issue();
    bad.expires_unix_ms = bad.issued_unix_ms;
    assert_eq!(
        validate_source_ticket_bounds(&bad),
        Err(ControlPlaneError::InvalidInput("invalid source ticket bounds"))
    );

    let d = download();
    assert_eq!(validate_download_request(&d), Ok(()));
    assert_eq!(check_download_ticket(&ticket(), &d), Ok(()));
    assert_eq!(decide_download_start(&ticket(), &d, None, 0), Ok(DownloadStart::Reserve));
    let verified = SourceTransferRecord {
        expected_size_bytes: 512,
        maximum_ticket_bytes: 1024,
        state: "verified".into(),
    };
    assert_eq!(
        decide_download_start(&ticket(), &d, Some(&verified), 512),
        Ok(DownloadStart::Resume { verified: true })
    );
    let mut stale = download();
    stale.fencing_generation = 2;
    assert_eq!(
        check_download_ticket(&ticket(), &stale),
        Err(ControlPlaneError::RunnerBrokerBindingMismatch)
    );
    assert_eq!(
        decide_download_start(&ticket(), &d, None, 600),
        Err(ControlPlaneError::RunnerBrokerBindingMismatch)
    );
    assert_eq!(
        decide_download_start(&ticket(), &d, None, -1),
        Err(ControlPlaneError::CorruptState("negative source reserved bytes"))
    );
}
