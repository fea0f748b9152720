use runtrue_persistence::checks::{
    mark_check_published, record_check_failure, record_check_progress,
    reserve_check_publication, validate_check_reservation, RecordScmCheckFailure,
    RecordScmCheckProgress, ReserveScmCheckPublication, ScmCheckPublicationState,
};
use runtrue_persistence::digest::content_digest_sha256;
use runtrue_persistence::error::ControlPlaneError;

fn reservation(now: u64) -> ReserveScmCheckPublication {
    ReserveScmCheckPublication {
        id: "check".into(),
        tenant_id: "tenant".into(),
        repository_id: "repo".into(),
        installation_id: "installation".into(),
        run_id: "run".into(),
        task_id: "task".into(),
        worker_id: "worker".into(),
        commit_sha: "0123456789abcdef0123456789ABCDEF01234567".into(),
        logical_name: "runtrue/ci".into(),
        external_id: "run:ci".into(),
        request_digest: content_digest_sha256(b"check request"),
        annotation_count: 3,
        now_unix_ms: now,
    }
}

fn progress(run: u64, confirmed: u32, now: u64) -> RecordScmCheckProgress {
    RecordScmCheckProgress {
        tenant_id: "tenant".into(),
        publication_id: "check".into(),
        task_id: "task".into(),
        worker_id: "worker".into(),
        provider_check_run_id: run,
        confirmed_annotations: confirmed,
        now_unix_ms: now,
    }
}

fn failure(terminal: bool, now: u64) -> RecordScmCheckFailure {
    RecordScmCheckFailure {
        tenant_id: "tenant".into(),
        publication_id: "check".into(),
        task_id: "task".into(),
        worker_id: "worker".into(),
        error_code: "rate_limited".into(),
        terminal,
        now_unix_ms: now,
    }
}

#[test]
fn reservations_are_validated() {
    assert_eq!(validate_check_reservation(&reservation(1)), Ok(()));
    let mut short = reservation(1);
    short.commit_sha = "abc".into();
    assert_eq!(
        validate_check_reservation(&short),
        Err(ControlPlaneError::InvalidInput("invalid SCM check commit"))
    );
    let mut odd = reservation(1);
    odd.commit_sha = "g123456789abcdef0123456789abcdef01234567".into();
    assert_eq!(
        validate_check_reservation(&odd),
        Err(ControlPlaneError::InvalidInput("invalid SCM check commit"))
    );
    let mut long = reservation(1);
    long.commit_sha = "a".repeat(64);
    assert_eq!(validate_check_reservation(&long), Ok(()));
    let mut unnamed = reservation(1);
    unnamed.logical_name = String::new();
    assert_eq!(
        validate_check_reservation(&unnamed),
        Err(ControlPlaneError::InvalidInput("SCM check logical name"))
    );
}

#[test]
fn reservation_then_retry() {
    let first = reserve_check_publication(None, &reservation(10)).unwrap();
    assert!(!first.replayed);
    assert_eq!(first.value.state, ScmCheckPublicationState::Reserved);
    assert_eq!(first.value.attempts, 1);
    assert_eq!(first.value.provider, "github");
    assert_eq!(first.value.confirmed_annotations, 0);
    let again = reserve_check_publication(Some(first.value.clone()), &reservation(20)).unwrap();
    assert!(again.replayed);
    assert_eq!(again.value.attempts, 2);
    assert_eq!(again.value.updated_unix_ms, 20);
    assert_eq!(again.value.created_unix_ms, 10);
    assert_eq!(
        reserve_check_publication(Some(first.value.clone()), &reservation(9)),
        Err(ControlPlaneError::IdempotencyConflict)
    );
    let mut other = reservation(20);
    other.annotation_count = 4;
    assert_eq!(
        reserve_check_publication(Some(first.value), &other),
        Err(ControlPlaneError::IdempotencyConflict)
    );
    let mut huge = reservation(20);
    huge.annotation_count = u32::MAX;
    assert_eq!(
        reserve_check_publication(None, &huge),
        Err(ControlPlaneError::IntegerRange { field: "SCM check annotation count" })
    );
}

#[test]
fn progress_then_publish() {
    let reserved = reserve_check_publication(None, &reservation(10)).unwrap().value;
    assert_eq!(
        mark_check_published(reserved.clone(), "task", 11),
        Err(ControlPlaneError::IdempotencyConflict)
    );
    let partly = record_check_progress(reserved.clone(), &progress(77, 1, 11)).unwrap();
    assert_eq!(partly.state, ScmCheckPublicationState::Reconciling);
    assert_eq!(partly.provider_check_run_id, Some(77));
    assert_eq!(
        record_check_progress(partly.clone(), &progress(78, 2, 12)),
        Err(ControlPlaneError::IdempotencyConflict)
    );
    assert_eq!(
        record_check_progress(partly.clone(), &progress(77, 0, 12)),
        Err(ControlPlaneError::IdempotencyConflict)
    );
    assert_eq!(
        record_check_progress(partly.clone(), &progress(77, 4, 12)),
        Err(ControlPlaneError::IdempotencyConflict)
    );
    assert_eq!(
        record_check_progress(partly.clone(), &progress(0, 2, 12)),
        Err(ControlPlaneError::InvalidInput("invalid provider check run id"))
    );
    let full = record_check_progress(partly, &progress(77, 3, 12)).unwrap();
    let published = mark_check_published(full, "task", 13).unwrap();
    assert_eq!(published.state, ScmCheckPublicationState::Published);
    assert_eq!(published.updated_unix_ms, 13);
    assert_eq!(mark_check_published(published.clone(), "task", 14), Ok(published.clone()));
    assert_eq!(record_check_progress(published.clone(), &progress(77, 3, 14)), Ok(published.clone()));
    assert_eq!(
        record_check_failure(published.clone(), &failure(true, 14)),
        Err(ControlPlaneError::IdempotencyConflict)
    );
    assert_eq!(
        mark_check_published(published, "other", 14),
        Err(ControlPlaneError::IdempotencyConflict)
    );
}

#[test]
fn failures_reconcile_or_end() {
    let reserved = reserve_check_publication(None, &reservation(10)).unwrap().value;
    let retry = record_check_failure(reserved.clone(), &failure(false, 11)).unwrap();
    assert_eq!(retry.state, ScmCheckPublicationState::Reconciling);
    assert_eq!(retry.last_error_code.as_deref(), Some("rate_limited"));
    let failed = record_check_failure(retry, &failure(true, 12)).unwrap();
    assert_eq!(failed.state, ScmCheckPublicationState::Failed);
    assert_eq!(
        record_check_progress(failed.clone(), &progress(77, 1, 13)),
        Err(ControlPlaneError::IdempotencyConflict)
    );
    assert_eq!(
        record_check_failure(failed, &failure(true, 11)),
        Err(ControlPlaneError::IdempotencyConflict)
    );
    let mut blank = failure(true, 11);
    blank.error_code = String::new();
    assert_eq!(
        record_check_failure(reserved, &blank),
        Err(ControlPlaneError::InvalidInput("SCM check failure code"))
    );
}
