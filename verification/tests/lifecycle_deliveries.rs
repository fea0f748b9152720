use runtrue_persistence::digest::content_digest_sha256;
use runtrue_persistence::error::ControlPlaneError;
use runtrue_persistence::policy::IdempotentResult;
use runtrue_persistence::scm::{
    claim_lifecycle_delivery, complete_lifecycle_delivery, exhaust_lifecycle_delivery,
    fail_lifecycle_delivery, needs_exhaustion, reserve_lifecycle_delivery,
    validate_lifecycle_failure, CompleteGitHubLifecycleDelivery, ReserveGitHubLifecycleDelivery, FailGitHubLifecycleDelivery, GitHubLifecycleDeliveryRecord,
    GitHubLifecycleDeliveryState, LifecycleClaim,
};

fn pending(attempts: u32, available: u64) -> GitHubLifecycleDeliveryRecord {
    GitHubLifecycleDeliveryRecord {
        delivery_id: "delivery".into(),
        tenant_id: "tenant".into(),
        installation_id: "installation".into(),
        installation_external_id: "42".into(),
        event_name: "installation".into(),
        action: "created".into(),
        payload_digest: content_digest_sha256(b"payload"),
        state: GitHubLifecycleDeliveryState::Pending,
        attempts,
        available_unix_ms: available,
        lease_owner: None,
        lease_generation: 0,
        lease_expires_unix_ms: None,
        completion_digest: None,
        completed_lease_owner: None,
        completed_lease_generation: None,
        last_failure_generation: None,
        last_failure_lease_owner: None,
        last_error_digest: None,
        last_retry_unix_ms: None,
        created_unix_ms: 10,
        updated_unix_ms: 10,
        completed_unix_ms: None,
    }
}

fn claimed(d: GitHubLifecycleDeliveryRecord, worker: &str, now: u64) -> GitHubLifecycleDeliveryRecord {
    match claim_lifecycle_delivery(d, worker, now, 1_000) {
        Ok(LifecycleClaim::Claimed(x)) => x,
        other => panic!("expected a fresh lease, got {other:?}"),
    }
}

fn completion(worker: &str, generation: u64, now: u64) -> CompleteGitHubLifecycleDelivery {
    CompleteGitHubLifecycleDelivery {
        tenant_id: "tenant".into(),
        delivery_id: "delivery".into(),
        worker_id: worker.into(),
        lease_generation: generation,
        completion_digest: content_digest_sha256(b"done"),
        now_unix_ms: now,
    }
}

fn failure(worker: &str, generation: u64, retry: Option<u64>, now: u64) -> FailGitHubLifecycleDelivery {
    FailGitHubLifecycleDelivery {
        tenant_id: "tenant".into(),
        delivery_id: "delivery".into(),
        worker_id: worker.into(),
        lease_generation: generation,
        error_digest: content_digest_sha256(b"boom"),
        retry_unix_ms: retry,
        now_unix_ms: now,
    }
}

#[test]
fn claim_leases_a_due_delivery() {
    let x = claimed(pending(0, 100), "worker", 100);
    assert_eq!(x.state, GitHubLifecycleDeliveryState::Leased);
    assert_eq!(x.attempts, 1);
    assert_eq!(x.lease_generation, 1);
    assert_eq!(x.lease_owner.as_deref(), Some("worker"));
    assert_eq!(x.lease_expires_unix_ms, Some(1_100));
    assert_eq!(x.updated_unix_ms, 100);
    assert_eq!(x.created_unix_ms, 10);
}

#[test]
fn claim_is_exclusive_until_expiry() {
    let x = claimed(pending(0, 0), "worker", 100);
    assert_eq!(
        claim_lifecycle_delivery(x.clone(), "worker", 500, 1_000),
        Ok(LifecycleClaim::Replayed(x.clone()))
    );
    assert_eq!(claim_lifecycle_delivery(x.clone(), "other", 500, 1_000), Ok(LifecycleClaim::Unavailable));
    let retaken = claimed(x, "other", 1_100);
    assert_eq!(retaken.lease_generation, 2);
    assert_eq!(retaken.attempts, 2);
}

#[test]
fn claim_skips_what_is_not_due_or_finished() {
    assert_eq!(claim_lifecycle_delivery(pending(0, 200), "w", 100, 10), Ok(LifecycleClaim::Unavailable));
    let mut done = pending(0, 0);
    done.state = GitHubLifecycleDeliveryState::Completed;
    assert_eq!(claim_lifecycle_delivery(done, "w", 100, 10), Ok(LifecycleClaim::Unavailable));
    let mut failed = pending(0, 0);
    failed.state = GitHubLifecycleDeliveryState::Failed;
    assert_eq!(claim_lifecycle_delivery(failed, "w", 100, 10), Ok(LifecycleClaim::Unavailable));
}

#[test]
fn claim_exhausts_after_eight_attempts() {
    match claim_lifecycle_delivery(pending(8, 0), "w", 100, 10) {
        Ok(LifecycleClaim::Exhausted(x)) => {
            assert_eq!(x.state, GitHubLifecycleDeliveryState::Failed);
            assert_eq!(x.last_failure_lease_owner.as_deref(), Some("github-lifecycle-exhaustion"));
            assert_eq!(x.last_failure_generation, Some(0));
            assert_eq!(
                x.last_error_digest,
                Some(content_digest_sha256(b"github lifecycle delivery attempts exhausted"))
            );
            assert_eq!(x.updated_unix_ms, 100);
        }
        other => panic!("expected exhaustion, got {other:?}"),
    }
    let mut expired = pending(8, 0);
    expired.state = GitHubLifecycleDeliveryState::Leased;
    expired.lease_owner = Some("old".into());
    expired.lease_generation = 8;
    expired.lease_expires_unix_ms = Some(50);
    assert!(needs_exhaustion(&expired, 50));
    assert!(!needs_exhaustion(&expired, 49));
    let x = exhaust_lifecycle_delivery(expired, 60);
    assert_eq!(x.last_failure_lease_owner.as_deref(), Some("old"));
    assert_eq!(x.last_failure_generation, Some(8));
    assert_eq!(x.lease_owner, None);
}

#[test]
fn claim_reports_overflow() {
    let mut d = pending(0, 0);
    d.lease_generation = u64::MAX;
    assert_eq!(
        claim_lifecycle_delivery(d, "w", 1, 1),
        Err(ControlPlaneError::IntegerRange { field: "GitHub lifecycle lease generation" })
    );
    assert_eq!(
        claim_lifecycle_delivery(pending(0, 0), "w", u64::MAX, 1),
        Err(ControlPlaneError::IntegerRange { field: "GitHub lifecycle lease expiry" })
    );
}

#[test]
fn completion_is_recorded_once_and_replayed() {
    let x = claimed(pending(0, 0), "worker", 100);
    let r = completion("worker", 1, 200);
    let done = complete_lifecycle_delivery(x.clone(), &r).unwrap();
    assert!(!done.replayed);
    assert_eq!(done.value.state, GitHubLifecycleDeliveryState::Completed);
    assert_eq!(done.value.lease_owner, None);
    assert_eq!(done.value.completed_lease_owner.as_deref(), Some("worker"));
    assert_eq!(done.value.completed_lease_generation, Some(1));
    assert_eq!(done.value.completed_unix_ms, Some(200));
    assert_eq!(
        complete_lifecycle_delivery(done.value.clone(), &r),
        Ok(IdempotentResult { value: done.value.clone(), replayed: true })
    );
    let mut other = completion("worker", 1, 300);
    other.completion_digest = content_digest_sha256(b"different");
    assert_eq!(
        complete_lifecycle_delivery(done.value, &other),
        Err(ControlPlaneError::IdempotencyConflict)
    );
    assert_eq!(
        complete_lifecycle_delivery(x.clone(), &completion("worker", 1, 1_100)),
        Err(ControlPlaneError::GitHubLifecycleLeaseLost)
    );
    assert_eq!(
        complete_lifecycle_delivery(x, &completion("intruder", 1, 200)),
        Err(ControlPlaneError::GitHubLifecycleLeaseLost)
    );
}

#[test]
fn failure_schedules_a_retry_while_attempts_remain() {
    let x = claimed(pending(0, 0), "worker", 100);
    let r = failure("worker", 1, Some(5_000), 200);
    let failed = fail_lifecycle_delivery(x, &r).unwrap();
    assert!(!failed.replayed);
    assert_eq!(failed.value.state, GitHubLifecycleDeliveryState::Pending);
    assert_eq!(failed.value.available_unix_ms, 5_000);
    assert_eq!(failed.value.last_retry_unix_ms, Some(5_000));
    assert_eq!(failed.value.last_failure_generation, Some(1));
    assert_eq!(
        fail_lifecycle_delivery(failed.value.clone(), &r),
        Ok(IdempotentResult { value: failed.value.clone(), replayed: true })
    );
    assert_eq!(
        fail_lifecycle_delivery(failed.value, &failure("worker", 1, None, 200)),
        Err(ControlPlaneError::IdempotencyConflict)
    );
}

#[test]
fn failure_without_attempts_left_is_final() {
    let x = claimed(pending(7, 0), "worker", 100);
    assert_eq!(x.attempts, 8);
    let failed = fail_lifecycle_delivery(x, &failure("worker", 1, Some(5_000), 200)).unwrap();
    assert_eq!(failed.value.state, GitHubLifecycleDeliveryState::Failed);
    assert_eq!(failed.value.available_unix_ms, 200);
    assert_eq!(failed.value.last_retry_unix_ms, None);
}

#[test]
fn failure_retry_bound() {
    assert_eq!(validate_lifecycle_failure(&failure("w", 1, Some(3_600_100), 100)), Ok(()));
    assert_eq!(
        validate_lifecycle_failure(&failure("w", 1, Some(3_600_101), 100)),
        Err(ControlPlaneError::InvalidInput("GitHub lifecycle retry is outside its bound"))
    );
    assert_eq!(
        validate_lifecycle_failure(&failure("w", 1, Some(99), 100)),
        Err(ControlPlaneError::InvalidInput("GitHub lifecycle retry is outside its bound"))
    );
    assert_eq!(
        validate_lifecycle_failure(&failure("w", 1, Some(u64::MAX), u64::MAX)),
        Err(ControlPlaneError::IntegerRange { field: "GitHub lifecycle retry deadline" })
    );
    assert_eq!(validate_lifecycle_failure(&failure("w", 1, None, u64::MAX)), Ok(()));
    assert_eq!(
        validate_lifecycle_failure(&failure("w", 0, None, 1)),
        Err(ControlPlaneError::InvalidInput("invalid GitHub lifecycle lease generation"))
    );
}

fn reservation(payload: &[u8]) -> ReserveGitHubLifecycleDelivery {
    ReserveGitHubLifecycleDelivery {
        delivery_id: "delivery".into(),
        tenant_id: "tenant".into(),
        installation_id: "installation".into(),
        installation_external_id: "42".into(),
        event_name: "installation".into(),
        action: "created".into(),
        payload_digest: content_digest_sha256(payload),
        now_unix_ms: 10,
    }
}

#[test]
fn reservation_creates_then_replays() {
    let r = reservation(b"payload");
    let first = reserve_lifecycle_delivery(None, &r).unwrap();
    assert!(!first.replayed);
    assert_eq!(first.value, pending(0, 10));
    let again = reserve_lifecycle_delivery(Some(first.value.clone()), &r).unwrap();
    assert!(again.replayed);
    assert_eq!(again.value, first.value);
    assert_eq!(
        reserve_lifecycle_delivery(Some(first.value.clone()), &reservation(b"other payload")),
        Err(ControlPlaneError::IdempotencyConflict)
    );
    let mut renamed = r.clone();
    renamed.action = "deleted".into();
    assert_eq!(
        reserve_lifecycle_delivery(Some(first.value), &renamed),
        Err(ControlPlaneError::IdempotencyConflict)
    );
}
