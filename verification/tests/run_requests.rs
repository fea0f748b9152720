use runtrue_persistence::digest::content_digest_sha256;
use runtrue_persistence::error::ControlPlaneError;
use runtrue_persistence::runs::{
    cancel_request_digest, check_stored_request, decide_run_cancel,
    check_remote_run_jobs, completed_at_creation, initial_run_job_state, invalid_text,
    not_found, validate_create_run, validate_idempotency_key, validate_page_request,
    validate_replay_bundle, validate_text, CreateRunRequest, NewJob, ReplayBundleRecord,
    SignedJobFacts,
};
use runtrue_persistence::states::{JobState, RunState};

fn request() -> CreateRunRequest {
    CreateRunRequest {
        id: "workflow-expansion-run-contract".into(),
        repository_id: "repository".into(),
        capsule_id: "capsule".into(),
        priority: 0,
        remote: true,
        created_unix_ms: 880,
        jobs: vec![NewJob {
            id: "workflow-producer-job-contract".into(),
            job_key: "build".into(),
            attempt: 1,
        }],
    }
}

#[test]
fn run_core_text_rules() {
    assert!(invalid_text(""));
    assert!(invalid_text("a\0b"));
    assert!(invalid_text(&"x".repeat(4097)));
    assert!(!invalid_text(&"x".repeat(4096)));
    assert_eq!(validate_text("ok"), Ok(()));
    assert_eq!(
        validate_idempotency_key(&"k".repeat(201)),
        Err(ControlPlaneError::InvalidInput("invalid idempotency key"))
    );
    assert_eq!(validate_idempotency_key("workflow-expansion-run-key"), Ok(()));
    assert_eq!(
        not_found("run", "missing"),
        ControlPlaneError::NotFound { kind: "run", id: "missing".into() }
    );
}

#[test]
fn run_creation_requests_are_validated() {
    assert_eq!(validate_create_run(&request()), Ok(()));
    let mut priority = request();
    priority.priority = 1001;
    assert_eq!(
        validate_create_run(&priority),
        Err(ControlPlaneError::InvalidInput("run priority or job set is invalid"))
    );
    let mut empty = request();
    empty.jobs.clear();
    assert_eq!(
        validate_create_run(&empty),
        Err(ControlPlaneError::InvalidInput("run priority or job set is invalid"))
    );
    let mut duplicate = request();
    duplicate.jobs.push(NewJob {
        id: "workflow-producer-job-contract".into(),
        job_key: "test".into(),
        attempt: 1,
    });
    assert_eq!(
        validate_create_run(&duplicate),
        Err(ControlPlaneError::InvalidInput(
            "job ids must be unique and attempts must start at one"
        ))
    );
    let mut zero = request();
    zero.jobs[0].attempt = 0;
    assert!(validate_create_run(&zero).is_err());
}

#[test]
fn remote_runs_request_their_capsule_jobs() {
    let signed = vec![SignedJobFacts {
        id: "build".into(),
        has_needs: false,
        trust_satisfied: true,
        requirements_match: true,
    }];
    assert_eq!(check_remote_run_jobs(&request().jobs, &signed), Ok(()));
    let mut other = signed.clone();
    other[0].requirements_match = false;
    assert_eq!(
        check_remote_run_jobs(&request().jobs, &other),
        Err(ControlPlaneError::InvalidInput("SCM run jobs do not match the signed capsule"))
    );
    assert_eq!(
        check_remote_run_jobs(&request().jobs, &vec![]),
        Err(ControlPlaneError::InvalidInput("SCM run jobs do not match the signed capsule"))
    );
    assert_eq!(initial_run_job_state(false, false, true, true), JobState::Created);
    assert_eq!(initial_run_job_state(true, false, false, false), JobState::BlockedPolicy);
    assert_eq!(initial_run_job_state(true, true, false, false), JobState::Queued);
    assert_eq!(initial_run_job_state(true, true, true, false), JobState::Created);
    assert_eq!(initial_run_job_state(true, true, false, true), JobState::Created);
    assert!(completed_at_creation(JobState::BlockedPolicy));
    assert!(completed_at_creation(JobState::Skipped));
    assert!(!completed_at_creation(JobState::Queued));
}

#[test]
fn page_requests_are_bounded() {
    assert_eq!(validate_page_request(None, None, 100), Ok(()));
    assert_eq!(
        validate_page_request(None, None, 0),
        Err(ControlPlaneError::InvalidInput("page limit must be between one and one hundred"))
    );
    assert_eq!(
        validate_page_request(Some(""), None, 10),
        Err(ControlPlaneError::InvalidInput("empty, oversized, or NUL text"))
    );
    assert_eq!(validate_page_request(Some("repository"), Some("run-9"), 10), Ok(()));
}

#[test]
fn replay_bundles_are_checked() {
    let bundle = b"{\"run\":\"r\"}".to_vec();
    let record = ReplayBundleRecord {
        id: "replay".into(),
        run_id: "run".into(),
        digest: content_digest_sha256(&bundle),
        canonical_bundle: bundle.clone(),
        created_unix_ms: 10,
        expires_unix_ms: 20,
    };
    assert_eq!(validate_replay_bundle("replay-key", &record), Ok(()));
    let mut expired = record.clone();
    expired.expires_unix_ms = 10;
    assert_eq!(
        validate_replay_bundle("replay-key", &expired),
        Err(ControlPlaneError::InvalidInput("replay bundle expiry must be in the future"))
    );
    let mut wrong = record.clone();
    wrong.digest = content_digest_sha256(b"other");
    assert_eq!(
        validate_replay_bundle("replay-key", &wrong),
        Err(ControlPlaneError::CapsuleDigestMismatch {
            expected: content_digest_sha256(b"other"),
            actual: content_digest_sha256(&bundle),
        })
    );
}

#[test]
fn cancellation_requests() {
    assert_eq!(
        cancel_request_digest("run-1", "operator"),
        content_digest_sha256(br#"{"run_id":"run-1","reason":"operator"}"#)
    );
    assert_eq!(
        cancel_request_digest("run \"2\"", "a\nb"),
        content_digest_sha256(br#"{"run_id":"run \"2\"","reason":"a\nb"}"#)
    );
    let a = cancel_request_digest("run-1", "operator");
    assert_eq!(check_stored_request(&a, &a), Ok(()));
    assert_eq!(
        check_stored_request(&a, &cancel_request_digest("run-1", "other")),
        Err(ControlPlaneError::IdempotencyConflict)
    );
    assert_eq!(decide_run_cancel(RunState::Created), Ok(true));
    assert_eq!(decide_run_cancel(RunState::Running), Ok(true));
    assert_eq!(decide_run_cancel(RunState::Canceled), Ok(false));
    assert_eq!(
        decide_run_cancel(RunState::Succeeded),
        Err(ControlPlaneError::InvalidTransition { entity: "run", from: "succeeded", to: "canceled" })
    );
    assert_eq!(
        decide_run_cancel(RunState::Failed),
        Err(ControlPlaneError::InvalidTransition { entity: "run", from: "failed", to: "canceled" })
    );
}
