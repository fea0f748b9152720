use runtrue_persistence::config::{
    check_secret_rotatable, next_variable_version, plan_secret_rotation, rotate_secret_metadata,
    secret_create_operation, secret_rotate_operation, tombstone_secret, validate_secret_creation,
    validate_variable_put, variable_operation, variable_version_resource,
    SecretMetadataReference,
};
use runtrue_persistence::error::ControlPlaneError;
use runtrue_persistence::github::{
    decide_installation_status, validate_installation_status_request, GitHubAccountKind,
    GitHubInstallationRecord, SetGitHubInstallationStatus,
};
use runtrue_persistence::scm::{
    continuation_approval_state, continuation_state_name, validate_scm_repository_link,
    ApprovalSnapshot, ContinuationApprovalState, GitHubRepositorySelection, PermissionEntry,
    ScmInstallationRecord, ScmRepositoryLinkRecord,
};
use runtrue_persistence::digest::content_digest_sha256;
use runtrue_persistence::policy::IdempotentResult;
use runtrue_persistence::scm::CreateGitHubSetupTransaction;
use runtrue_persistence::setup::{
    advance_setup, complete_setup, create_setup_transaction, decide_setup_advance,
    parse_setup_status, reject_setup, setup_status_name, validate_setup_completion,
    CompleteGitHubSetupTransaction, GitHubSetupStatus, SetupAdvance, SetupStep,
};
use runtrue_persistence::github::ReconcileGitHubInstallation;

fn installation(status: &str, generation: u64, version: u64) -> GitHubInstallationRecord {
    GitHubInstallationRecord {
        installation: ScmInstallationRecord {
            id: "installation".into(),
            tenant_id: "tenant".into(),
            provider: "github".into(),
            external_id: "990001".into(),
            status: status.into(),
            credential_reference: "github-app:990001".into(),
            permissions: Some(vec![PermissionEntry {
                name: "contents".into(),
                level: Some("read".into()),
            }]),
            created_unix_ms: 1_000,
            updated_unix_ms: 1_000,
        },
        web_origin: "https://github.com".into(),
        api_origin: "https://api.github.com".into(),
        account_external_id: "880001".into(),
        account_login: "octo".into(),
        account_kind: GitHubAccountKind::Organization,
        repository_selection: GitHubRepositorySelection::Selected,
        lifecycle_generation: generation,
        synchronized_unix_ms: 1_000,
        suspended_unix_ms: None,
        revoked_unix_ms: None,
        version,
    }
}

fn status_change(status: &str, generation: u64, expected: u64, now: u64) -> SetGitHubInstallationStatus {
    SetGitHubInstallationStatus {
        tenant_id: "tenant".into(),
        installation_id: "installation".into(),
        status: status.into(),
        expected_version: expected,
        lifecycle_generation: generation,
        now_unix_ms: now,
    }
}

#[test]
fn installation_is_suspended_then_revoked() {
    let c = installation("active", 1, 1);
    let r = status_change("suspended", 2, 1, 2_000);
    assert_eq!(validate_installation_status_request(&r), Ok(()));
    let suspended = decide_installation_status(&c, &r).unwrap();
    assert!(!suspended.replayed);
    assert_eq!(suspended.value.installation.status, "suspended");
    assert_eq!(suspended.value.installation.updated_unix_ms, 2_000);
    assert_eq!(suspended.value.lifecycle_generation, 2);
    assert_eq!(suspended.value.synchronized_unix_ms, 2_000);
    assert_eq!(suspended.value.suspended_unix_ms, Some(2_000));
    assert_eq!(suspended.value.revoked_unix_ms, None);
    assert_eq!(suspended.value.version, 2);
    let again = decide_installation_status(&suspended.value, &r).unwrap();
    assert!(again.replayed);
    assert_eq!(again.value, suspended.value);
    let revoked = decide_installation_status(
        &suspended.value,
        &status_change("revoked", 3, 2, 3_000),
    )
    .unwrap();
    assert_eq!(revoked.value.suspended_unix_ms, None);
    assert_eq!(revoked.value.revoked_unix_ms, Some(3_000));
    assert_eq!(revoked.value.version, 3);
    assert_eq!(
        decide_installation_status(&revoked.value, &status_change("active", 4, 3, 4_000)),
        Err(ControlPlaneError::IdempotencyConflict)
    );
}

#[test]
fn installation_status_conflicts() {
    let c = installation("active", 1, 1);
    for r in [
        status_change("suspended", 2, 2, 2_000),
        status_change("suspended", 3, 1, 2_000),
        status_change("suspended", 2, 1, 999),
    ] {
        assert_eq!(decide_installation_status(&c, &r), Err(ControlPlaneError::IdempotencyConflict));
    }
    let invalid = Err(ControlPlaneError::InvalidInput("invalid GitHub installation status transition"));
    assert_eq!(validate_installation_status_request(&status_change("paused", 2, 1, 1)), invalid);
    assert_eq!(validate_installation_status_request(&status_change("active", 0, 1, 1)), invalid);
    assert_eq!(validate_installation_status_request(&status_change("active", 1, 0, 1)), invalid);
    let mut empty = status_change("active", 1, 1, 1);
    empty.tenant_id = String::new();
    assert_eq!(
        validate_installation_status_request(&empty),
        Err(ControlPlaneError::InvalidInput("GitHub installation tenant"))
    );
}

#[test]
fn setup_status_names_round_trip() {
    for s in [
        GitHubSetupStatus::Pending,
        GitHubSetupStatus::Exchanging,
        GitHubSetupStatus::Completed,
        GitHubSetupStatus::Rejected,
        GitHubSetupStatus::Expired,
    ] {
        assert_eq!(parse_setup_status(setup_status_name(s)), Ok(s));
    }
    assert_eq!(
        parse_setup_status("abandoned"),
        Err(ControlPlaneError::CorruptState("unknown GitHub setup status"))
    );
}

#[test]
fn setup_advances_until_expiry_or_attempts_run_out() {
    assert_eq!(decide_setup_advance(GitHubSetupStatus::Pending, 10, 100, 0, 50), SetupAdvance::Exchange { replayed: false });
    assert_eq!(decide_setup_advance(GitHubSetupStatus::Exchanging, 10, 100, 3, 50), SetupAdvance::Exchange { replayed: true });
    assert_eq!(decide_setup_advance(GitHubSetupStatus::Pending, 10, 100, 0, 100), SetupAdvance::Expire);
    assert_eq!(decide_setup_advance(GitHubSetupStatus::Exchanging, 10, 100, 8, 50), SetupAdvance::Reject);
    assert_eq!(decide_setup_advance(GitHubSetupStatus::Pending, 60, 100, 0, 50), SetupAdvance::Unchanged);
    assert_eq!(decide_setup_advance(GitHubSetupStatus::Completed, 10, 100, 0, 50), SetupAdvance::Unchanged);
    assert_eq!(decide_setup_advance(GitHubSetupStatus::Rejected, 10, 100, 0, 500), SetupAdvance::Unchanged);
}

fn approval(status: &str, expires: i64) -> ApprovalSnapshot {
    ApprovalSnapshot { status: status.into(), expires_unix_ms: expires }
}

#[test]
fn continuation_states() {
    let ok = vec![approval("approved", 500), approval("approved", 600)];
    assert_eq!(continuation_approval_state(2, &ok, 1_000, 100), ContinuationApprovalState::Ready);
    assert_eq!(continuation_approval_state(3, &ok, 1_000, 100), ContinuationApprovalState::Stale);
    assert_eq!(continuation_approval_state(2, &ok, 1_000, 500), ContinuationApprovalState::Expired);
    assert_eq!(continuation_approval_state(2, &ok, 100, 100), ContinuationApprovalState::Expired);
    let pending = vec![approval("approved", 500), approval("pending", 600)];
    assert_eq!(continuation_approval_state(2, &pending, 1_000, 100), ContinuationApprovalState::Waiting);
    let denied = vec![approval("denied", 50), approval("pending", 600)];
    assert_eq!(continuation_approval_state(2, &denied, 1_000, 100), ContinuationApprovalState::Denied);
    assert_eq!(continuation_state_name(ContinuationApprovalState::Ready), "ready");
    assert_eq!(continuation_state_name(ContinuationApprovalState::Waiting), "waiting");
    assert_eq!(continuation_state_name(ContinuationApprovalState::Denied), "denied");
    assert_eq!(continuation_state_name(ContinuationApprovalState::Expired), "expired");
    assert_eq!(continuation_state_name(ContinuationApprovalState::Stale), "stale");
}

fn secret(provider: &str, reference: Option<&str>, status: &str) -> SecretMetadataReference {
    SecretMetadataReference {
        id: "secret".into(),
        tenant_id: "tenant".into(),
        scope: "project:release".into(),
        name: "TOKEN".into(),
        provider: provider.into(),
        provider_reference: reference.map(Into::into),
        secret_type: "opaque".into(),
        status: status.into(),
        current_version: None,
        created_unix_ms: 4,
        updated_unix_ms: 4,
    }
}

#[test]
fn secret_creation_and_rotation() {
    let kind = Err(ControlPlaneError::InvalidInput(
        "built-in secrets require a value; external secrets require only a provider reference",
    ));
    assert_eq!(validate_secret_creation("key", &secret("built-in", None, "active"), true), Ok(()));
    assert_eq!(validate_secret_creation("key", &secret("built-in", None, "active"), false), kind);
    assert_eq!(validate_secret_creation("key", &secret("built-in", Some("x"), "active"), true), kind);
    assert_eq!(validate_secret_creation("key", &secret("vault", Some("x"), "active"), false), Ok(()));
    assert_eq!(validate_secret_creation("key", &secret("vault", None, "active"), false), kind);
    assert_eq!(
        validate_secret_creation("", &secret("vault", Some("x"), "active"), false),
        Err(ControlPlaneError::InvalidInput("invalid idempotency key"))
    );
    assert_eq!(check_secret_rotatable(&secret("built-in", None, "active")), Ok(()));
    let rotation = Err(ControlPlaneError::InvalidInput("only active built-in secrets can rotate values"));
    assert_eq!(check_secret_rotatable(&secret("built-in", None, "disabled")), rotation);
    assert_eq!(check_secret_rotatable(&secret("vault", Some("x"), "active")), rotation);
}

#[test]
fn variable_writes() {
    assert_eq!(validate_variable_put("key", "tenant", "project:release", "NAME", 16 * 1024 * 1024), Ok(()));
    assert_eq!(
        validate_variable_put("key", "tenant", "project:release", "NAME", 16 * 1024 * 1024 + 1),
        Err(ControlPlaneError::InvalidInput("variable value is too large"))
    );
    assert_eq!(next_variable_version(None), Ok(1));
    assert_eq!(next_variable_version(Some(4)), Ok(5));
    assert_eq!(
        next_variable_version(Some(u64::MAX)),
        Err(ControlPlaneError::IntegerRange { field: "variable version" })
    );
}

#[test]
fn repository_links() {
    let link = ScmRepositoryLinkRecord {
        repository_id: "repo".into(),
        tenant_id: "tenant".into(),
        installation_id: "installation".into(),
        external_repository_id: "920001".into(),
        clone_url: "https://github.com/octo/repo.git".into(),
        status: "active".into(),
        created_unix_ms: 5,
        updated_unix_ms: 6,
    };
    assert_eq!(validate_scm_repository_link(&link), Ok(()));
    let mut stale = link.clone();
    stale.updated_unix_ms = 4;
    assert_eq!(
        validate_scm_repository_link(&stale),
        Err(ControlPlaneError::InvalidInput("invalid SCM repository link"))
    );
    let mut unnamed = link;
    unnamed.clone_url = String::new();
    assert_eq!(
        validate_scm_repository_link(&unnamed),
        Err(ControlPlaneError::InvalidInput("SCM clone URL"))
    );
}

fn setup_request(digest: &[u8]) -> CreateGitHubSetupTransaction {
    CreateGitHubSetupTransaction {
        id: "setup".into(),
        tenant_id: "tenant".into(),
        principal_id: "principal".into(),
        github_web_origin: "https://github.com".into(),
        github_api_origin: "https://api.github.com".into(),
        idempotency_key: "key".into(),
        return_path: "/settings/scm".into(),
        created_unix_ms: 1_000,
        expires_unix_ms: 10_000,
        request_digest: content_digest_sha256(digest),
        state_digest: content_digest_sha256(b"state"),
    }
}

#[test]
fn setup_is_created_once() {
    let r = setup_request(b"request");
    let created = create_setup_transaction(None, &r).unwrap();
    assert!(!created.replayed);
    assert_eq!(created.value.status, GitHubSetupStatus::Pending);
    assert_eq!(created.value.attempts, 0);
    assert_eq!(created.value.updated_unix_ms, 1_000);
    assert_eq!(created.value.expires_unix_ms, 10_000);
    assert_eq!(
        create_setup_transaction(Some(created.value.clone()), &r),
        Ok(IdempotentResult { value: created.value.clone(), replayed: true })
    );
    assert_eq!(
        create_setup_transaction(Some(created.value), &setup_request(b"other")),
        Err(ControlPlaneError::IdempotencyConflict)
    );
}

#[test]
fn setup_exchanges_then_expires_or_runs_out() {
    let pending = create_setup_transaction(None, &setup_request(b"r")).unwrap().value;
    let first = match advance_setup(pending.clone(), 2_000) {
        SetupStep::Exchanging(v) => v,
        other => panic!("expected an exchange, got {other:?}"),
    };
    assert!(!first.replayed);
    assert_eq!(first.value.status, GitHubSetupStatus::Exchanging);
    assert_eq!(first.value.attempts, 1);
    assert_eq!(first.value.updated_unix_ms, 2_000);
    match advance_setup(first.value.clone(), 3_000) {
        SetupStep::Exchanging(v) => {
            assert!(v.replayed);
            assert_eq!(v.value.attempts, 2);
        }
        other => panic!("expected an exchange, got {other:?}"),
    }
    assert_eq!(advance_setup(first.value.clone(), 1_999), SetupStep::Unchanged);
    match advance_setup(first.value.clone(), 10_000) {
        SetupStep::Expired(x) => {
            assert_eq!(x.status, GitHubSetupStatus::Expired);
            assert_eq!(x.last_error_code.as_deref(), Some("expired"));
        }
        other => panic!("expected expiry, got {other:?}"),
    }
    let mut tired = first.value;
    tired.attempts = 8;
    match advance_setup(tired, 3_000) {
        SetupStep::Rejected(x) => {
            assert_eq!(x.status, GitHubSetupStatus::Rejected);
            assert_eq!(x.last_error_code.as_deref(), Some("attempt-limit"));
        }
        other => panic!("expected rejection, got {other:?}"),
    }
}

#[test]
fn setup_rejection_is_final() {
    let pending = create_setup_transaction(None, &setup_request(b"r")).unwrap().value;
    let rejected = reject_setup(pending.clone(), "access_denied", 2_000).unwrap();
    assert!(!rejected.replayed);
    assert_eq!(rejected.value.status, GitHubSetupStatus::Rejected);
    assert_eq!(rejected.value.last_error_code.as_deref(), Some("access_denied"));
    assert_eq!(
        reject_setup(rejected.value.clone(), "access_denied", 5_000),
        Ok(IdempotentResult { value: rejected.value.clone(), replayed: true })
    );
    assert_eq!(
        reject_setup(rejected.value.clone(), "other", 5_000),
        Err(ControlPlaneError::IdempotencyConflict)
    );
    assert_eq!(advance_setup(rejected.value, 5_000), SetupStep::Unchanged);
    assert_eq!(
        reject_setup(pending, "access_denied", 999),
        Err(ControlPlaneError::InvalidGitHubSetupState)
    );
}

fn completion_request(now: u64) -> CompleteGitHubSetupTransaction {
    let mut i = installation("active", 1, 1);
    i.synchronized_unix_ms = now;
    i.installation.updated_unix_ms = now;
    i.installation.permissions = Some(vec![
        PermissionEntry { name: "contents".into(), level: Some("write".into()) },
        PermissionEntry { name: "issues".into(), level: Some("write".into()) },
        PermissionEntry { name: "metadata".into(), level: Some("read".into()) },
    ]);
    CompleteGitHubSetupTransaction {
        tenant_id: "tenant".into(),
        principal_id: "principal".into(),
        transaction_id: "setup".into(),
        state_digest: content_digest_sha256(b"state"),
        reconciliation: ReconcileGitHubInstallation {
            installation: i,
            expected_version: None,
            selected_repositories: vec![],
            now_unix_ms: now,
        },
        now_unix_ms: now,
    }
}

#[test]
fn setup_completes_once() {
    let pending = create_setup_transaction(None, &setup_request(b"r")).unwrap().value;
    let exchanging = match advance_setup(pending.clone(), 2_000) {
        SetupStep::Exchanging(v) => v.value,
        other => panic!("expected an exchange, got {other:?}"),
    };
    let r = completion_request(3_000);
    assert_eq!(validate_setup_completion(&r), Ok(()));
    let digest = content_digest_sha256(b"reconciliation");
    let done = complete_setup(exchanging.clone(), &r, &digest).unwrap();
    assert!(!done.replayed);
    assert_eq!(done.value.status, GitHubSetupStatus::Completed);
    assert_eq!(done.value.installation_id.as_deref(), Some("installation"));
    assert_eq!(done.value.installation_external_id.as_deref(), Some("990001"));
    assert_eq!(done.value.completion_digest, Some(digest.clone()));
    assert_eq!(done.value.completed_unix_ms, Some(3_000));
    assert_eq!(
        complete_setup(done.value.clone(), &r, &digest),
        Ok(IdempotentResult { value: done.value.clone(), replayed: true })
    );
    assert_eq!(
        complete_setup(done.value, &r, &content_digest_sha256(b"other")),
        Err(ControlPlaneError::IdempotencyConflict)
    );
    assert_eq!(
        complete_setup(pending, &r, &digest),
        Err(ControlPlaneError::InvalidGitHubSetupState)
    );
    assert_eq!(
        complete_setup(exchanging, &completion_request(10_000), &digest),
        Err(ControlPlaneError::InvalidGitHubSetupState)
    );
    let mut skewed = completion_request(3_000);
    skewed.now_unix_ms = 3_001;
    assert_eq!(
        validate_setup_completion(&skewed),
        Err(ControlPlaneError::InvalidInput("GitHub setup completion timestamps differ"))
    );
}

#[test]
fn secret_and_variable_bookkeeping() {
    assert_eq!(variable_operation("t", "project:release", "NAME"), "variable.put:t:project:release:NAME");
    assert_eq!(secret_create_operation("t", "project:release"), "secret.create:t:project:release");
    assert_eq!(secret_rotate_operation("t", "s", "TOKEN"), "secret.rotate:t:s:TOKEN");
    assert_eq!(variable_version_resource("42"), Ok(42));
    assert_eq!(
        variable_version_resource("x42"),
        Err(ControlPlaneError::CorruptState("variable idempotency version"))
    );
    let m = secret("built-in", None, "active");
    let rotated = rotate_secret_metadata(m.clone(), 3, 50).unwrap();
    assert_eq!(rotated.current_version, Some(3));
    assert_eq!(rotated.updated_unix_ms, 50);
    assert_eq!(
        rotate_secret_metadata(m.clone(), u64::MAX, 50),
        Err(ControlPlaneError::IntegerRange { field: "secret version" })
    );
    let gone = tombstone_secret(m, 60).unwrap();
    assert!(!gone.replayed);
    assert_eq!(gone.value.status, "tombstoned");
    assert_eq!(gone.value.updated_unix_ms, 60);
    assert_eq!(
        tombstone_secret(gone.value.clone(), 70),
        Ok(IdempotentResult { value: gone.value, replayed: true })
    );
}

#[test]
fn secret_rotations_hash_the_new_value() {
    let p = plan_secret_rotation("built-in-rotate", "tenant", "workspace", "BUILT_IN", b"second").unwrap();
    assert_eq!(p.operation, "secret.rotate:tenant:workspace:BUILT_IN");
    assert_eq!(p.request_hash, runtrue_persistence::digest::content_digest_sha256(b"second"));
    let again = plan_secret_rotation("built-in-rotate", "tenant", "workspace", "BUILT_IN", b"second").unwrap();
    assert_eq!(runtrue_persistence::runs::check_stored_request(&p.request_hash, &again.request_hash), Ok(()));
    let other = plan_secret_rotation("built-in-rotate", "tenant", "workspace", "BUILT_IN", b"third").unwrap();
    assert_eq!(
        runtrue_persistence::runs::check_stored_request(&p.request_hash, &other.request_hash),
        Err(ControlPlaneError::IdempotencyConflict)
    );
    assert_eq!(
        plan_secret_rotation("", "tenant", "workspace", "BUILT_IN", b"second"),
        Err(ControlPlaneError::InvalidInput("invalid idempotency key"))
    );
}
