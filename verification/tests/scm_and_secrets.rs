use runtrue_persistence::config::{
    select_secret_candidate, validate_idempotency, validate_secret_metadata,
    validate_text_value, SecretMetadataReference, SecretResolutionCandidate, SecretScope,
    SecretScopeKind,
};
use runtrue_persistence::digest::content_digest_sha256;
use runtrue_persistence::error::ControlPlaneError;
use runtrue_persistence::scm::{
    github_installation_permissions_ready, opt_i64_pg, require_lifecycle_lease, role_name_pg,
    selection_name, to_i64, valid_github_installation_permissions, valid_status_transition,
    validate_lifecycle_claim, validate_lifecycle_mutation, validate_lifecycle_reservation,
    validate_origins, validate_page_pg, validate_repository, validate_scm_installation,
    validate_setup_request, validate_text, CreateGitHubSetupTransaction,
    GitHubLifecycleDeliveryRecord, GitHubLifecycleDeliveryState, GitHubRepositorySelection,
    PermissionEntry, RepositoryRecord, ReserveGitHubLifecycleDelivery, ScmExecutionRole,
    ScmInstallationRecord,
};

fn entry(name: &str, level: &str) -> PermissionEntry {
    PermissionEntry { name: name.into(), level: Some(level.into()) }
}

#[test]
fn github_permissions() {
    let ready = Some(vec![
        entry("checks", "write"),
        entry("contents", "read"),
        entry("metadata", "read"),
        entry("pull_requests", "write"),
    ]);
    assert!(valid_github_installation_permissions(&ready));
    assert!(github_installation_permissions_ready(&ready));
    let partial = Some(vec![entry("contents", "write"), entry("metadata", "read")]);
    assert!(valid_github_installation_permissions(&partial));
    assert!(!github_installation_permissions_ready(&partial));
    assert!(!valid_github_installation_permissions(&Some(vec![entry("metadata", "write")])));
    assert!(!valid_github_installation_permissions(&Some(vec![
        entry("metadata", "read"),
        entry("administration", "read"),
    ])));
    assert!(!valid_github_installation_permissions(&None));
}

#[test]
fn scm_installations_and_names() {
    let installation = ScmInstallationRecord {
        id: "i".into(),
        tenant_id: "t".into(),
        provider: "github".into(),
        external_id: "42".into(),
        status: "suspended".into(),
        credential_reference: "github-app:42".into(),
        permissions: Some(vec![entry("metadata", "read")]),
        created_unix_ms: 1,
        updated_unix_ms: 2,
    };
    assert_eq!(validate_scm_installation(&installation), Ok(()));
    let mut active = installation.clone();
    active.status = "active".into();
    assert_eq!(
        validate_scm_installation(&active),
        Err(ControlPlaneError::InvalidInput("invalid SCM installation"))
    );
    let mut zero = installation.clone();
    zero.external_id = "0".into();
    assert!(validate_scm_installation(&zero).is_err());
    assert_eq!(selection_name(GitHubRepositorySelection::All), "all");
    assert_eq!(role_name_pg(ScmExecutionRole::TrustedBase), "trusted-base");
    assert!(valid_status_transition("suspended", "active"));
    assert!(!valid_status_transition("revoked", "active"));
    assert_eq!(to_i64(5, "f"), Ok(5));
    assert_eq!(to_i64(u64::MAX, "f"), Err(ControlPlaneError::IntegerRange { field: "f" }));
    assert_eq!(opt_i64_pg(None, "f"), Ok(None));
    assert_eq!(validate_text("field", "bad\tvalue"), Err(ControlPlaneError::InvalidInput("field")));
    assert_eq!(validate_page_pg(0, None), Err(ControlPlaneError::InvalidInput("invalid page limit")));
    assert_eq!(validate_origins("https://github.com", "https://api.github.com"), Ok(()));
    assert!(validate_origins("https://github.com/", "https://api.github.com").is_err());
    assert_eq!(validate_origins("https://ghe.example", "https://ghe.example/api/v3"), Ok(()));
    assert!(validate_origins("https://ghe.example/x", "https://ghe.example/api/v3").is_err());
    let repository = RepositoryRecord {
        id: "r".into(),
        tenant_id: "t".into(),
        owner: "o".into(),
        name: String::new(),
        default_branch: "main".into(),
        visibility: "private".into(),
        created_unix_ms: 1,
    };
    assert_eq!(
        validate_repository(&repository),
        Err(ControlPlaneError::InvalidInput("repository.name"))
    );
}

#[test]
fn lifecycle_deliveries() {
    let reservation = ReserveGitHubLifecycleDelivery {
        delivery_id: "d".into(),
        tenant_id: "t".into(),
        installation_id: "i".into(),
        installation_external_id: "42".into(),
        event_name: "installation_repositories".into(),
        action: "added".into(),
        payload_digest: content_digest_sha256(b"payload"),
        now_unix_ms: 5,
    };
    assert_eq!(validate_lifecycle_reservation(&reservation), Ok(()));
    let mut bad = reservation.clone();
    bad.event_name = "Installation".into();
    assert_eq!(
        validate_lifecycle_reservation(&bad),
        Err(ControlPlaneError::InvalidInput("invalid GitHub lifecycle delivery"))
    );
    assert_eq!(validate_lifecycle_claim("worker", 0, 300_000), Ok(()));
    assert_eq!(
        validate_lifecycle_claim("worker", 0, 300_001),
        Err(ControlPlaneError::InvalidInput("invalid GitHub lifecycle lease duration"))
    );
    assert_eq!(
        validate_lifecycle_claim("worker", u64::MAX, 1),
        Err(ControlPlaneError::IntegerRange { field: "GitHub lifecycle lease expiry" })
    );
    assert_eq!(
        validate_lifecycle_mutation("t", "d", "worker", 0),
        Err(ControlPlaneError::InvalidInput("invalid GitHub lifecycle lease generation"))
    );
    let leased = GitHubLifecycleDeliveryRecord {
        delivery_id: "d".into(),
        tenant_id: "t".into(),
        installation_id: "i".into(),
        installation_external_id: "7".into(),
        event_name: "installation".into(),
        action: "created".into(),
        payload_digest: content_digest_sha256(b"payload"),
        state: GitHubLifecycleDeliveryState::Leased,
        attempts: 1,
        available_unix_ms: 0,
        lease_owner: Some("worker".into()),
        lease_generation: 3,
        lease_expires_unix_ms: Some(100),
        completion_digest: None,
        completed_lease_owner: None,
        completed_lease_generation: None,
        last_failure_generation: None,
        last_failure_lease_owner: None,
        last_error_digest: None,
        last_retry_unix_ms: None,
        created_unix_ms: 0,
        updated_unix_ms: 0,
        completed_unix_ms: None,
    };
    assert_eq!(require_lifecycle_lease(&leased, "worker", 3, 99), Ok(()));
    assert_eq!(
        require_lifecycle_lease(&leased, "worker", 3, 100),
        Err(ControlPlaneError::GitHubLifecycleLeaseLost)
    );
    assert_eq!(
        require_lifecycle_lease(&leased, "other", 3, 99),
        Err(ControlPlaneError::GitHubLifecycleLeaseLost)
    );
}

#[test]
fn setup_requests() {
    let digest = content_digest_sha256(b"request");
    let setup = CreateGitHubSetupTransaction {
        id: "setup".into(),
        tenant_id: "t".into(),
        principal_id: "p".into(),
        github_web_origin: "https://github.com".into(),
        github_api_origin: "https://api.github.com".into(),
        idempotency_key: "key".into(),
        return_path: "/settings/scm".into(),
        created_unix_ms: 1_000,
        expires_unix_ms: 1_000 + 900_000,
        request_digest: digest.clone(),
        state_digest: content_digest_sha256(b"state"),
    };
    assert_eq!(validate_setup_request(&setup, &digest), Ok(()));
    let mut long = setup.clone();
    long.expires_unix_ms += 1;
    assert_eq!(
        validate_setup_request(&long, &digest),
        Err(ControlPlaneError::InvalidInput("invalid GitHub setup expiry"))
    );
    let mut path = setup.clone();
    path.return_path = "//evil.example".into();
    assert_eq!(
        validate_setup_request(&path, &digest),
        Err(ControlPlaneError::InvalidInput("invalid GitHub setup request"))
    );
    assert_eq!(
        validate_setup_request(&setup, &content_digest_sha256(b"other")),
        Err(ControlPlaneError::InvalidInput("invalid GitHub setup request"))
    );
}

fn candidate(kind: SecretScopeKind, id: &str) -> SecretResolutionCandidate {
    SecretResolutionCandidate {
        scope: SecretScope { kind, id: id.into() },
        metadata_id: format!("{id}-secret"),
        version: Some(1),
    }
}

#[test]
fn secret_resolution_precedence() {
    let repo = candidate(SecretScopeKind::Repository, "repo");
    let project = candidate(SecretScopeKind::Project, "project");
    let account = candidate(SecretScopeKind::ScmAccount, "account");
    let workspace = candidate(SecretScopeKind::Workspace, "workspace");
    let chosen = select_secret_candidate(
        "TOKEN",
        Some(repo.clone()),
        vec![project.clone()],
        Some(account.clone()),
        Some(workspace.clone()),
    )
    .unwrap();
    assert_eq!(chosen.selected, repo);
    assert_eq!(chosen.shadowed, vec![project.clone(), account.clone(), workspace.clone()]);
    let from_project =
        select_secret_candidate("TOKEN", None, vec![project.clone()], None, Some(workspace.clone()))
            .unwrap();
    assert_eq!(from_project.selected, project);
    let ambiguous = select_secret_candidate(
        "TOKEN",
        None,
        vec![project.clone(), candidate(SecretScopeKind::Project, "second")],
        None,
        None,
    );
    assert_eq!(
        ambiguous,
        Err(ControlPlaneError::AmbiguousSecretResolution {
            name: "TOKEN".into(),
            project_ids: vec!["project".into(), "second".into()],
        })
    );
    assert_eq!(
        select_secret_candidate("TOKEN", None, vec![], None, None),
        Err(ControlPlaneError::NotFound { kind: "secret", id: "TOKEN".into() })
    );
}

#[test]
fn secret_metadata_and_text() {
    let metadata = SecretMetadataReference {
        id: "project-token".into(),
        tenant_id: "tenant".into(),
        scope: "project:release".into(),
        name: "TOKEN".into(),
        provider: "external-test".into(),
        provider_reference: Some("provider://token".into()),
        secret_type: "opaque".into(),
        status: "active".into(),
        current_version: None,
        created_unix_ms: 4,
        updated_unix_ms: 4,
    };
    assert_eq!(validate_secret_metadata(&metadata), Ok(()));
    let mut zero = metadata.clone();
    zero.current_version = Some(0);
    assert_eq!(
        validate_secret_metadata(&zero),
        Err(ControlPlaneError::InvalidInput("invalid secret metadata"))
    );
    assert_eq!(validate_text_value(&"v".repeat(65_536)), Ok(()));
    assert!(validate_text_value(&"v".repeat(65_537)).is_err());
    assert_eq!(
        validate_idempotency("a\0"),
        Err(ControlPlaneError::InvalidInput("invalid idempotency key"))
    );
}
