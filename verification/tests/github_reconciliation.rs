use runtrue_persistence::error::ControlPlaneError;
use runtrue_persistence::github::{
    decide_installation_write, plan_catalog_reconciliation, plan_github_reconciliation,
    validate_github_reconciliation_pg, GitHubAccountKind, GitHubInstallationRecord,
    GitHubRepositoryCatalogRecord, GitHubSelectedRepository, InstallationWrite,
    ReconcileGitHubInstallation,
};
use runtrue_persistence::scm::{GitHubRepositorySelection, PermissionEntry, ScmInstallationRecord};

fn permissions() -> Option<Vec<PermissionEntry>> {
    Some(vec![
        PermissionEntry { name: "contents".into(), level: Some("write".into()) },
        PermissionEntry { name: "issues".into(), level: Some("write".into()) },
        PermissionEntry { name: "metadata".into(), level: Some("read".into()) },
    ])
}

fn repository(id: &str, name: &str) -> GitHubSelectedRepository {
    GitHubSelectedRepository {
        external_repository_id: id.into(),
        owner: "runtrue-contract".into(),
        name: name.into(),
        full_name: format!("runtrue-contract/{name}"),
        clone_url: format!("https://github.com/runtrue-contract/{name}.git"),
        visibility: "private".into(),
        default_branch: "main".into(),
    }
}

fn reconciliation() -> ReconcileGitHubInstallation {
    ReconcileGitHubInstallation {
        installation: GitHubInstallationRecord {
            installation: ScmInstallationRecord {
                id: "github-installation-contract".into(),
                tenant_id: "tenant-contract".into(),
                provider: "github".into(),
                external_id: "990001".into(),
                status: "active".into(),
                credential_reference: "github-app:990001".into(),
                permissions: permissions(),
                created_unix_ms: 1_002,
                updated_unix_ms: 1_002,
            },
            web_origin: "https://github.com".into(),
            api_origin: "https://api.github.com".into(),
            account_external_id: "880001".into(),
            account_login: "runtrue-contract".into(),
            account_kind: GitHubAccountKind::Organization,
            repository_selection: GitHubRepositorySelection::Selected,
            lifecycle_generation: 1,
            synchronized_unix_ms: 1_002,
            suspended_unix_ms: None,
            revoked_unix_ms: None,
            version: 1,
        },
        expected_version: None,
        selected_repositories: vec![repository("920001", "github-runtime")],
        now_unix_ms: 1_002,
    }
}

fn row_for(r: &ReconcileGitHubInstallation, x: &GitHubSelectedRepository) -> GitHubRepositoryCatalogRecord {
    GitHubRepositoryCatalogRecord {
        installation_id: r.installation.installation.id.clone(),
        external_repository_id: x.external_repository_id.clone(),
        tenant_id: r.installation.installation.tenant_id.clone(),
        web_origin: r.installation.web_origin.clone(),
        api_origin: r.installation.api_origin.clone(),
        owner: x.owner.clone(),
        name: x.name.clone(),
        full_name: x.full_name.clone(),
        clone_url: x.clone_url.clone(),
        visibility: x.visibility.clone(),
        default_branch: x.default_branch.clone(),
        status: "selected".into(),
        selection_generation: r.installation.lifecycle_generation,
        first_seen_unix_ms: r.installation.synchronized_unix_ms,
        last_seen_unix_ms: r.installation.synchronized_unix_ms,
        removed_unix_ms: None,
        version: 1,
    }
}

#[test]
fn first_reconciliation_creates_and_inserts() {
    let r = reconciliation();
    assert_eq!(validate_github_reconciliation_pg(&r), Ok(()));
    let plan = plan_github_reconciliation(&r, None, None, &vec![], true).unwrap();
    assert_eq!(plan.write, InstallationWrite::CreateInstallation);
    assert_eq!(plan.catalog.inserts, vec![0]);
    assert_eq!(plan.catalog.summary.selected, 1);
    assert_eq!(plan.catalog.summary.inserted, 1);
    assert!(!plan.links_take_status);
    assert!(!plan.replayed);
}

#[test]
fn repeated_reconciliation_is_a_replay() {
    let r = reconciliation();
    let catalog = vec![row_for(&r, &r.selected_repositories[0])];
    let plan =
        plan_github_reconciliation(&r, Some(&r.installation), Some(&r.installation.installation), &catalog, true)
            .unwrap();
    assert_eq!(plan.write, InstallationWrite::Replay);
    assert!(plan.replayed);
    assert_eq!(plan.catalog.summary.inserted + plan.catalog.summary.updated + plan.catalog.summary.removed, 0);
}

#[test]
fn next_generation_updates_and_removes() {
    let first = reconciliation();
    let mut next = reconciliation();
    next.expected_version = Some(1);
    next.installation.version = 2;
    next.installation.lifecycle_generation = 2;
    next.installation.synchronized_unix_ms = 2_000;
    next.installation.installation.updated_unix_ms = 2_000;
    next.now_unix_ms = 2_000;
    next.installation.installation.status = "suspended".into();
    next.installation.suspended_unix_ms = Some(1_500);
    let mut renamed = repository("920001", "github-runtime");
    renamed.default_branch = "trunk".into();
    next.selected_repositories = vec![renamed, repository("920002", "docs")];
    let catalog = vec![
        row_for(&first, &first.selected_repositories[0]),
        row_for(&first, &repository("920003", "gone")),
    ];
    let plan = plan_github_reconciliation(&next, Some(&first.installation), None, &catalog, true).unwrap();
    assert_eq!(plan.write, InstallationWrite::UpdateProfile);
    assert_eq!(plan.catalog.updates, vec![0]);
    assert_eq!(plan.catalog.inserts, vec![1]);
    assert_eq!(plan.catalog.removals, vec![1]);
    assert_eq!(plan.catalog.summary.removed, 1);
    assert!(plan.links_take_status);
    assert!(!plan.replayed);
}

#[test]
fn installation_write_conflicts() {
    let first = reconciliation();
    let mut next = reconciliation();
    next.installation.installation.status = "suspended".into();
    next.installation.suspended_unix_ms = Some(1_002);
    // a changed installation without the expected version
    assert_eq!(
        decide_installation_write(&next, Some(&first.installation), None),
        Err(ControlPlaneError::IdempotencyConflict)
    );
    // a first profile must start at version one
    let mut late = reconciliation();
    late.installation.version = 3;
    assert_eq!(
        decide_installation_write(&late, None, None),
        Err(ControlPlaneError::IdempotencyConflict)
    );
    // an existing SCM installation keeps its identity
    let mut base = first.installation.installation.clone();
    base.credential_reference = "github-app:other".into();
    assert_eq!(
        decide_installation_write(&first, None, Some(&base)),
        Err(ControlPlaneError::IdempotencyConflict)
    );
    assert_eq!(
        decide_installation_write(&first, None, Some(&first.installation.installation)),
        Ok(InstallationWrite::AttachProfile)
    );
    let mut maxed = first.installation.clone();
    maxed.version = u64::MAX;
    let mut again = reconciliation();
    again.expected_version = Some(u64::MAX);
    again.installation.account_login = "renamed".into();
    assert_eq!(
        decide_installation_write(&again, Some(&maxed), None),
        Err(ControlPlaneError::IntegerRange { field: "GitHub installation version" })
    );
}

#[test]
fn revoked_installation_cannot_be_reactivated() {
    let mut revoked = reconciliation().installation;
    revoked.installation.status = "revoked".into();
    revoked.revoked_unix_ms = Some(1_002);
    let mut next = reconciliation();
    next.expected_version = Some(1);
    next.installation.version = 2;
    next.installation.lifecycle_generation = 2;
    assert_eq!(
        decide_installation_write(&next, Some(&revoked), None),
        Err(ControlPlaneError::IdempotencyConflict)
    );
}

#[test]
fn catalog_rows_of_other_origins_conflict_when_bound() {
    let r = reconciliation();
    let mut row = row_for(&r, &r.selected_repositories[0]);
    row.web_origin = "https://ghe.example.com".into();
    row.selection_generation = 0;
    let catalog = vec![row];
    assert!(matches!(
        plan_catalog_reconciliation(&r, &catalog, true),
        Err(ControlPlaneError::IdempotencyConflict)
    ));
    let plan = plan_catalog_reconciliation(&r, &catalog, false).unwrap();
    assert_eq!(plan.updates, vec![0]);
    let mut newer = row_for(&r, &r.selected_repositories[0]);
    newer.selection_generation = 5;
    newer.default_branch = "other".into();
    assert!(matches!(
        plan_catalog_reconciliation(&r, &vec![newer], false),
        Err(ControlPlaneError::IdempotencyConflict)
    ));
}

#[test]
fn invalid_reconciliations_are_refused() {
    let mut bad_clone = reconciliation();
    bad_clone.selected_repositories[0].clone_url = "https://github.com/elsewhere/github-runtime.git".into();
    assert_eq!(
        validate_github_reconciliation_pg(&bad_clone),
        Err(ControlPlaneError::InvalidInput("invalid GitHub selected repository"))
    );
    let mut duplicate = reconciliation();
    let mut twin = repository("920001", "twin");
    twin.full_name = "runtrue-contract/twin".into();
    duplicate.selected_repositories.push(twin);
    assert_eq!(
        validate_github_reconciliation_pg(&duplicate),
        Err(ControlPlaneError::InvalidInput("invalid GitHub selected repository"))
    );
    let mut stale = reconciliation();
    stale.now_unix_ms = 5_000;
    assert_eq!(
        validate_github_reconciliation_pg(&stale),
        Err(ControlPlaneError::InvalidInput("invalid GitHub installation reconciliation"))
    );
    let mut login = reconciliation();
    login.installation.account_login = "runtrue contract".into();
    assert_eq!(
        validate_github_reconciliation_pg(&login),
        Err(ControlPlaneError::InvalidInput("invalid GitHub installation reconciliation"))
    );
    let mut suspended = reconciliation();
    suspended.installation.installation.status = "suspended".into();
    assert_eq!(
        validate_github_reconciliation_pg(&suspended),
        Err(ControlPlaneError::InvalidInput("invalid GitHub installation reconciliation"))
    );
    let mut origin = reconciliation();
    origin.installation.web_origin = "http://github.com".into();
    assert_eq!(
        validate_github_reconciliation_pg(&origin),
        Err(ControlPlaneError::InvalidInput("invalid canonical GitHub origin"))
    );
    let mut empty = reconciliation();
    empty.installation.installation.id = String::new();
    assert_eq!(
        validate_github_reconciliation_pg(&empty),
        Err(ControlPlaneError::InvalidInput("GitHub installation identity"))
    );
}

#[test]
fn permission_order_does_not_matter() {
    let r = reconciliation();
    let mut stored = r.installation.clone();
    stored.installation.permissions.as_mut().unwrap().reverse();
    let catalog = vec![row_for(&r, &r.selected_repositories[0])];
    let plan = plan_github_reconciliation(&r, Some(&stored), Some(&stored.installation), &catalog, true).unwrap();
    assert_eq!(plan.write, InstallationWrite::Replay);
    assert!(plan.replayed);
    // a changed level is a change
    let mut changed = r.installation.clone();
    changed.installation.permissions.as_mut().unwrap()[0].level = Some("read".into());
    assert_eq!(
        decide_installation_write(&r, Some(&changed), None),
        Err(ControlPlaneError::IdempotencyConflict)
    );
}
