use runtrue_persistence::error::ControlPlaneError;
use runtrue_persistence::github::{
    GitHubAccountKind, GitHubInstallationRecord, GitHubRepositoryCatalogRecord,
};
use runtrue_persistence::links::{
    decide_github_link, suspend_link, validate_link_request, validate_link_suspension,
    LinkPlan, LinkSelectedGitHubRepository,
};
use runtrue_persistence::policy::IdempotentResult;
use runtrue_persistence::scm::{
    GitHubRepositorySelection, RepositoryRecord, ScmInstallationRecord, ScmRepositoryLinkRecord,
};

fn installation(status: &str) -> GitHubInstallationRecord {
    GitHubInstallationRecord {
        installation: ScmInstallationRecord {
            id: "installation".into(),
            tenant_id: "tenant".into(),
            provider: "github".into(),
            external_id: "990001".into(),
            status: status.into(),
            credential_reference: "github-app:990001".into(),
            permissions: None,
            created_unix_ms: 1,
            updated_unix_ms: 1,
        },
        web_origin: "https://github.com".into(),
        api_origin: "https://api.github.com".into(),
        account_external_id: "880001".into(),
        account_login: "octo".into(),
        account_kind: GitHubAccountKind::Organization,
        repository_selection: GitHubRepositorySelection::Selected,
        lifecycle_generation: 1,
        synchronized_unix_ms: 1,
        suspended_unix_ms: None,
        revoked_unix_ms: None,
        version: 1,
    }
}

fn catalog(status: &str) -> GitHubRepositoryCatalogRecord {
    GitHubRepositoryCatalogRecord {
        installation_id: "installation".into(),
        external_repository_id: "920001".into(),
        tenant_id: "tenant".into(),
        web_origin: "https://github.com".into(),
        api_origin: "https://api.github.com".into(),
        owner: "octo".into(),
        name: "app".into(),
        full_name: "octo/app".into(),
        clone_url: "https://github.com/octo/app.git".into(),
        visibility: "private".into(),
        default_branch: "main".into(),
        status: status.into(),
        selection_generation: 1,
        first_seen_unix_ms: 1,
        last_seen_unix_ms: 1,
        removed_unix_ms: None,
        version: 1,
    }
}

fn request(now: u64) -> LinkSelectedGitHubRepository {
    LinkSelectedGitHubRepository {
        tenant_id: "tenant".into(),
        installation_id: "installation".into(),
        external_repository_id: "920001".into(),
        repository: RepositoryRecord {
            id: "repo".into(),
            tenant_id: "tenant".into(),
            owner: "octo".into(),
            name: "app".into(),
            default_branch: "main".into(),
            visibility: "private".into(),
            created_unix_ms: 5,
        },
        now_unix_ms: now,
    }
}

#[test]
fn link_requests_are_validated() {
    assert_eq!(validate_link_request(&request(10)), Ok(()));
    let mut other = request(10);
    other.repository.tenant_id = "other".into();
    assert_eq!(
        validate_link_request(&other),
        Err(ControlPlaneError::InvalidInput("GitHub repository tenant binding differs"))
    );
    let mut blank = request(10);
    blank.external_repository_id = String::new();
    assert_eq!(
        validate_link_request(&blank),
        Err(ControlPlaneError::InvalidInput("GitHub repository link binding"))
    );
    assert_eq!(validate_link_suspension("t", "r", "a", "q"), Ok(()));
    assert_eq!(
        validate_link_suspension("t", "r", "", "q"),
        Err(ControlPlaneError::InvalidInput("GitHub repository link actor"))
    );
}

#[test]
fn first_link_creates_then_replays() {
    let r = request(10);
    let plan = decide_github_link(&r, Some(installation("active")), Some(catalog("selected")), None, None, false)
        .unwrap();
    let link = match plan {
        LinkPlan::Create { insert_repository, link } => {
            assert!(insert_repository);
            link
        }
        other => panic!("expected a new link, got {other:?}"),
    };
    assert_eq!(link.status, "active");
    assert_eq!(link.clone_url, "https://github.com/octo/app.git");
    assert_eq!(link.created_unix_ms, 10);
    assert_eq!(
        decide_github_link(
            &r,
            Some(installation("active")),
            Some(catalog("selected")),
            Some(r.repository.clone()),
            Some(link.clone()),
            true,
        ),
        Ok(LinkPlan::Replay(link))
    );
}

#[test]
fn link_is_refused_without_authorization_or_on_conflict() {
    let r = request(10);
    let not_found = Err(ControlPlaneError::NotFound {
        kind: "GitHub repository authorization",
        id: "repo".into(),
    });
    assert_eq!(
        decide_github_link(&r, Some(installation("suspended")), Some(catalog("selected")), None, None, false),
        not_found
    );
    assert_eq!(
        decide_github_link(&r, Some(installation("active")), Some(catalog("removed")), None, None, false),
        not_found
    );
    assert_eq!(decide_github_link(&r, None, Some(catalog("selected")), None, None, false), not_found);
    let mut renamed = catalog("selected");
    renamed.name = "other".into();
    assert_eq!(
        decide_github_link(&r, Some(installation("active")), Some(renamed), None, None, false),
        Err(ControlPlaneError::IdempotencyConflict)
    );
    assert_eq!(
        decide_github_link(&r, Some(installation("active")), Some(catalog("selected")), None, None, true),
        Err(ControlPlaneError::IdempotencyConflict)
    );
    let mut older = r.repository.clone();
    older.created_unix_ms = 4;
    assert_eq!(
        decide_github_link(&r, Some(installation("active")), Some(catalog("selected")), Some(older), None, false),
        Err(ControlPlaneError::IdempotencyConflict)
    );
}

fn stored_link(status: &str) -> ScmRepositoryLinkRecord {
    ScmRepositoryLinkRecord {
        repository_id: "repo".into(),
        tenant_id: "tenant".into(),
        installation_id: "installation".into(),
        external_repository_id: "920001".into(),
        clone_url: "https://github.com/octo/app.git".into(),
        status: status.into(),
        created_unix_ms: 10,
        updated_unix_ms: 10,
    }
}

#[test]
fn suspension_and_reactivation() {
    let active = stored_link("active");
    let suspended = suspend_link(active.clone(), "tenant", "repo", 20).unwrap();
    assert!(!suspended.replayed);
    assert_eq!(suspended.value.status, "suspended");
    assert_eq!(suspended.value.updated_unix_ms, 20);
    assert_eq!(
        suspend_link(suspended.value.clone(), "tenant", "repo", 30),
        Ok(IdempotentResult { value: suspended.value.clone(), replayed: true })
    );
    assert_eq!(
        suspend_link(stored_link("revoked"), "tenant", "repo", 30),
        Err(ControlPlaneError::IdempotencyConflict)
    );
    assert_eq!(
        suspend_link(active, "other", "repo", 30),
        Err(ControlPlaneError::NotFound { kind: "GitHub repository link", id: "repo".into() })
    );
    let r = request(40);
    match decide_github_link(
        &r,
        Some(installation("active")),
        Some(catalog("selected")),
        Some(r.repository.clone()),
        Some(suspended.value),
        true,
    ) {
        Ok(LinkPlan::Reactivate(x)) => {
            assert_eq!(x.status, "active");
            assert_eq!(x.updated_unix_ms, 40);
            assert_eq!(x.created_unix_ms, 10);
        }
        other => panic!("expected reactivation, got {other:?}"),
    }
    assert_eq!(
        decide_github_link(
            &r,
            Some(installation("active")),
            Some(catalog("selected")),
            Some(r.repository.clone()),
            Some(stored_link("revoked")),
            true,
        ),
        Err(ControlPlaneError::IdempotencyConflict)
    );
}
