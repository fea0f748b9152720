use runtrue_persistence::digest::content_digest_sha256;
use runtrue_persistence::error::ControlPlaneError;
use runtrue_persistence::fetches::{reserve_source_fetch, ReserveScmSourceFetch};
use runtrue_persistence::github::settle_scm_installation;
use runtrue_persistence::policy::IdempotentResult;
use runtrue_persistence::policy_lifecycle::{decide_draft_persist, PolicyDraftFacts, PolicyDraftStatus};
use runtrue_persistence::scm::{
    authorize_scm_link, pick_repository_by_owner_name, settle_scm_link, PermissionEntry, RepositoryRecord,
    ScmInstallationRecord, ScmRepositoryLinkRecord,
};

fn installation() -> ScmInstallationRecord {
    ScmInstallationRecord {
        id: "installation".into(),
        tenant_id: "tenant".into(),
        provider: "github".into(),
        external_id: "990001".into(),
        status: "active".into(),
        credential_reference: "github-app:990001".into(),
        permissions: Some(vec![
            PermissionEntry { name: "contents".into(), level: Some("read".into()) },
            PermissionEntry { name: "metadata".into(), level: Some("read".into()) },
        ]),
        created_unix_ms: 1,
        updated_unix_ms: 1,
    }
}

#[test]
fn scm_installations_are_created_once() {
    let stored = installation();
    assert_eq!(
        settle_scm_installation(stored.clone(), &installation(), 1),
        Ok(IdempotentResult { value: stored.clone(), replayed: false })
    );
    let mut reordered = installation();
    reordered.permissions.as_mut().unwrap().reverse();
    assert_eq!(
        settle_scm_installation(stored.clone(), &reordered, 0),
        Ok(IdempotentResult { value: stored.clone(), replayed: true })
    );
    let mut other = installation();
    other.credential_reference = "github-app:other".into();
    assert_eq!(settle_scm_installation(stored, &other, 0), Err(ControlPlaneError::IdempotencyConflict));
}

fn link() -> ScmRepositoryLinkRecord {
    ScmRepositoryLinkRecord {
        repository_id: "repo".into(),
        tenant_id: "tenant".into(),
        installation_id: "installation".into(),
        external_repository_id: "920001".into(),
        clone_url: "https://github.com/o/r.git".into(),
        status: "active".into(),
        created_unix_ms: 2,
        updated_unix_ms: 2,
    }
}

#[test]
fn scm_links_need_an_active_installation_of_the_tenant() {
    let tenant = Some("tenant".to_string());
    assert_eq!(authorize_scm_link(&tenant, &Some(installation()), &link()), Ok(()));
    let refused = Err(ControlPlaneError::NotFound { kind: "SCM repository authorization", id: "repo".into() });
    assert_eq!(authorize_scm_link(&None, &Some(installation()), &link()), refused);
    assert_eq!(authorize_scm_link(&Some("other".into()), &Some(installation()), &link()), refused);
    assert_eq!(authorize_scm_link(&tenant, &None, &link()), refused);
    let mut suspended = installation();
    suspended.status = "suspended".into();
    assert_eq!(authorize_scm_link(&tenant, &Some(suspended), &link()), refused);
    assert_eq!(
        settle_scm_link(link(), &link(), 0),
        Ok(IdempotentResult { value: link(), replayed: true })
    );
    let mut other = link();
    other.clone_url = "https://github.com/o/other.git".into();
    assert_eq!(settle_scm_link(link(), &other, 1), Err(ControlPlaneError::IdempotencyConflict));
}

fn repository(tenant: &str) -> RepositoryRecord {
    RepositoryRecord {
        id: format!("{tenant}-repo"),
        tenant_id: tenant.into(),
        owner: "owner".into(),
        name: "name".into(),
        default_branch: "main".into(),
        visibility: "private".into(),
        created_unix_ms: 1,
    }
}

#[test]
fn repositories_are_found_by_owner_and_name() {
    assert_eq!(pick_repository_by_owner_name("owner", "name", vec![repository("a")]), Ok(repository("a")));
    assert_eq!(
        pick_repository_by_owner_name("owner", "name", vec![]),
        Err(ControlPlaneError::NotFound { kind: "repository", id: "owner/name".into() })
    );
    assert_eq!(
        pick_repository_by_owner_name("owner", "name", vec![repository("a"), repository("b")]),
        Err(ControlPlaneError::AmbiguousRepositoryIdentity { owner: "owner".into(), name: "name".into() })
    );
    assert_eq!(
        pick_repository_by_owner_name("", "name", vec![]),
        Err(ControlPlaneError::InvalidInput("repository.owner"))
    );
}

fn draft(status: PolicyDraftStatus) -> PolicyDraftFacts {
    PolicyDraftFacts {
        id: "draft".into(),
        tenant_id: "tenant".into(),
        author_id: "author".into(),
        digest: content_digest_sha256(b"bundle"),
        simulation_digest: None,
        status,
    }
}

#[test]
fn drafts_are_persisted_once() {
    let d = draft(PolicyDraftStatus::Draft);
    assert_eq!(decide_draft_persist(&d, 10, "author", "corr", 11, None), Ok(true));
    assert_eq!(decide_draft_persist(&d, 10, "author", "corr", 11, Some(true)), Ok(false));
    assert_eq!(
        decide_draft_persist(&d, 10, "author", "corr", 11, Some(false)),
        Err(ControlPlaneError::IdempotencyConflict)
    );
    let refused = Err(ControlPlaneError::InvalidInput("new policy draft lacks exact author or draft state"));
    assert_eq!(decide_draft_persist(&d, 10, "approver", "corr", 11, None), refused);
    assert_eq!(decide_draft_persist(&d, 10, "author", "corr", 9, None), refused);
    assert_eq!(decide_draft_persist(&draft(PolicyDraftStatus::Simulated), 10, "author", "corr", 11, None), refused);
    assert_eq!(
        decide_draft_persist(&d, 10, "", "corr", 11, None),
        Err(ControlPlaneError::InvalidInput("empty, oversized, or NUL text"))
    );
}

#[test]
fn fetch_reservations_replay_with_one_more_attempt() {
    let r = ReserveScmSourceFetch {
        id: "fetch".into(),
        tenant_id: "tenant".into(),
        repository_id: "repo".into(),
        installation_id: "installation".into(),
        origin_task_id: "task".into(),
        normalized_event_digest: content_digest_sha256(b"event"),
        source_commit: "a".repeat(40),
        base_commit: None,
        origin_digest: content_digest_sha256(b"origin"),
        now_unix_ms: 5,
    };
    let first = reserve_source_fetch(None, &r).unwrap();
    assert!(!first.replayed);
    assert_eq!(first.value.attempts, 1);
    let mut again = r.clone();
    again.now_unix_ms = 7;
    let second = reserve_source_fetch(Some(first.value.clone()), &again).unwrap();
    assert!(second.replayed);
    assert_eq!(second.value.attempts, 2);
    assert_eq!(second.value.updated_unix_ms, 7);
    assert_eq!(second.value.created_unix_ms, 5);
}
