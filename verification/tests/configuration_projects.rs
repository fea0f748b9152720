use runtrue_persistence::config::{
    ConfigurationProjectTarget, ConfigurationProjectTargetKind, PutConfigurationProject,
};
use runtrue_persistence::error::ControlPlaneError;
use runtrue_persistence::projects::{
    plan_project_write, ConfigurationProjectStore, MemoryConfigurationStore,
};

fn release_project() -> PutConfigurationProject {
    PutConfigurationProject {
        id: "release-project".into(),
        tenant_id: "configuration-tenant".into(),
        name: "Release".into(),
        description: "Release repositories".into(),
        status: "active".into(),
        expected_version: 0,
        targets: vec![ConfigurationProjectTarget {
            kind: ConfigurationProjectTargetKind::Repository,
            id: "release-repository".into(),
            created_unix_ms: 2,
        }],
        updated_unix_ms: 2,
    }
}

#[test]
fn configuration_contract_projects() {
    let mut store = MemoryConfigurationStore::new();
    let mut project = release_project();
    let created = store.put_project(&project).unwrap();
    assert_eq!(created.version, 1);
    assert_eq!(
        store.project(&project.tenant_id, &project.id).unwrap(),
        created
    );
    project.expected_version = 1;
    project.description = "Updated release repositories".into();
    project.updated_unix_ms = 3;
    let updated = store.put_project(&project).unwrap();
    assert_eq!(updated.version, 2);
    assert_eq!(updated.created_unix_ms, 2);
    assert_eq!(store.projects(&project.tenant_id).unwrap(), vec![updated]);
}

#[test]
fn stale_project_write_conflicts_and_changes_nothing() {
    let mut store = MemoryConfigurationStore::new();
    let project = release_project();
    let created = store.put_project(&project).unwrap();
    let mut stale = release_project();
    stale.description = "Stale".into();
    stale.updated_unix_ms = 5;
    assert_eq!(
        store.put_project(&stale),
        Err(ControlPlaneError::ConfigurationProjectVersionConflict {
            id: "release-project".into(),
            expected: 0,
            actual: 1,
        })
    );
    assert_eq!(store.project(&project.tenant_id, &project.id).unwrap(), created);
}

#[test]
fn new_project_must_expect_version_zero() {
    let mut store = MemoryConfigurationStore::new();
    let mut project = release_project();
    project.expected_version = 4;
    assert_eq!(
        store.put_project(&project),
        Err(ControlPlaneError::ConfigurationProjectVersionConflict {
            id: "release-project".into(),
            expected: 4,
            actual: 0,
        })
    );
    assert_eq!(store.projects(&project.tenant_id).unwrap(), vec![]);
}

#[test]
fn another_tenants_project_id_is_not_found() {
    let mut store = MemoryConfigurationStore::new();
    store.put_project(&release_project()).unwrap();
    let mut other = release_project();
    other.tenant_id = "other-tenant".into();
    assert_eq!(
        store.put_project(&other),
        Err(ControlPlaneError::NotFound {
            kind: "configuration project",
            id: "release-project".into(),
        })
    );
    assert_eq!(
        store.project("other-tenant", "release-project"),
        Err(ControlPlaneError::NotFound {
            kind: "configuration project",
            id: "release-project".into(),
        })
    );
    assert_eq!(store.projects("other-tenant").unwrap(), vec![]);
}

#[test]
fn update_before_creation_is_refused() {
    let mut store = MemoryConfigurationStore::new();
    let mut project = release_project();
    project.updated_unix_ms = 10;
    project.targets[0].created_unix_ms = 10;
    store.put_project(&project).unwrap();
    project.expected_version = 1;
    project.updated_unix_ms = 9;
    project.targets[0].created_unix_ms = 9;
    assert_eq!(
        store.put_project(&project),
        Err(ControlPlaneError::InvalidInput(
            "configuration project update precedes creation"
        ))
    );
}

#[test]
fn invalid_projects_are_refused() {
    let mut store = MemoryConfigurationStore::new();
    let mut project = release_project();
    project.status = "deleted".into();
    assert_eq!(
        store.put_project(&project),
        Err(ControlPlaneError::InvalidInput("invalid configuration project"))
    );
    let mut duplicate = release_project();
    duplicate.targets.push(duplicate.targets[0].clone());
    assert_eq!(
        store.put_project(&duplicate),
        Err(ControlPlaneError::InvalidInput(
            "invalid configuration project targets"
        ))
    );
    let mut empty = release_project();
    empty.name = String::new();
    assert_eq!(
        store.put_project(&empty),
        Err(ControlPlaneError::InvalidInput("empty, oversized, or NUL text"))
    );
    assert_eq!(
        store.projects(""),
        Err(ControlPlaneError::InvalidInput("empty, oversized, or NUL text"))
    );
}

#[test]
fn targets_are_read_back_by_kind_then_id() {
    let mut store = MemoryConfigurationStore::new();
    let mut project = release_project();
    project.targets = vec![
        ConfigurationProjectTarget {
            kind: ConfigurationProjectTargetKind::ScmAccount,
            id: "account".into(),
            created_unix_ms: 1,
        },
        ConfigurationProjectTarget {
            kind: ConfigurationProjectTargetKind::Repository,
            id: "zeta".into(),
            created_unix_ms: 1,
        },
        ConfigurationProjectTarget {
            kind: ConfigurationProjectTargetKind::Repository,
            id: "alpha".into(),
            created_unix_ms: 2,
        },
    ];
    let created = store.put_project(&project).unwrap();
    let order: Vec<(&str, &str)> = created
        .targets
        .iter()
        .map(|t| (t.kind.as_str(), t.id.as_str()))
        .collect();
    assert_eq!(
        order,
        vec![
            ("repository", "alpha"),
            ("repository", "zeta"),
            ("scm_account", "account")
        ]
    );
}

#[test]
fn projects_are_listed_by_name_then_id() {
    let mut store = MemoryConfigurationStore::new();
    for (id, name) in [("p3", "Beta"), ("p2", "Alpha"), ("p1", "Beta"), ("p4", "Alph")] {
        let mut project = release_project();
        project.id = id.into();
        project.name = name.into();
        store.put_project(&project).unwrap();
    }
    let mut other = release_project();
    other.id = "p0".into();
    other.tenant_id = "someone-else".into();
    store.put_project(&other).unwrap();
    let listed: Vec<String> = store
        .projects("configuration-tenant")
        .unwrap()
        .into_iter()
        .map(|p| p.id)
        .collect();
    assert_eq!(listed, vec!["p4", "p2", "p1", "p3"]);
}

#[test]
fn write_plan_decides_versions() {
    let project = release_project();
    assert_eq!(plan_project_write(&project, None), Ok((1, 2)));
    let mut next = release_project();
    next.expected_version = 7;
    next.updated_unix_ms = 30;
    assert_eq!(plan_project_write(&next, Some((7, 20))), Ok((8, 20)));
    assert_eq!(
        plan_project_write(&next, Some((6, 20))),
        Err(ControlPlaneError::ConfigurationProjectVersionConflict {
            id: "release-project".into(),
            expected: 7,
            actual: 6,
        })
    );
    next.expected_version = u64::MAX;
    assert_eq!(
        plan_project_write(&next, Some((u64::MAX, 20))),
        Err(ControlPlaneError::IntegerRange {
            field: "configuration project version"
        })
    );
    let mut late = release_project();
    late.updated_unix_ms = u64::MAX;
    assert_eq!(
        plan_project_write(&late, None),
        Err(ControlPlaneError::IntegerRange {
            field: "configuration project creation"
        })
    );
}
