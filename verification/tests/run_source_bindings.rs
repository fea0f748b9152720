use runtrue_persistence::digest::content_digest_sha256;
use runtrue_persistence::error::ControlPlaneError;
use runtrue_persistence::policy::IdempotentResult;
use runtrue_persistence::snapshots::{
    check_capsule_source, jobs_released_by_source, settle_snapshot_binding, RunSourceSnapshotRecord,
    SourceBoundJob,
};

fn binding() -> RunSourceSnapshotRecord {
    RunSourceSnapshotRecord {
        run_id: "run".into(),
        source_snapshot_id: "snapshot".into(),
        capsule_digest: content_digest_sha256(b"capsule"),
        bound_unix_ms: 20,
    }
}

#[test]
fn capsule_must_name_the_snapshot_tree_and_commit() {
    let tree = content_digest_sha256(b"tree");
    let commit = "a".repeat(40);
    assert_eq!(check_capsule_source(&Some(tree.clone()), &commit, &tree.text, &commit), Ok(()));
    assert_eq!(
        check_capsule_source(&None, &commit, &tree.text, &commit),
        Err(ControlPlaneError::IdempotencyConflict)
    );
    let other_tree = content_digest_sha256(b"other");
    assert_eq!(
        check_capsule_source(&Some(other_tree), &commit, &tree.text, &commit),
        Err(ControlPlaneError::IdempotencyConflict)
    );
    assert_eq!(
        check_capsule_source(&Some(tree.clone()), &"b".repeat(40), &tree.text, &commit),
        Err(ControlPlaneError::IdempotencyConflict)
    );
}

#[test]
fn run_binding_is_written_once() {
    let digest = content_digest_sha256(b"capsule");
    assert_eq!(
        settle_snapshot_binding(binding(), "snapshot", &digest, 1),
        Ok(IdempotentResult { value: binding(), replayed: false })
    );
    assert_eq!(
        settle_snapshot_binding(binding(), "snapshot", &digest, 0),
        Ok(IdempotentResult { value: binding(), replayed: true })
    );
    assert_eq!(
        settle_snapshot_binding(binding(), "other", &digest, 0),
        Err(ControlPlaneError::IdempotencyConflict)
    );
    assert_eq!(
        settle_snapshot_binding(binding(), "snapshot", &content_digest_sha256(b"x"), 0),
        Err(ControlPlaneError::IdempotencyConflict)
    );
}

#[test]
fn binding_releases_root_jobs_with_satisfied_trust() {
    let job = |key: &str, has_needs: bool, trust_satisfied: bool| SourceBoundJob {
        key: key.into(),
        has_needs,
        trust_satisfied,
    };
    let jobs = vec![
        job("build", false, true),
        job("test", true, true),
        job("deploy", false, false),
        job("lint", false, true),
    ];
    assert_eq!(jobs_released_by_source(&jobs), vec!["build".to_string(), "lint".to_string()]);
    assert!(jobs_released_by_source(&Vec::new()).is_empty());
}
