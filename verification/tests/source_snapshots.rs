use runtrue_persistence::digest::content_digest_sha256;
use runtrue_persistence::error::ControlPlaneError;
use runtrue_persistence::policy::IdempotentResult;
use runtrue_persistence::snapshots::{
    create_snapshot, mark_snapshot_ready, validate_new_snapshot, SourceSnapshotRecord,
    SourceSnapshotState,
};

fn snapshot() -> SourceSnapshotRecord {
    SourceSnapshotRecord {
        id: "snapshot".into(),
        tenant_id: "tenant".into(),
        repository_id: "repo".into(),
        commit_sha: "a".repeat(40),
        tree_manifest_digest: content_digest_sha256(b"tree"),
        state: SourceSnapshotState::Building,
        created_unix_ms: 10,
        verified_unix_ms: None,
    }
}

#[test]
fn snapshots_are_created_building() {
    assert_eq!(validate_new_snapshot(&snapshot()), Ok(()));
    let mut ready = snapshot();
    ready.state = SourceSnapshotState::Ready;
    assert_eq!(
        validate_new_snapshot(&ready),
        Err(ControlPlaneError::InvalidInput("new source snapshot must be building"))
    );
    let first = create_snapshot(None, snapshot()).unwrap();
    assert!(!first.replayed);
    assert_eq!(
        create_snapshot(Some(first.value.clone()), snapshot()),
        Ok(IdempotentResult { value: first.value.clone(), replayed: true })
    );
    let mut other = snapshot();
    other.commit_sha = "b".repeat(40);
    assert_eq!(create_snapshot(Some(first.value), other), Err(ControlPlaneError::IdempotencyConflict));
}

#[test]
fn snapshots_are_verified_once() {
    let tree = content_digest_sha256(b"tree");
    let ready = mark_snapshot_ready(snapshot(), &tree, 20).unwrap();
    assert_eq!(ready.state, SourceSnapshotState::Ready);
    assert_eq!(ready.verified_unix_ms, Some(20));
    assert_eq!(mark_snapshot_ready(ready.clone(), &tree, 20), Ok(ready.clone()));
    assert_eq!(mark_snapshot_ready(ready, &tree, 21), Err(ControlPlaneError::IdempotencyConflict));
    assert_eq!(
        mark_snapshot_ready(snapshot(), &content_digest_sha256(b"other"), 20),
        Err(ControlPlaneError::IdempotencyConflict)
    );
    let mut failed = snapshot();
    failed.state = SourceSnapshotState::Failed;
    assert_eq!(mark_snapshot_ready(failed, &tree, 20), Err(ControlPlaneError::IdempotencyConflict));
}
