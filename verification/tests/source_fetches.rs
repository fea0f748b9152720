use runtrue_persistence::digest::content_digest_sha256;
use runtrue_persistence::error::ControlPlaneError;
use runtrue_persistence::fetches::{
    mark_fetch_committed, record_fetch_snapshot, reserve_source_fetch,
    validate_fetch_reservation, RecordScmFetchSnapshotReady, ReserveScmSourceFetch,
    ScmSourceFetchState,
};

fn reservation(base: Option<&str>, now: u64) -> ReserveScmSourceFetch {
    ReserveScmSourceFetch {
        id: "fetch".into(),
        tenant_id: "tenant".into(),
        repository_id: "repo".into(),
        installation_id: "installation".into(),
        origin_task_id: "task".into(),
        normalized_event_digest: content_digest_sha256(b"event"),
        source_commit: "a".repeat(40),
        base_commit: base.map(Into::into),
        origin_digest: content_digest_sha256(b"origin"),
        now_unix_ms: now,
    }
}

fn snapshot(tree: &[u8], now: u64) -> RecordScmFetchSnapshotReady {
    RecordScmFetchSnapshotReady {
        tenant_id: "tenant".into(),
        fetch_id: "fetch".into(),
        token_scope_digest: content_digest_sha256(b"scope"),
        mirror_identity_digest: content_digest_sha256(b"mirror"),
        tree_manifest_digest: content_digest_sha256(tree),
        source_snapshot_id: "snapshot".into(),
        now_unix_ms: now,
    }
}

#[test]
fn fetch_reservations() {
    assert_eq!(validate_fetch_reservation(&reservation(None, 1)), Ok(()));
    let mut bad = reservation(None, 1);
    bad.source_commit = String::new();
    assert_eq!(
        validate_fetch_reservation(&bad),
        Err(ControlPlaneError::InvalidInput("SCM fetch source commit"))
    );
    let first = reserve_source_fetch(None, &reservation(Some("base"), 10)).unwrap();
    assert!(!first.replayed);
    assert_eq!(first.value.state, ScmSourceFetchState::Reserved);
    assert_eq!(first.value.attempts, 1);
    assert_eq!(first.value.base_commit.as_deref(), Some("base"));
    let again = reserve_source_fetch(Some(first.value.clone()), &reservation(Some("base"), 20)).unwrap();
    assert!(again.replayed);
    assert_eq!(again.value.attempts, 2);
    assert_eq!(again.value.updated_unix_ms, 20);
    assert_eq!(
        reserve_source_fetch(Some(first.value.clone()), &reservation(None, 20)),
        Err(ControlPlaneError::IdempotencyConflict)
    );
    assert_eq!(
        reserve_source_fetch(None, &reservation(None, u64::MAX)),
        Err(ControlPlaneError::IntegerRange { field: "SCM fetch update" })
    );
}

#[test]
fn snapshot_then_commit() {
    let reserved = reserve_source_fetch(None, &reservation(None, 10)).unwrap().value;
    assert_eq!(mark_fetch_committed(reserved.clone(), 11), Err(ControlPlaneError::IdempotencyConflict));
    let ready = record_fetch_snapshot(reserved, &snapshot(b"tree", 11)).unwrap();
    assert_eq!(ready.state, ScmSourceFetchState::SnapshotReady);
    assert_eq!(ready.source_snapshot_id.as_deref(), Some("snapshot"));
    assert_eq!(
        record_fetch_snapshot(ready.clone(), &snapshot(b"other tree", 12)),
        Err(ControlPlaneError::IdempotencyConflict)
    );
    let committed = mark_fetch_committed(ready, 12).unwrap();
    assert_eq!(committed.state, ScmSourceFetchState::Committed);
    assert_eq!(committed.updated_unix_ms, 12);
    let again = record_fetch_snapshot(committed.clone(), &snapshot(b"tree", 13)).unwrap();
    assert_eq!(again.state, ScmSourceFetchState::Committed);
    assert_eq!(mark_fetch_committed(again, 14).unwrap().state, ScmSourceFetchState::Committed);
    let mut failed = committed;
    failed.state = ScmSourceFetchState::Failed;
    assert_eq!(
        record_fetch_snapshot(failed, &snapshot(b"tree", 13)),
        Err(ControlPlaneError::IdempotencyConflict)
    );
}
