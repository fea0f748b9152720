use runtrue_persistence::digest::content_digest_sha256;
use runtrue_persistence::error::ControlPlaneError;
use runtrue_persistence::policy::{
    policy_request_digest, validate_policy_version, MemoryPolicyStore, PolicyVersionRecord,
    PolicyVersionStore,
};

const SOURCE: &str =
    "permit (principal, action == Action::\"ViewRepository\", resource is Repository);";

fn first_version() -> PolicyVersionRecord {
    PolicyVersionRecord {
        id: "policy-version".into(),
        policy_id: "main".into(),
        version: 1,
        source: SOURCE.into(),
        mode: "draft".into(),
        digest: content_digest_sha256(SOURCE.as_bytes()),
        created_unix_ms: 21,
    }
}

#[test]
fn policy_contract_versions() {
    let mut store = MemoryPolicyStore::new();
    let version = first_version();
    let created = store.create_policy_version("version", &version).unwrap();
    assert!(!created.replayed);
    assert_eq!(created.value, version);
    let replay = store.create_policy_version("version", &version).unwrap();
    assert!(replay.replayed);
    assert_eq!(replay.value, version);
    assert_eq!(store.next_policy_version_number("main").unwrap(), 2);
    assert_eq!(store.next_policy_version_number("other").unwrap(), 1);
}

#[test]
fn reused_key_with_another_request_conflicts() {
    let mut store = MemoryPolicyStore::new();
    store.create_policy_version("version", &first_version()).unwrap();
    let mut other = first_version();
    other.mode = "enforce".into();
    assert_eq!(
        store.create_policy_version("version", &other),
        Err(ControlPlaneError::IdempotencyConflict)
    );
    assert_eq!(store.next_policy_version_number("main").unwrap(), 2);
}

#[test]
fn versions_must_come_in_order() {
    let mut store = MemoryPolicyStore::new();
    let mut skipped = first_version();
    skipped.version = 2;
    assert_eq!(
        store.create_policy_version("version", &skipped),
        Err(ControlPlaneError::InvalidInput(
            "policy version is not the next durable version"
        ))
    );
    store.create_policy_version("v1", &first_version()).unwrap();
    let mut second = first_version();
    second.id = "policy-version-2".into();
    second.version = 2;
    second.mode = "shadow".into();
    assert!(!store.create_policy_version("v2", &second).unwrap().replayed);
    assert_eq!(store.next_policy_version_number("main").unwrap(), 3);
    let mut reused_id = first_version();
    reused_id.version = 3;
    assert_eq!(
        store.create_policy_version("v3", &reused_id),
        Err(ControlPlaneError::IdempotencyConflict)
    );
}

#[test]
fn invalid_policy_versions_are_refused() {
    let mut zero = first_version();
    zero.version = 0;
    assert_eq!(
        validate_policy_version("key", &zero),
        Err(ControlPlaneError::InvalidInput("policy version or mode is invalid"))
    );
    let mut mode = first_version();
    mode.mode = "audit".into();
    assert_eq!(
        validate_policy_version("key", &mode),
        Err(ControlPlaneError::InvalidInput("policy version or mode is invalid"))
    );
    assert_eq!(
        validate_policy_version("", &first_version()),
        Err(ControlPlaneError::InvalidInput("invalid idempotency key"))
    );
    let mut wrong = first_version();
    wrong.digest = content_digest_sha256(b"something else");
    assert_eq!(
        validate_policy_version("key", &wrong),
        Err(ControlPlaneError::CapsuleDigestMismatch {
            expected: content_digest_sha256(b"something else"),
            actual: content_digest_sha256(SOURCE.as_bytes()),
        })
    );
    let mut store = MemoryPolicyStore::new();
    assert_eq!(
        store.next_policy_version_number(""),
        Err(ControlPlaneError::InvalidInput("empty, oversized, or NUL text"))
    );
}

#[test]
fn request_digest_hashes_the_json_array() {
    let version = first_version();
    let json = serde_json::to_vec(&("main", SOURCE, "draft")).unwrap();
    assert_eq!(policy_request_digest(&version), content_digest_sha256(&json));
    let mut other = first_version();
    other.source = "forbid (principal, action, resource);".into();
    assert_ne!(policy_request_digest(&other), policy_request_digest(&version));
}
