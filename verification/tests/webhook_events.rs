use runtrue_persistence::digest::content_digest_sha256;
use runtrue_persistence::error::ControlPlaneError;
use runtrue_persistence::policy::IdempotentResult;
use runtrue_persistence::webhooks::{
    record_webhook_event, validate_webhook_event, validate_webhook_page, NewScmWebhookEvent,
    ScmRepositoryBinding,
};

fn event(payload: &[u8], received: u64) -> NewScmWebhookEvent {
    NewScmWebhookEvent {
        delivery_id: "delivery".into(),
        installation_external_id: "990001".into(),
        external_repository_id: "920001".into(),
        provider_event_name: "push".into(),
        event_kind: "push".into(),
        actor_login: "octocat".into(),
        ref_name: Some("refs/heads/main".into()),
        normalized_digest: content_digest_sha256(b"normalized"),
        payload_digest: content_digest_sha256(payload),
        received_unix_ms: received,
    }
}

fn binding() -> ScmRepositoryBinding {
    ScmRepositoryBinding {
        tenant_id: "tenant".into(),
        repository_id: "repo".into(),
        installation_id: "installation".into(),
    }
}

#[test]
fn webhook_events_are_validated() {
    assert_eq!(validate_webhook_event(&event(b"p", 1)), Ok(()));
    let mut bad_ref = event(b"p", 1);
    bad_ref.ref_name = Some(String::new());
    assert_eq!(
        validate_webhook_event(&bad_ref),
        Err(ControlPlaneError::InvalidInput("invalid SCM webhook ref"))
    );
    let mut no_actor = event(b"p", 1);
    no_actor.actor_login = "a\u{7}b".into();
    assert_eq!(
        validate_webhook_event(&no_actor),
        Err(ControlPlaneError::InvalidInput("SCM webhook event field"))
    );
    let mut no_ref = event(b"p", 1);
    no_ref.ref_name = None;
    assert_eq!(validate_webhook_event(&no_ref), Ok(()));
}

#[test]
fn webhook_deliveries_are_recorded_once() {
    let first = record_webhook_event(&event(b"p", 10), binding(), None).unwrap();
    assert!(!first.replayed);
    assert_eq!(first.value.tenant_id, "tenant");
    assert_eq!(first.value.repository_id, "repo");
    assert_eq!(first.value.installation_id, "installation");
    assert_eq!(first.value.received_unix_ms, 10);
    let mut later = event(b"p", 99);
    later.normalized_digest = content_digest_sha256(b"renormalized");
    assert_eq!(
        record_webhook_event(&later, binding(), Some(first.value.clone())),
        Ok(IdempotentResult { value: first.value.clone(), replayed: true })
    );
    assert_eq!(
        record_webhook_event(&event(b"other", 10), binding(), Some(first.value.clone())),
        Err(ControlPlaneError::IdempotencyConflict)
    );
    let mut moved = binding();
    moved.repository_id = "other-repo".into();
    assert_eq!(
        record_webhook_event(&event(b"p", 10), moved, Some(first.value)),
        Err(ControlPlaneError::IdempotencyConflict)
    );
    assert_eq!(
        record_webhook_event(&event(b"p", u64::MAX), binding(), None),
        Err(ControlPlaneError::IntegerRange { field: "webhook event time" })
    );
}

#[test]
fn webhook_pages_are_bounded() {
    assert_eq!(validate_webhook_page("tenant", "repo", None, 10), Ok(i64::MAX));
    assert_eq!(validate_webhook_page("tenant", "repo", Some(1_000), 100), Ok(1_000));
    assert_eq!(
        validate_webhook_page("tenant", "repo", Some(1_000), 0),
        Err(ControlPlaneError::InvalidInput("invalid webhook event page limit"))
    );
    assert_eq!(
        validate_webhook_page("tenant", "repo", None, 101),
        Err(ControlPlaneError::InvalidInput("invalid webhook event page limit"))
    );
    assert_eq!(
        validate_webhook_page("", "repo", None, 10),
        Err(ControlPlaneError::InvalidInput("webhook event tenant"))
    );
    assert_eq!(
        validate_webhook_page("tenant", "repo", Some(u64::MAX), 10),
        Err(ControlPlaneError::IntegerRange { field: "webhook event page time" })
    );
}
