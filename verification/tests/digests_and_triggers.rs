use runtrue_persistence::digest::{content_digest_sha256, digest_eq, expanded_job_id};
use runtrue_persistence::error::ControlPlaneError;
use runtrue_persistence::json::{json_array3_bytes, push_decimal};
use runtrue_persistence::schedule::ScheduleTriggerCursor;
use runtrue_persistence::triggers::{
    decide_trigger_persist, schedule_trigger_pg, validate_normalized_trigger,
    validate_reconcile_limit, NormalizedTriggerEventRecord,
};
use sha2::{Digest, Sha256};

#[test]
fn content_digests_are_prefixed_lowercase_hex() {
    let d = content_digest_sha256(b"abc");
    assert_eq!(
        d.text,
        "sha256:ba7816bf8f01cfea414140de5dae2223b00361a396177a9cb410ff61f20015ad"
    );
    assert!(digest_eq(&d, &content_digest_sha256(b"abc")));
    assert!(!digest_eq(&d, &content_digest_sha256(b"abd")));
}

#[test]
fn expanded_job_ids_hash_length_prefixed_parts() {
    let mut h = Sha256::new();
    h.update(b"runtrue.expanded-scheduler-job.v1\0");
    h.update(6u64.to_be_bytes());
    h.update(b"record");
    h.update(3u64.to_be_bytes());
    h.update(b"key");
    let expected = format!("expanded-job-{}", hex::encode(h.finalize()));
    assert_eq!(expanded_job_id("record", "key"), expected);
    assert_ne!(expanded_job_id("recordk", "ey"), expected);
}

#[test]
fn json_framing_matches_serde_json() {
    assert_eq!(
        json_array3_bytes("a\"b", "line\nbreak", "plain"),
        serde_json::to_vec(&("a\"b", "line\nbreak", "plain")).unwrap()
    );
    let mut out = Vec::new();
    push_decimal(&mut out, 0);
    push_decimal(&mut out, 1_704_067_200_000);
    assert_eq!(out, b"01704067200000".to_vec());
}

fn cursor() -> ScheduleTriggerCursor {
    ScheduleTriggerCursor {
        tenant_id: "tenant".into(),
        repository_id: "repository".into(),
        workflow_identity: "nightly.yml".into(),
        schedule_key: "hourly".into(),
        cron_utc: "0 * * * *".into(),
        catch_up_policy: "skip".into(),
        maximum_catch_up: 0,
        next_fire_unix_ms: 1_704_070_800_000,
        last_fire_unix_ms: None,
        version: 1,
        updated_unix_ms: 1_704_067_200_000,
    }
}

#[test]
fn schedule_fires_become_normalized_triggers() {
    let at = 1_704_070_800_000;
    let trigger = schedule_trigger_pg(&cursor(), at);
    assert_eq!(trigger.idempotency_identity, "nightly.yml:hourly:1704070800000");
    let mut h = Sha256::new();
    h.update(b"runtrue.normalized-schedule-trigger.v1\0");
    h.update(b"tenant");
    h.update([0]);
    h.update(b"repository");
    h.update([0]);
    h.update(b"nightly.yml:hourly:1704070800000");
    assert_eq!(trigger.id, format!("schedule-trigger-{}", hex::encode(h.finalize())));
    let mut envelope = serde_json::Map::new();
    envelope.insert("workflow_identity".into(), serde_json::Value::from("nightly.yml"));
    envelope.insert("version".into(), serde_json::Value::from(1u64));
    envelope.insert("trigger_kind".into(), serde_json::Value::from("schedule"));
    envelope.insert("scheduled_unix_ms".into(), serde_json::Value::from(at));
    envelope.insert("schedule_key".into(), serde_json::Value::from("hourly"));
    envelope.insert("repository_id".into(), serde_json::Value::from("repository"));
    envelope.insert("cron_utc".into(), serde_json::Value::from("0 * * * *"));
    let bytes = serde_json::to_vec(&serde_json::Value::Object(envelope)).unwrap();
    assert_eq!(trigger.normalized_envelope, bytes);
    assert_eq!(trigger.normalized_digest, content_digest_sha256(&bytes));
    assert_eq!(trigger.trigger_kind, "schedule");
    assert_eq!(trigger.actor_identity, "schedule-reconciler");
    assert_eq!(trigger.created_unix_ms, at);
    assert_eq!(validate_normalized_trigger(&trigger), Ok(()));
}

#[test]
fn trigger_persistence_replays_or_conflicts() {
    let trigger = schedule_trigger_pg(&cursor(), 1_704_070_800_000);
    assert_eq!(decide_trigger_persist(None, &trigger), Ok(false));
    assert_eq!(decide_trigger_persist(Some(&trigger), &trigger), Ok(true));
    let mut other = trigger.clone();
    other.actor_identity = "someone".into();
    assert_eq!(
        decide_trigger_persist(Some(&trigger), &other),
        Err(ControlPlaneError::IdempotencyConflict)
    );
    let mut late = trigger.clone();
    late.created_unix_ms = u64::MAX;
    assert_eq!(
        decide_trigger_persist(Some(&trigger), &late),
        Err(ControlPlaneError::IntegerRange { field: "trigger creation" })
    );
}

#[test]
fn invalid_triggers_are_refused() {
    let trigger = schedule_trigger_pg(&cursor(), 1_704_070_800_000);
    let mut kind = trigger.clone();
    kind.trigger_kind = "push".into();
    assert_eq!(
        validate_normalized_trigger(&kind),
        Err(ControlPlaneError::InvalidInput("unsupported trigger kind"))
    );
    let mut digest = trigger.clone();
    digest.normalized_envelope.push(b' ');
    assert_eq!(
        validate_normalized_trigger(&digest),
        Err(ControlPlaneError::InvalidInput(
            "normalized trigger envelope is oversized or has the wrong digest"
        ))
    );
    let mut empty: NormalizedTriggerEventRecord = trigger.clone();
    empty.actor_identity = String::new();
    assert_eq!(
        validate_normalized_trigger(&empty),
        Err(ControlPlaneError::InvalidInput("empty, oversized, or NUL text"))
    );
    assert_eq!(validate_reconcile_limit(100), Ok(()));
    assert_eq!(
        validate_reconcile_limit(0),
        Err(ControlPlaneError::InvalidInput("due schedule reconciliation limit is invalid"))
    );
}

#[test]
fn stored_digests_are_parsed() {
    let d = runtrue_persistence::digest::content_digest_sha256(b"x");
    assert_eq!(runtrue_persistence::digest::parse_content_digest(d.text.clone()), Ok(d.clone()));
    let bad = Err(ControlPlaneError::CorruptState("invalid content digest"));
    assert_eq!(runtrue_persistence::digest::parse_content_digest(d.text.to_uppercase()), bad);
    assert_eq!(runtrue_persistence::digest::parse_content_digest("sha256:abc".into()), bad);
    assert_eq!(
        runtrue_persistence::digest::parse_content_digest(d.text.replacen("sha256", "sha512", 1)),
        bad
    );
}
