//! Normalized trigger events: their checks, the replay decision of storing
//! one, and the trigger a schedule fire produces.

use crate::bytes::{push_bytes, str_is};
use crate::digest::{content_digest_sha256, digest_eq, hex_lower, sha256_digest, sha256_text, ContentDigest};
use crate::error::ControlPlaneError;
use crate::json::{decimal_digits, json_string, push_decimal, push_json_string};
use crate::runs::{str_bytes, text_is_invalid, validate_text};
use crate::schedule::ScheduleTriggerCursor;
use vstd::prelude::*;
use vstd::string::{StringExecFns, StringSliceAdditionalSpecFns};

verus! {

/// A trigger of a workflow run in its provider-neutral form.
#[derive(Debug, Clone, PartialEq, Eq)]
pub struct NormalizedTriggerEventRecord {
    pub id: String,
    pub tenant_id: String,
    pub repository_id: String,
    pub trigger_kind: String,
    pub idempotency_identity: String,
    pub normalized_digest: ContentDigest,
    /// The canonical JSON bytes of the normalized envelope.
    pub normalized_envelope: Vec<u8>,
    pub actor_identity: String,
    pub created_unix_ms: u64,
}

pub const MSG_TRIGGER_KIND: &'static str = "unsupported trigger kind";

pub const MSG_TRIGGER_ENVELOPE: &'static str = "normalized trigger envelope is oversized or has the wrong digest";

pub const FIELD_TRIGGER_CREATION: &'static str = "trigger creation";

pub open spec fn trigger_kind_known(b: Seq<u8>) -> bool {
    ||| b == "tag".spec_bytes()
    ||| b == "schedule".spec_bytes()
    ||| b == "manual".spec_bytes()
    ||| b == "api".spec_bytes()
    ||| b == "repository-dispatch".spec_bytes()
    ||| b == "dependent-workflow".spec_bytes()
}

/// What `validate_normalized_trigger` decides: valid text fields, a known
/// kind, and an envelope of at most 256 KiB whose SHA-256 digest is the
/// record's.
pub open spec fn trigger_check(r: NormalizedTriggerEventRecord) -> Result<(), ControlPlaneError> {
    if text_is_invalid(str_bytes(r.id)) || text_is_invalid(str_bytes(r.tenant_id)) || text_is_invalid(
        str_bytes(r.repository_id),
    ) || text_is_invalid(str_bytes(r.trigger_kind)) || text_is_invalid(
        str_bytes(r.idempotency_identity),
    ) || text_is_invalid(str_bytes(r.actor_identity)) {
        Err(ControlPlaneError::InvalidInput(crate::error::MSG_TEXT))
    } else if !trigger_kind_known(str_bytes(r.trigger_kind)) {
        Err(ControlPlaneError::InvalidInput(MSG_TRIGGER_KIND))
    } else if r.normalized_envelope@.len() > 256 * 1024 || sha256_text(r.normalized_envelope@)
        != r.normalized_digest@ {
        Err(ControlPlaneError::InvalidInput(MSG_TRIGGER_ENVELOPE))
    } else {
        Ok(())
    }
}

fn trigger_kind_known_exec(kind: &str) -> (res: bool)
    ensures
        res == trigger_kind_known(kind.spec_bytes()),
{
    str_is(kind, "tag") || str_is(kind, "schedule") || str_is(kind, "manual") || str_is(kind, "api")
        || str_is(kind, "repository-dispatch") || str_is(kind, "dependent-workflow")
}

/// Checks a normalized trigger before it is stored.
pub fn validate_normalized_trigger(r: &NormalizedTriggerEventRecord) -> (res: Result<(), ControlPlaneError>)
    ensures
        res == trigger_check(*r),
{
    validate_text(r.id.as_str())?;
    validate_text(r.tenant_id.as_str())?;
    validate_text(r.repository_id.as_str())?;
    validate_text(r.trigger_kind.as_str())?;
    validate_text(r.idempotency_identity.as_str())?;
    validate_text(r.actor_identity.as_str())?;
    if !trigger_kind_known_exec(r.trigger_kind.as_str()) {
        return Err(ControlPlaneError::InvalidInput(MSG_TRIGGER_KIND));
    }
    if r.normalized_envelope.len() > 256 * 1024 {
        return Err(ControlPlaneError::InvalidInput(MSG_TRIGGER_ENVELOPE));
    }
    let actual = content_digest_sha256(r.normalized_envelope.as_slice());
    if !digest_eq(&actual, &r.normalized_digest) {
        return Err(ControlPlaneError::InvalidInput(MSG_TRIGGER_ENVELOPE));
    }
    Ok(())
}

/// Whether a stored trigger with the same tenant, repository, kind and
/// idempotency identity is the same trigger.
pub open spec fn trigger_same(s: NormalizedTriggerEventRecord, r: NormalizedTriggerEventRecord) -> bool {
    &&& s.id@ == r.id@
    &&& s.normalized_digest@ == r.normalized_digest@
    &&& s.normalized_envelope@ == r.normalized_envelope@
    &&& s.actor_identity@ == r.actor_identity@
    &&& s.created_unix_ms == r.created_unix_ms
}

/// Whether storing `r` replays the trigger already stored under its identity
/// (`true`) or stores it (`false`).
pub open spec fn trigger_persist_decision(existing: Option<NormalizedTriggerEventRecord>, r: NormalizedTriggerEventRecord) -> Result<
    bool,
    ControlPlaneError,
> {
    if r.created_unix_ms > i64::MAX {
        Err(ControlPlaneError::IntegerRange { field: FIELD_TRIGGER_CREATION })
    } else {
        match existing {
            None => Ok(false),
            Some(s) => if trigger_same(s, r) {
                Ok(true)
            } else {
                Err(ControlPlaneError::IdempotencyConflict)
            },
        }
    }
}

/// Decides whether storing a trigger replays the stored one.
pub fn decide_trigger_persist(existing: Option<&NormalizedTriggerEventRecord>, r: &NormalizedTriggerEventRecord) -> (res: Result<
    bool,
    ControlPlaneError,
>)
    ensures
        res == trigger_persist_decision(
            match existing {
                Some(s) => Some(*s),
                None => None,
            },
            *r,
        ),
{
    if r.created_unix_ms > 0x7fff_ffff_ffff_ffffu64 {
        return Err(ControlPlaneError::IntegerRange { field: FIELD_TRIGGER_CREATION });
    }
    match existing {
        None => Ok(false),
        Some(s) => {
            if s.id == r.id && digest_eq(&s.normalized_digest, &r.normalized_digest)
                && crate::bytes::bytes_eq(s.normalized_envelope.as_slice(), r.normalized_envelope.as_slice())
                && s.actor_identity == r.actor_identity && s.created_unix_ms == r.created_unix_ms {
                Ok(true)
            } else {
                Err(ControlPlaneError::IdempotencyConflict)
            }
        },
    }
}

/// The decimal digits of `n` as characters.
pub open spec fn decimal_chars(n: nat) -> Seq<char>
    decreases n,
{
    if n < 10 {
        seq![(48 + n) as char]
    } else {
        decimal_chars(n / 10) + seq![(48 + n % 10) as char]
    }
}

fn digit_str(d: u64) -> (res: &'static str)
    requires
        d < 10,
    ensures
        res@ == seq![(48 + d) as char],
{
    proof {
        reveal_strlit("0");
        reveal_strlit("1");
        reveal_strlit("2");
        reveal_strlit("3");
        reveal_strlit("4");
        reveal_strlit("5");
        reveal_strlit("6");
        reveal_strlit("7");
        reveal_strlit("8");
        reveal_strlit("9");
    }
    match d {
        0 => "0",
        1 => "1",
        2 => "2",
        3 => "3",
        4 => "4",
        5 => "5",
        6 => "6",
        7 => "7",
        8 => "8",
        _ => "9",
    }
}

/// Appends the decimal digits of `n`.
fn append_decimal(s: &mut String, n: u64)
    ensures
        final(s)@ == old(s)@ + decimal_chars(n as nat),
    decreases n,
{
    if n >= 10 {
        append_decimal(s, n / 10);
    }
    s.append(digit_str(n % 10));
    proof {
        assert(final(s)@ =~= old(s)@ + decimal_chars(n as nat));
    }
}

pub const SCHEDULE_TRIGGER_DOMAIN: &'static str = "runtrue.normalized-schedule-trigger.v1\0";

/// The idempotency identity of the fire at `at` of a cursor:
/// `workflow:schedule_key:at`.
pub open spec fn schedule_identity(c: ScheduleTriggerCursor, at: u64) -> Seq<char> {
    c.workflow_identity@ + ":"@ + c.schedule_key@ + ":"@ + decimal_chars(at as nat)
}

/// The hashed material of a schedule trigger's id: a domain tag, then the
/// tenant, the repository and the identity, separated by NUL bytes.
pub open spec fn schedule_trigger_material(c: ScheduleTriggerCursor, at: u64) -> Seq<u8> {
    SCHEDULE_TRIGGER_DOMAIN.spec_bytes() + str_bytes(c.tenant_id) + seq![0u8] + str_bytes(
        c.repository_id,
    ) + seq![0u8] + vstd::utf8::encode_utf8(schedule_identity(c, at))
}

/// The canonical envelope of the fire at `at` of a cursor: its cron,
/// repository, schedule key, fire time, kind, version and workflow, keys in
/// order.
pub open spec fn schedule_envelope(c: ScheduleTriggerCursor, at: u64) -> Seq<u8> {
    "{\"cron_utc\":".spec_bytes() + json_string(c.cron_utc@) + ",\"repository_id\":".spec_bytes()
        + json_string(c.repository_id@) + ",\"schedule_key\":".spec_bytes() + json_string(
        c.schedule_key@,
    ) + ",\"scheduled_unix_ms\":".spec_bytes() + decimal_digits(at as nat)
        + ",\"trigger_kind\":\"schedule\",\"version\":1,\"workflow_identity\":".spec_bytes()
        + json_string(c.workflow_identity@) + "}".spec_bytes()
}

/// The normalized trigger of the fire at `at` of a schedule cursor.
pub open spec fn schedule_trigger_is(t: NormalizedTriggerEventRecord, c: ScheduleTriggerCursor, at: u64) -> bool {
    &&& t.id@ == "schedule-trigger-"@ + hex_lower(sha256_digest(schedule_trigger_material(c, at)))
    &&& t.tenant_id == c.tenant_id
    &&& t.repository_id == c.repository_id
    &&& t.trigger_kind@ == "schedule"@
    &&& t.idempotency_identity@ == schedule_identity(c, at)
    &&& t.normalized_envelope@ == schedule_envelope(c, at)
    &&& t.normalized_digest@ == sha256_text(schedule_envelope(c, at))
    &&& t.actor_identity@ == "schedule-reconciler"@
    &&& t.created_unix_ms == at
}

/// The normalized trigger that the fire at `at` of a cursor produces.
pub fn schedule_trigger_pg(c: &ScheduleTriggerCursor, at: u64) -> (res: NormalizedTriggerEventRecord)
    ensures
        schedule_trigger_is(res, *c, at),
{
    let mut envelope: Vec<u8> = Vec::new();
    push_bytes(&mut envelope, "{\"cron_utc\":".as_bytes());
    push_json_string(&mut envelope, c.cron_utc.as_str());
    push_bytes(&mut envelope, ",\"repository_id\":".as_bytes());
    push_json_string(&mut envelope, c.repository_id.as_str());
    push_bytes(&mut envelope, ",\"schedule_key\":".as_bytes());
    push_json_string(&mut envelope, c.schedule_key.as_str());
    push_bytes(&mut envelope, ",\"scheduled_unix_ms\":".as_bytes());
    push_decimal(&mut envelope, at);
    push_bytes(
        &mut envelope,
        ",\"trigger_kind\":\"schedule\",\"version\":1,\"workflow_identity\":".as_bytes(),
    );
    push_json_string(&mut envelope, c.workflow_identity.as_str());
    push_bytes(&mut envelope, "}".as_bytes());
    proof {
        assert(envelope@ =~= schedule_envelope(*c, at));
    }
    let digest = content_digest_sha256(envelope.as_slice());
    let mut identity = String::from_str(c.workflow_identity.as_str());
    identity.append(":");
    identity.append(c.schedule_key.as_str());
    identity.append(":");
    append_decimal(&mut identity, at);
    proof {
        assert(identity@ =~= schedule_identity(*c, at));
    }
    let mut material: Vec<u8> = Vec::new();
    push_bytes(&mut material, SCHEDULE_TRIGGER_DOMAIN.as_bytes());
    push_bytes(&mut material, c.tenant_id.as_str().as_bytes());
    material.push(0u8);
    push_bytes(&mut material, c.repository_id.as_str().as_bytes());
    material.push(0u8);
    push_bytes(&mut material, identity.as_str().as_bytes());
    proof {
        assert(material@ =~= schedule_trigger_material(*c, at));
    }
    let hash = crate::digest::sha256_bytes(material.as_slice());
    let hex = crate::digest::hex_string(hash.as_slice());
    let mut id = String::from_str("schedule-trigger-");
    id.append(hex.as_str());
    NormalizedTriggerEventRecord {
        id,
        tenant_id: c.tenant_id.clone(),
        repository_id: c.repository_id.clone(),
        trigger_kind: String::from_str("schedule"),
        idempotency_identity: identity,
        normalized_digest: digest,
        normalized_envelope: envelope,
        actor_identity: String::from_str("schedule-reconciler"),
        created_unix_ms: at,
    }
}

pub const MSG_RECONCILE_LIMIT: &'static str = "due schedule reconciliation limit is invalid";

/// A reconciliation pass handles between 1 and 100 due cursors.
pub fn validate_reconcile_limit(limit: usize) -> (res: Result<(), ControlPlaneError>)
    ensures
        res == if 1 <= limit <= 100 {
            Ok::<(), ControlPlaneError>(())
        } else {
            Err(ControlPlaneError::InvalidInput(MSG_RECONCILE_LIMIT))
        },
{
    if limit == 0 || limit > 100 {
        return Err(ControlPlaneError::InvalidInput(MSG_RECONCILE_LIMIT));
    }
    Ok(())
}

} // verus!
