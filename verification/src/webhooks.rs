//! SCM webhook deliveries: each delivery is recorded once against the active
//! repository binding it names, and redelivery replays the stored event.

use crate::digest::{digest_eq, ContentDigest};
use crate::error::ControlPlaneError;
use crate::fetches::{clone_opt_text, opt_text_eq, opt_text_same};
use crate::policy::IdempotentResult;
use crate::scm::{sb, scm_text_check, text_eq, then_check, to_i64, validate_text};
use vstd::prelude::*;
use vstd::string::StringSliceAdditionalSpecFns;

verus! {

/// A webhook delivery as the provider sent it, already normalized.
#[derive(Debug, Clone, PartialEq, Eq)]
pub struct NewScmWebhookEvent {
    pub delivery_id: String,
    pub installation_external_id: String,
    pub external_repository_id: String,
    pub provider_event_name: String,
    pub event_kind: String,
    pub actor_login: String,
    pub ref_name: Option<String>,
    pub normalized_digest: ContentDigest,
    pub payload_digest: ContentDigest,
    pub received_unix_ms: u64,
}

/// The active binding of a provider repository to a tenant's repository
/// through an installation.
#[derive(Debug, Clone, PartialEq, Eq)]
pub struct ScmRepositoryBinding {
    pub tenant_id: String,
    pub repository_id: String,
    pub installation_id: String,
}

/// A recorded webhook delivery.
#[derive(Debug, Clone, PartialEq, Eq)]
pub struct ScmWebhookEventRecord {
    pub delivery_id: String,
    pub tenant_id: String,
    pub repository_id: String,
    pub installation_id: String,
    pub external_repository_id: String,
    pub provider_event_name: String,
    pub event_kind: String,
    pub actor_login: String,
    pub ref_name: Option<String>,
    pub normalized_digest: ContentDigest,
    pub payload_digest: ContentDigest,
    pub received_unix_ms: u64,
}

pub const FIELD_WEBHOOK_EVENT: &'static str = "SCM webhook event field";

pub const MSG_WEBHOOK_REF: &'static str = "invalid SCM webhook ref";

/// What validating a delivery decides: its texts in turn, then its ref.
pub open spec fn webhook_event_check(e: NewScmWebhookEvent) -> Result<(), ControlPlaneError> {
    then_check(scm_text_check(FIELD_WEBHOOK_EVENT, sb(e.delivery_id)),
    then_check(scm_text_check(FIELD_WEBHOOK_EVENT, sb(e.installation_external_id)),
    then_check(scm_text_check(FIELD_WEBHOOK_EVENT, sb(e.external_repository_id)),
    then_check(scm_text_check(FIELD_WEBHOOK_EVENT, sb(e.provider_event_name)),
    then_check(scm_text_check(FIELD_WEBHOOK_EVENT, sb(e.event_kind)),
    then_check(scm_text_check(FIELD_WEBHOOK_EVENT, sb(e.actor_login)),
    match e.ref_name {
        Some(r) => if scm_text_check("SCM webhook ref", sb(r)) is Ok {
            Ok(())
        } else {
            Err(ControlPlaneError::InvalidInput(MSG_WEBHOOK_REF))
        },
        None => Ok(()),
    }))))))
}

/// Validates a webhook delivery before its binding is looked up.
pub fn validate_webhook_event(e: &NewScmWebhookEvent) -> (res: Result<(), ControlPlaneError>)
    ensures
        res == webhook_event_check(*e),
{
    validate_text(FIELD_WEBHOOK_EVENT, e.delivery_id.as_str())?;
    validate_text(FIELD_WEBHOOK_EVENT, e.installation_external_id.as_str())?;
    validate_text(FIELD_WEBHOOK_EVENT, e.external_repository_id.as_str())?;
    validate_text(FIELD_WEBHOOK_EVENT, e.provider_event_name.as_str())?;
    validate_text(FIELD_WEBHOOK_EVENT, e.event_kind.as_str())?;
    validate_text(FIELD_WEBHOOK_EVENT, e.actor_login.as_str())?;
    if let Some(r) = &e.ref_name {
        if validate_text("SCM webhook ref", r.as_str()).is_err() {
            return Err(ControlPlaneError::InvalidInput(MSG_WEBHOOK_REF));
        }
    }
    Ok(())
}

/// The event recorded for the delivery `e` under the binding `b`.
pub open spec fn webhook_record(e: NewScmWebhookEvent, b: ScmRepositoryBinding) -> ScmWebhookEventRecord {
    ScmWebhookEventRecord {
        delivery_id: e.delivery_id,
        tenant_id: b.tenant_id,
        repository_id: b.repository_id,
        installation_id: b.installation_id,
        external_repository_id: e.external_repository_id,
        provider_event_name: e.provider_event_name,
        event_kind: e.event_kind,
        actor_login: e.actor_login,
        ref_name: e.ref_name,
        normalized_digest: e.normalized_digest,
        payload_digest: e.payload_digest,
        received_unix_ms: e.received_unix_ms,
    }
}

/// The stored event `x` is a redelivery of the event `y`: the same binding,
/// repository, event, actor, ref and payload.
pub open spec fn webhook_redelivery(x: ScmWebhookEventRecord, y: ScmWebhookEventRecord) -> bool {
    &&& x.tenant_id@ == y.tenant_id@
    &&& x.repository_id@ == y.repository_id@
    &&& x.installation_id@ == y.installation_id@
    &&& x.external_repository_id@ == y.external_repository_id@
    &&& x.provider_event_name@ == y.provider_event_name@
    &&& x.event_kind@ == y.event_kind@
    &&& x.actor_login@ == y.actor_login@
    &&& opt_text_same(x.ref_name, y.ref_name)
    &&& x.payload_digest@ == y.payload_digest@
}

/// The outcome of recording `e` under `b` when `existing` is the event
/// stored under its delivery id.
pub open spec fn webhook_outcome(
    e: NewScmWebhookEvent,
    b: ScmRepositoryBinding,
    existing: Option<ScmWebhookEventRecord>,
) -> Result<IdempotentResult<ScmWebhookEventRecord>, ControlPlaneError> {
    if e.received_unix_ms > i64::MAX {
        Err(ControlPlaneError::IntegerRange { field: "webhook event time" })
    } else {
        match existing {
            None => Ok(IdempotentResult { value: webhook_record(e, b), replayed: false }),
            Some(x) => if webhook_redelivery(x, webhook_record(e, b)) {
                Ok(IdempotentResult { value: x, replayed: true })
            } else {
                Err(ControlPlaneError::IdempotencyConflict)
            },
        }
    }
}

/// Records a webhook delivery under its repository binding, or replays the
/// stored redelivery.
pub fn record_webhook_event(
    e: &NewScmWebhookEvent,
    b: ScmRepositoryBinding,
    existing: Option<ScmWebhookEventRecord>,
) -> (res: Result<IdempotentResult<ScmWebhookEventRecord>, ControlPlaneError>)
    ensures
        res == webhook_outcome(*e, b, existing),
{
    to_i64(e.received_unix_ms, "webhook event time")?;
    let record = ScmWebhookEventRecord {
        delivery_id: e.delivery_id.clone(),
        tenant_id: b.tenant_id,
        repository_id: b.repository_id,
        installation_id: b.installation_id,
        external_repository_id: e.external_repository_id.clone(),
        provider_event_name: e.provider_event_name.clone(),
        event_kind: e.event_kind.clone(),
        actor_login: e.actor_login.clone(),
        ref_name: clone_opt_text(&e.ref_name),
        normalized_digest: e.normalized_digest.duplicate(),
        payload_digest: e.payload_digest.duplicate(),
        received_unix_ms: e.received_unix_ms,
    };
    match existing {
        None => Ok(IdempotentResult { value: record, replayed: false }),
        Some(x) => {
            if text_eq(x.tenant_id.as_str(), record.tenant_id.as_str()) && text_eq(
                x.repository_id.as_str(),
                record.repository_id.as_str(),
            ) && text_eq(x.installation_id.as_str(), record.installation_id.as_str()) && text_eq(
                x.external_repository_id.as_str(),
                record.external_repository_id.as_str(),
            ) && text_eq(x.provider_event_name.as_str(), record.provider_event_name.as_str())
                && text_eq(x.event_kind.as_str(), record.event_kind.as_str()) && text_eq(
                x.actor_login.as_str(),
                record.actor_login.as_str(),
            ) && opt_text_eq(&x.ref_name, &record.ref_name) && digest_eq(
                &x.payload_digest,
                &record.payload_digest,
            ) {
                Ok(IdempotentResult { value: x, replayed: true })
            } else {
                Err(ControlPlaneError::IdempotencyConflict)
            }
        },
    }
}

/// A delivery is recorded once: recording it again under the same binding
/// replays the stored event, whatever its receipt time or normalized digest.
pub proof fn law_webhook_delivery_recorded_once(
    e: NewScmWebhookEvent,
    again: NewScmWebhookEvent,
    b: ScmRepositoryBinding,
    existing: Option<ScmWebhookEventRecord>,
)
    requires
        webhook_outcome(e, b, existing) is Ok,
        again == (NewScmWebhookEvent {
            received_unix_ms: again.received_unix_ms,
            normalized_digest: again.normalized_digest,
            ..e
        }),
        again.received_unix_ms <= i64::MAX,
    ensures
        ({
            let v = webhook_outcome(e, b, existing)->Ok_0.value;
            webhook_outcome(again, b, Some(v)) == Ok::<IdempotentResult<ScmWebhookEventRecord>, ControlPlaneError>(
                IdempotentResult { value: v, replayed: true },
            )
        }),
{
}

pub const MSG_WEBHOOK_PAGE_LIMIT: &'static str = "invalid webhook event page limit";

/// A page of a repository's webhook events: both texts valid, a limit of 1 to
/// 100, and a time before which events are listed that fits the store; the
/// result is that exclusive bound, the largest stored time when none is given.
pub open spec fn webhook_page_bound(
    tenant_id: Seq<u8>,
    repository_id: Seq<u8>,
    before_unix_ms: Option<u64>,
    limit: usize,
) -> Result<i64, ControlPlaneError> {
    if scm_text_check("webhook event tenant", tenant_id) is Err {
        Err(scm_text_check("webhook event tenant", tenant_id)->Err_0)
    } else if scm_text_check("webhook event repository", repository_id) is Err {
        Err(scm_text_check("webhook event repository", repository_id)->Err_0)
    } else if limit == 0 || limit > 100 {
        Err(ControlPlaneError::InvalidInput(MSG_WEBHOOK_PAGE_LIMIT))
    } else {
        match before_unix_ms {
            None => Ok(i64::MAX),
            Some(t) => if t > i64::MAX {
                Err(ControlPlaneError::IntegerRange { field: "webhook event page time" })
            } else {
                Ok(t as i64)
            },
        }
    }
}

/// Validates a request for a page of a repository's webhook events and gives
/// the time before which they are listed.
pub fn validate_webhook_page(
    tenant_id: &str,
    repository_id: &str,
    before_unix_ms: Option<u64>,
    limit: usize,
) -> (res: Result<i64, ControlPlaneError>)
    ensures
        res == webhook_page_bound(tenant_id.spec_bytes(), repository_id.spec_bytes(), before_unix_ms, limit),
{
    validate_text("webhook event tenant", tenant_id)?;
    validate_text("webhook event repository", repository_id)?;
    if limit == 0 || limit > 100 {
        return Err(ControlPlaneError::InvalidInput(MSG_WEBHOOK_PAGE_LIMIT));
    }
    match before_unix_ms {
        None => Ok(0x7fff_ffff_ffff_ffffi64),
        Some(t) => to_i64(t, "webhook event page time"),
    }
}

} // verus!
