//! SCM check-run publications: a check is reserved by the task that publishes
//! it, reconciled as the provider confirms its annotations, and published or
//! failed; each step is decided here over the stored record.

use crate::digest::{digest_eq, ContentDigest};
use crate::bytes::str_is;
use crate::error::ControlPlaneError;
use crate::policy::IdempotentResult;
use crate::scm::{sb, scm_text_check, text_eq, then_check, to_i64, validate_text};
use vstd::prelude::*;
use vstd::string::{StringExecFns, StringSliceAdditionalSpecFns};

verus! {

/// Where a check publication stands.
#[derive(Debug, Clone, Copy, PartialEq, Eq, Structural)]
pub enum ScmCheckPublicationState {
    Reserved,
    Reconciling,
    Published,
    Failed,
}

/// A check-run publication, as stored.
#[derive(Debug, Clone, PartialEq, Eq)]
pub struct ScmCheckPublicationRecord {
    pub id: String,
    pub tenant_id: String,
    pub repository_id: String,
    pub installation_id: String,
    pub run_id: String,
    pub task_id: String,
    pub provider: String,
    pub commit_sha: String,
    pub logical_name: String,
    pub external_id: String,
    pub request_digest: ContentDigest,
    pub annotation_count: u32,
    pub provider_check_run_id: Option<u64>,
    pub confirmed_annotations: u32,
    pub state: ScmCheckPublicationState,
    pub attempts: u32,
    pub last_error_code: Option<String>,
    pub created_unix_ms: u64,
    pub updated_unix_ms: u64,
}

/// A publishing task's reservation of a check run.
#[derive(Debug, Clone, PartialEq, Eq)]
pub struct ReserveScmCheckPublication {
    pub id: String,
    pub tenant_id: String,
    pub repository_id: String,
    pub installation_id: String,
    pub run_id: String,
    pub task_id: String,
    pub worker_id: String,
    pub commit_sha: String,
    pub logical_name: String,
    pub external_id: String,
    pub request_digest: ContentDigest,
    pub annotation_count: u32,
    pub now_unix_ms: u64,
}

pub const MSG_CHECK_COMMIT: &'static str = "invalid SCM check commit";

/// The largest value a 32-bit signed database column holds.
pub const I32_MAX: u32 = 2147483647;

pub open spec fn is_hex_digit(b: u8) -> bool {
    (48u8 <= b <= 57u8) || (65u8 <= b <= 70u8) || (97u8 <= b <= 102u8)
}

/// A commit is named by 40 or 64 hexadecimal digits.
pub open spec fn commit_sha_ok(b: Seq<u8>) -> bool {
    (b.len() == 40 || b.len() == 64) && forall|i: int| 0 <= i < b.len() ==> is_hex_digit(#[trigger] b[i])
}

fn commit_sha_valid(s: &str) -> (res: bool)
    ensures
        res == commit_sha_ok(s.spec_bytes()),
{
    let b = s.as_bytes();
    if b.len() != 40 && b.len() != 64 {
        return false;
    }
    let mut i: usize = 0;
    while i < b.len()
        invariant
            0 <= i <= b@.len(),
            b@ == s.spec_bytes(),
            b@.len() == 40 || b@.len() == 64,
            forall|j: int| 0 <= j < i ==> is_hex_digit(#[trigger] b@[j]),
        decreases b@.len() - i,
    {
        let c = b[i];
        if !((48 <= c && c <= 57) || (65 <= c && c <= 70) || (97 <= c && c <= 102)) {
            assert(!is_hex_digit(b@[i as int]));
            return false;
        }
        i += 1;
    }
    true
}

/// What validating a reservation decides: each text in turn, then the commit.
pub open spec fn check_reservation_check(r: ReserveScmCheckPublication) -> Result<(), ControlPlaneError> {
    then_check(scm_text_check("SCM check publication id", sb(r.id)),
    then_check(scm_text_check("SCM check tenant", sb(r.tenant_id)),
    then_check(scm_text_check("SCM check repository", sb(r.repository_id)),
    then_check(scm_text_check("SCM check installation", sb(r.installation_id)),
    then_check(scm_text_check("SCM check run", sb(r.run_id)),
    then_check(scm_text_check("SCM check task", sb(r.task_id)),
    then_check(scm_text_check("SCM check worker", sb(r.worker_id)),
    then_check(scm_text_check("SCM check commit", sb(r.commit_sha)),
    then_check(scm_text_check("SCM check logical name", sb(r.logical_name)),
    then_check(scm_text_check("SCM check external id", sb(r.external_id)),
    if commit_sha_ok(sb(r.commit_sha)) {
        Ok(())
    } else {
        Err(ControlPlaneError::InvalidInput(MSG_CHECK_COMMIT))
    }))))))))))
}

/// Validates a check reservation before anything is read.
pub fn validate_check_reservation(r: &ReserveScmCheckPublication) -> (res: Result<(), ControlPlaneError>)
    ensures
        res == check_reservation_check(*r),
{
    validate_text("SCM check publication id", r.id.as_str())?;
    validate_text("SCM check tenant", r.tenant_id.as_str())?;
    validate_text("SCM check repository", r.repository_id.as_str())?;
    validate_text("SCM check installation", r.installation_id.as_str())?;
    validate_text("SCM check run", r.run_id.as_str())?;
    validate_text("SCM check task", r.task_id.as_str())?;
    validate_text("SCM check worker", r.worker_id.as_str())?;
    validate_text("SCM check commit", r.commit_sha.as_str())?;
    validate_text("SCM check logical name", r.logical_name.as_str())?;
    validate_text("SCM check external id", r.external_id.as_str())?;
    if !commit_sha_valid(r.commit_sha.as_str()) {
        return Err(ControlPlaneError::InvalidInput(MSG_CHECK_COMMIT));
    }
    Ok(())
}

/// The publication a reservation creates: reserved, on its first attempt.
pub open spec fn reserved_check(r: ReserveScmCheckPublication, provider: String) -> ScmCheckPublicationRecord {
    ScmCheckPublicationRecord {
        id: r.id,
        tenant_id: r.tenant_id,
        repository_id: r.repository_id,
        installation_id: r.installation_id,
        run_id: r.run_id,
        task_id: r.task_id,
        provider,
        commit_sha: r.commit_sha,
        logical_name: r.logical_name,
        external_id: r.external_id,
        request_digest: r.request_digest,
        annotation_count: r.annotation_count,
        provider_check_run_id: None,
        confirmed_annotations: 0,
        state: ScmCheckPublicationState::Reserved,
        attempts: 1,
        last_error_code: None,
        created_unix_ms: r.now_unix_ms,
        updated_unix_ms: r.now_unix_ms,
    }
}

/// The stored publication `x` was reserved by a request identical to `r`,
/// not later than `r`.
pub open spec fn check_reservation_matches(x: ScmCheckPublicationRecord, r: ReserveScmCheckPublication) -> bool {
    &&& x.repository_id@ == r.repository_id@
    &&& x.installation_id@ == r.installation_id@
    &&& x.run_id@ == r.run_id@
    &&& x.task_id@ == r.task_id@
    &&& x.commit_sha@ == r.commit_sha@
    &&& x.logical_name@ == r.logical_name@
    &&& x.external_id@ == r.external_id@
    &&& x.request_digest@ == r.request_digest@
    &&& x.annotation_count == r.annotation_count
    &&& x.updated_unix_ms <= r.now_unix_ms
}

pub const FIELD_CHECK_UPDATE: &'static str = "SCM check update";

pub const FIELD_CHECK_ANNOTATIONS: &'static str = "SCM check annotation count";

pub const FIELD_CHECK_ATTEMPTS: &'static str = "SCM check attempts";

/// How reserving `r` decides when `existing` is what is stored under its id.
pub enum CheckReservation {
    /// A new reservation.
    Create,
    /// The identical reservation again: one more attempt.
    Retry,
}

pub open spec fn check_reservation_decision(
    existing: Option<ScmCheckPublicationRecord>,
    r: ReserveScmCheckPublication,
) -> Result<CheckReservation, ControlPlaneError> {
    if r.now_unix_ms > i64::MAX {
        Err(ControlPlaneError::IntegerRange { field: FIELD_CHECK_UPDATE })
    } else if r.annotation_count > I32_MAX {
        Err(ControlPlaneError::IntegerRange { field: FIELD_CHECK_ANNOTATIONS })
    } else {
        match existing {
            None => Ok(CheckReservation::Create),
            Some(x) => if !check_reservation_matches(x, r) {
                Err(ControlPlaneError::IdempotencyConflict)
            } else if x.attempts >= I32_MAX {
                Err(ControlPlaneError::IntegerRange { field: FIELD_CHECK_ATTEMPTS })
            } else {
                Ok(CheckReservation::Retry)
            },
        }
    }
}

/// Reserves a check publication, or counts one more attempt at the identical
/// reservation already stored.
pub fn reserve_check_publication(
    existing: Option<ScmCheckPublicationRecord>,
    r: &ReserveScmCheckPublication,
) -> (res: Result<IdempotentResult<ScmCheckPublicationRecord>, ControlPlaneError>)
    ensures
        match check_reservation_decision(existing, *r) {
            Err(e) => res == Err::<IdempotentResult<ScmCheckPublicationRecord>, ControlPlaneError>(e),
            Ok(CheckReservation::Create) => res matches Ok(v) && !v.replayed && v.value
                == reserved_check(*r, v.value.provider) && v.value.provider@ == "github"@,
            Ok(CheckReservation::Retry) => res == Ok::<
                IdempotentResult<ScmCheckPublicationRecord>,
                ControlPlaneError,
            >(
                IdempotentResult {
                    value: ScmCheckPublicationRecord {
                        attempts: (existing.unwrap().attempts + 1) as u32,
                        updated_unix_ms: r.now_unix_ms,
                        ..existing.unwrap()
                    },
                    replayed: true,
                },
            ),
        },
{
    to_i64(r.now_unix_ms, FIELD_CHECK_UPDATE)?;
    if r.annotation_count > I32_MAX {
        return Err(ControlPlaneError::IntegerRange { field: FIELD_CHECK_ANNOTATIONS });
    }
    match existing {
        None => {
            let value = ScmCheckPublicationRecord {
                id: r.id.clone(),
                tenant_id: r.tenant_id.clone(),
                repository_id: r.repository_id.clone(),
                installation_id: r.installation_id.clone(),
                run_id: r.run_id.clone(),
                task_id: r.task_id.clone(),
                provider: String::from_str("github"),
                commit_sha: r.commit_sha.clone(),
                logical_name: r.logical_name.clone(),
                external_id: r.external_id.clone(),
                request_digest: r.request_digest.duplicate(),
                annotation_count: r.annotation_count,
                provider_check_run_id: None,
                confirmed_annotations: 0,
                state: ScmCheckPublicationState::Reserved,
                attempts: 1,
                last_error_code: None,
                created_unix_ms: r.now_unix_ms,
                updated_unix_ms: r.now_unix_ms,
            };
            Ok(IdempotentResult { value, replayed: false })
        },
        Some(x) => {
            if !(text_eq(x.repository_id.as_str(), r.repository_id.as_str()) && text_eq(
                x.installation_id.as_str(),
                r.installation_id.as_str(),
            ) && text_eq(x.run_id.as_str(), r.run_id.as_str()) && text_eq(
                x.task_id.as_str(),
                r.task_id.as_str(),
            ) && text_eq(x.commit_sha.as_str(), r.commit_sha.as_str()) && text_eq(
                x.logical_name.as_str(),
                r.logical_name.as_str(),
            ) && text_eq(x.external_id.as_str(), r.external_id.as_str()) && digest_eq(
                &x.request_digest,
                &r.request_digest,
            ) && x.annotation_count == r.annotation_count && x.updated_unix_ms
                <= r.now_unix_ms) {
                return Err(ControlPlaneError::IdempotencyConflict);
            }
            if x.attempts >= I32_MAX {
                return Err(ControlPlaneError::IntegerRange { field: FIELD_CHECK_ATTEMPTS });
            }
            let attempts = x.attempts + 1;
            Ok(
                IdempotentResult {
                    value: ScmCheckPublicationRecord {
                        attempts,
                        updated_unix_ms: r.now_unix_ms,
                        ..x
                    },
                    replayed: true,
                },
            )
        },
    }
}

/// The provider's confirmation of a check run and of its annotations.
#[derive(Debug, Clone, PartialEq, Eq)]
pub struct RecordScmCheckProgress {
    pub tenant_id: String,
    pub publication_id: String,
    pub task_id: String,
    pub worker_id: String,
    pub provider_check_run_id: u64,
    pub confirmed_annotations: u32,
    pub now_unix_ms: u64,
}

pub const MSG_PROVIDER_CHECK_RUN: &'static str = "invalid provider check run id";

pub const FIELD_PROVIDER_CHECK_RUN: &'static str = "provider check run id";

pub const FIELD_CONFIRMED_ANNOTATIONS: &'static str = "SCM check confirmed annotations";

/// Progress is refused when it comes from another task, on a failed check,
/// for another provider check run, with fewer confirmations than recorded or
/// more than there are annotations, or from before the last update.
pub open spec fn progress_conflicts(c: ScmCheckPublicationRecord, r: RecordScmCheckProgress) -> bool {
    ||| c.task_id@ != r.task_id@
    ||| c.state == ScmCheckPublicationState::Failed
    ||| (c.provider_check_run_id matches Some(id) && id != r.provider_check_run_id)
    ||| r.confirmed_annotations < c.confirmed_annotations
    ||| r.confirmed_annotations > c.annotation_count
    ||| r.now_unix_ms < c.updated_unix_ms
}

/// The publication `c` after the progress `r`: reconciling, with the
/// provider's check run and confirmations recorded.
pub open spec fn progressed_check(c: ScmCheckPublicationRecord, r: RecordScmCheckProgress) -> ScmCheckPublicationRecord {
    ScmCheckPublicationRecord {
        provider_check_run_id: Some(r.provider_check_run_id),
        confirmed_annotations: r.confirmed_annotations,
        state: ScmCheckPublicationState::Reconciling,
        last_error_code: None,
        updated_unix_ms: r.now_unix_ms,
        ..c
    }
}

/// The outcome of recording the progress `r` on the publication `c`.
pub open spec fn progress_outcome(c: ScmCheckPublicationRecord, r: RecordScmCheckProgress) -> Result<
    ScmCheckPublicationRecord,
    ControlPlaneError,
> {
    if r.provider_check_run_id == 0 {
        Err(ControlPlaneError::InvalidInput(MSG_PROVIDER_CHECK_RUN))
    } else if progress_conflicts(c, r) {
        Err(ControlPlaneError::IdempotencyConflict)
    } else if c.state == ScmCheckPublicationState::Published {
        Ok(c)
    } else if r.provider_check_run_id > i64::MAX {
        Err(ControlPlaneError::IntegerRange { field: FIELD_PROVIDER_CHECK_RUN })
    } else if r.confirmed_annotations > I32_MAX {
        Err(ControlPlaneError::IntegerRange { field: FIELD_CONFIRMED_ANNOTATIONS })
    } else if r.now_unix_ms > i64::MAX {
        Err(ControlPlaneError::IntegerRange { field: FIELD_CHECK_UPDATE })
    } else {
        Ok(progressed_check(c, r))
    }
}

/// Records the provider's progress on a check publication.
pub fn record_check_progress(c: ScmCheckPublicationRecord, r: &RecordScmCheckProgress) -> (res: Result<
    ScmCheckPublicationRecord,
    ControlPlaneError,
>)
    ensures
        res == progress_outcome(c, *r),
{
    if r.provider_check_run_id == 0 {
        return Err(ControlPlaneError::InvalidInput(MSG_PROVIDER_CHECK_RUN));
    }
    let other_run = match c.provider_check_run_id {
        Some(id) => id != r.provider_check_run_id,
        None => false,
    };
    if !text_eq(c.task_id.as_str(), r.task_id.as_str()) || c.state == ScmCheckPublicationState::Failed
        || other_run || r.confirmed_annotations < c.confirmed_annotations || r.confirmed_annotations
        > c.annotation_count || r.now_unix_ms < c.updated_unix_ms {
        return Err(ControlPlaneError::IdempotencyConflict);
    }
    if c.state == ScmCheckPublicationState::Published {
        return Ok(c);
    }
    to_i64(r.provider_check_run_id, FIELD_PROVIDER_CHECK_RUN)?;
    if r.confirmed_annotations > I32_MAX {
        return Err(ControlPlaneError::IntegerRange { field: FIELD_CONFIRMED_ANNOTATIONS });
    }
    to_i64(r.now_unix_ms, FIELD_CHECK_UPDATE)?;
    Ok(
        ScmCheckPublicationRecord {
            provider_check_run_id: Some(r.provider_check_run_id),
            confirmed_annotations: r.confirmed_annotations,
            state: ScmCheckPublicationState::Reconciling,
            last_error_code: None,
            updated_unix_ms: r.now_unix_ms,
            ..c
        },
    )
}

/// Publishing is refused unless the same task has a provider check run with
/// every annotation confirmed, on a check that has not failed, not before
/// its last update.
pub open spec fn publication_refused(c: ScmCheckPublicationRecord, task: Seq<char>, now: u64) -> bool {
    ||| c.task_id@ != task
    ||| c.provider_check_run_id is None
    ||| c.confirmed_annotations != c.annotation_count
    ||| c.state == ScmCheckPublicationState::Failed
    ||| now < c.updated_unix_ms
}

/// The outcome of marking the publication `c` published by `task` at `now`.
pub open spec fn publication_outcome(c: ScmCheckPublicationRecord, task: Seq<char>, now: u64) -> Result<
    ScmCheckPublicationRecord,
    ControlPlaneError,
> {
    if publication_refused(c, task, now) {
        Err(ControlPlaneError::IdempotencyConflict)
    } else if c.state == ScmCheckPublicationState::Published {
        Ok(c)
    } else if now > i64::MAX {
        Err(ControlPlaneError::IntegerRange { field: FIELD_CHECK_UPDATE })
    } else {
        Ok(
            ScmCheckPublicationRecord {
                state: ScmCheckPublicationState::Published,
                last_error_code: None,
                updated_unix_ms: now,
                ..c
            },
        )
    }
}

/// Marks a fully confirmed check publication published.
pub fn mark_check_published(c: ScmCheckPublicationRecord, task: &str, now: u64) -> (res: Result<
    ScmCheckPublicationRecord,
    ControlPlaneError,
>)
    ensures
        res == publication_outcome(c, task@, now),
{
    if !text_eq(c.task_id.as_str(), task) || c.provider_check_run_id.is_none()
        || c.confirmed_annotations != c.annotation_count || c.state
        == ScmCheckPublicationState::Failed || now < c.updated_unix_ms {
        return Err(ControlPlaneError::IdempotencyConflict);
    }
    if c.state == ScmCheckPublicationState::Published {
        return Ok(c);
    }
    to_i64(now, FIELD_CHECK_UPDATE)?;
    Ok(
        ScmCheckPublicationRecord {
            state: ScmCheckPublicationState::Published,
            last_error_code: None,
            updated_unix_ms: now,
            ..c
        },
    )
}

/// A failed attempt at publishing: terminal, or to be reconciled again.
#[derive(Debug, Clone, PartialEq, Eq)]
pub struct RecordScmCheckFailure {
    pub tenant_id: String,
    pub publication_id: String,
    pub task_id: String,
    pub worker_id: String,
    pub error_code: String,
    pub terminal: bool,
    pub now_unix_ms: u64,
}

/// The outcome of recording the failure `r` on the publication `c`: refused
/// for another task, on a published check or from before the last update;
/// otherwise the check fails for good or goes back to reconciling.
pub open spec fn check_failure_outcome(c: ScmCheckPublicationRecord, r: RecordScmCheckFailure) -> Result<
    ScmCheckPublicationRecord,
    ControlPlaneError,
> {
    if c.task_id@ != r.task_id@ || c.state == ScmCheckPublicationState::Published || r.now_unix_ms
        < c.updated_unix_ms {
        Err(ControlPlaneError::IdempotencyConflict)
    } else if r.now_unix_ms > i64::MAX {
        Err(ControlPlaneError::IntegerRange { field: FIELD_CHECK_UPDATE })
    } else {
        Ok(
            ScmCheckPublicationRecord {
                state: if r.terminal {
                    ScmCheckPublicationState::Failed
                } else {
                    ScmCheckPublicationState::Reconciling
                },
                last_error_code: Some(r.error_code),
                updated_unix_ms: r.now_unix_ms,
                ..c
            },
        )
    }
}

/// Records a failed publication attempt. The error code is checked as text
/// first.
pub fn record_check_failure(c: ScmCheckPublicationRecord, r: &RecordScmCheckFailure) -> (res: Result<
    ScmCheckPublicationRecord,
    ControlPlaneError,
>)
    ensures
        res == match scm_text_check("SCM check failure code", sb(r.error_code)) {
            Err(e) => Err(e),
            Ok(()) => check_failure_outcome(c, *r),
        },
{
    validate_text("SCM check failure code", r.error_code.as_str())?;
    if !text_eq(c.task_id.as_str(), r.task_id.as_str()) || c.state
        == ScmCheckPublicationState::Published || r.now_unix_ms < c.updated_unix_ms {
        return Err(ControlPlaneError::IdempotencyConflict);
    }
    to_i64(r.now_unix_ms, FIELD_CHECK_UPDATE)?;
    let state = if r.terminal {
        ScmCheckPublicationState::Failed
    } else {
        ScmCheckPublicationState::Reconciling
    };
    Ok(
        ScmCheckPublicationRecord {
            state,
            last_error_code: Some(r.error_code.clone()),
            updated_unix_ms: r.now_unix_ms,
            ..c
        },
    )
}

/// A published check stays published: progress leaves it as it is or is
/// refused, a failure report is refused, and publishing again replays it.
pub proof fn law_published_check_is_final(
    c: ScmCheckPublicationRecord,
    p: RecordScmCheckProgress,
    f: RecordScmCheckFailure,
    task: Seq<char>,
    now: u64,
)
    requires
        c.state == ScmCheckPublicationState::Published,
    ensures
        progress_outcome(c, p) matches Ok(x) ==> x == c,
        check_failure_outcome(c, f) == Err::<ScmCheckPublicationRecord, ControlPlaneError>(
            ControlPlaneError::IdempotencyConflict,
        ),
        publication_outcome(c, task, now) matches Ok(x) ==> x == c,
{
}

/// Confirmations only grow and never pass the number of annotations, and
/// a check is published only with every annotation confirmed.
pub proof fn law_check_confirmations_monotone(
    c: ScmCheckPublicationRecord,
    p: RecordScmCheckProgress,
    task: Seq<char>,
    now: u64,
)
    ensures
        progress_outcome(c, p) matches Ok(x) ==> c.confirmed_annotations <= x.confirmed_annotations
            || c.state == ScmCheckPublicationState::Published,
        progress_outcome(c, p) matches Ok(x) ==> (c.state != ScmCheckPublicationState::Published
            ==> x.confirmed_annotations <= x.annotation_count),
        publication_outcome(c, task, now) matches Ok(x) ==> x.confirmed_annotations
            == x.annotation_count && x.provider_check_run_id is Some,
{
}

/// The durable name of a SCM check state.
pub open spec fn check_state_text(s: ScmCheckPublicationState) -> &'static str {
    match s {
        ScmCheckPublicationState::Reserved => "reserved",
        ScmCheckPublicationState::Reconciling => "reconciling",
        ScmCheckPublicationState::Published => "published",
        ScmCheckPublicationState::Failed => "failed",
    }
}

/// The durable name of a SCM check state.
pub fn check_state_name(s: ScmCheckPublicationState) -> (res: &'static str)
    ensures
        res == check_state_text(s),
{
    match s {
        ScmCheckPublicationState::Reserved => "reserved",
        ScmCheckPublicationState::Reconciling => "reconciling",
        ScmCheckPublicationState::Published => "published",
        ScmCheckPublicationState::Failed => "failed",
    }
}

/// The SCM check state whose durable name has the bytes `b`.
pub open spec fn check_state_named(b: Seq<u8>) -> Option<ScmCheckPublicationState> {
    if b == "reserved".spec_bytes() {
        Some(ScmCheckPublicationState::Reserved)
    } else if b == "reconciling".spec_bytes() {
        Some(ScmCheckPublicationState::Reconciling)
    } else if b == "published".spec_bytes() {
        Some(ScmCheckPublicationState::Published)
    } else if b == "failed".spec_bytes() {
        Some(ScmCheckPublicationState::Failed)
    } else {
        None
    }
}

/// Reads the durable name of a SCM check state.
pub fn parse_check_state(value: &str) -> (res: Result<ScmCheckPublicationState, ControlPlaneError>)
    ensures
        match check_state_named(value.spec_bytes()) {
            Some(s) => res == Ok::<ScmCheckPublicationState, ControlPlaneError>(s),
            None => res matches Err(ControlPlaneError::UnknownState { kind, value: v }) && kind
                == "SCM check state" && v@ == value@,
        },
{
    if str_is(value, "reserved") {
        Ok(ScmCheckPublicationState::Reserved)
    } else if str_is(value, "reconciling") {
        Ok(ScmCheckPublicationState::Reconciling)
    } else if str_is(value, "published") {
        Ok(ScmCheckPublicationState::Published)
    } else if str_is(value, "failed") {
        Ok(ScmCheckPublicationState::Failed)
    } else {
        Err(ControlPlaneError::UnknownState { kind: "SCM check state", value: value.to_owned() })
    }
}

} // verus!
