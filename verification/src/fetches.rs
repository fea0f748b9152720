//! SCM source fetches: a fetch is reserved by the event task that needs the
//! source, records the snapshot it produced once, and is then committed;
//! each step is decided here over the stored record.

use crate::checks::I32_MAX;
use crate::digest::{digest_eq, ContentDigest};
use crate::bytes::str_is;
use crate::error::ControlPlaneError;
use crate::policy::IdempotentResult;
use crate::scm::{sb, scm_text_check, text_eq, then_check, to_i64, validate_text};
use vstd::prelude::*;
use vstd::string::StringSliceAdditionalSpecFns;

verus! {

/// Where a source fetch stands.
#[derive(Debug, Clone, Copy, PartialEq, Eq, Structural)]
pub enum ScmSourceFetchState {
    Reserved,
    Fetched,
    SnapshotReady,
    Committed,
    Failed,
}

/// A source fetch, as stored.
#[derive(Debug, Clone, PartialEq, Eq)]
pub struct ScmSourceFetchRecord {
    pub id: String,
    pub tenant_id: String,
    pub repository_id: String,
    pub installation_id: String,
    pub origin_task_id: String,
    pub normalized_event_digest: ContentDigest,
    pub source_commit: String,
    pub base_commit: Option<String>,
    pub origin_digest: ContentDigest,
    pub token_scope_digest: Option<ContentDigest>,
    pub mirror_identity_digest: Option<ContentDigest>,
    pub tree_manifest_digest: Option<ContentDigest>,
    pub source_snapshot_id: Option<String>,
    pub state: ScmSourceFetchState,
    pub attempts: u32,
    pub last_error_code: Option<String>,
    pub created_unix_ms: u64,
    pub updated_unix_ms: u64,
}

/// An event task's reservation of the fetch of a commit.
#[derive(Debug, Clone, PartialEq, Eq)]
pub struct ReserveScmSourceFetch {
    pub id: String,
    pub tenant_id: String,
    pub repository_id: String,
    pub installation_id: String,
    pub origin_task_id: String,
    pub normalized_event_digest: ContentDigest,
    pub source_commit: String,
    pub base_commit: Option<String>,
    pub origin_digest: ContentDigest,
    pub now_unix_ms: u64,
}

/// What validating a fetch reservation decides: each text in turn.
pub open spec fn fetch_reservation_check(r: ReserveScmSourceFetch) -> Result<(), ControlPlaneError> {
    then_check(scm_text_check("SCM fetch id", sb(r.id)),
    then_check(scm_text_check("SCM fetch tenant", sb(r.tenant_id)),
    then_check(scm_text_check("SCM fetch repository", sb(r.repository_id)),
    then_check(scm_text_check("SCM fetch installation", sb(r.installation_id)),
    then_check(scm_text_check("SCM fetch task", sb(r.origin_task_id)),
    scm_text_check("SCM fetch source commit", sb(r.source_commit)))))))
}

/// Validates a fetch reservation before anything is read.
pub fn validate_fetch_reservation(r: &ReserveScmSourceFetch) -> (res: Result<(), ControlPlaneError>)
    ensures
        res == fetch_reservation_check(*r),
{
    validate_text("SCM fetch id", r.id.as_str())?;
    validate_text("SCM fetch tenant", r.tenant_id.as_str())?;
    validate_text("SCM fetch repository", r.repository_id.as_str())?;
    validate_text("SCM fetch installation", r.installation_id.as_str())?;
    validate_text("SCM fetch task", r.origin_task_id.as_str())?;
    validate_text("SCM fetch source commit", r.source_commit.as_str())
}

/// Two optional texts are the same: both absent, or both present and equal.
pub open spec fn opt_text_same(a: Option<String>, b: Option<String>) -> bool {
    match (a, b) {
        (None, None) => true,
        (Some(x), Some(y)) => x@ == y@,
        _ => false,
    }
}

pub(crate) fn opt_text_eq(a: &Option<String>, b: &Option<String>) -> (res: bool)
    ensures
        res == opt_text_same(*a, *b),
{
    match (a, b) {
        (None, None) => true,
        (Some(x), Some(y)) => text_eq(x.as_str(), y.as_str()),
        _ => false,
    }
}

/// The fetch a reservation creates: reserved, on its first attempt.
pub open spec fn reserved_fetch(r: ReserveScmSourceFetch) -> ScmSourceFetchRecord {
    ScmSourceFetchRecord {
        id: r.id,
        tenant_id: r.tenant_id,
        repository_id: r.repository_id,
        installation_id: r.installation_id,
        origin_task_id: r.origin_task_id,
        normalized_event_digest: r.normalized_event_digest,
        source_commit: r.source_commit,
        base_commit: r.base_commit,
        origin_digest: r.origin_digest,
        token_scope_digest: None,
        mirror_identity_digest: None,
        tree_manifest_digest: None,
        source_snapshot_id: None,
        state: ScmSourceFetchState::Reserved,
        attempts: 1,
        last_error_code: None,
        created_unix_ms: r.now_unix_ms,
        updated_unix_ms: r.now_unix_ms,
    }
}

/// The stored fetch `x` fetches what `r` asks for.
pub open spec fn fetch_reservation_matches(x: ScmSourceFetchRecord, r: ReserveScmSourceFetch) -> bool {
    &&& x.repository_id@ == r.repository_id@
    &&& x.installation_id@ == r.installation_id@
    &&& x.normalized_event_digest@ == r.normalized_event_digest@
    &&& x.source_commit@ == r.source_commit@
    &&& opt_text_same(x.base_commit, r.base_commit)
    &&& x.origin_digest@ == r.origin_digest@
}

pub const FIELD_FETCH_UPDATE: &'static str = "SCM fetch update";

pub const FIELD_FETCH_ATTEMPTS: &'static str = "SCM fetch attempts";

/// The outcome of reserving `r` when `existing` is what is stored under its
/// id: a new fetch, or one more attempt at the identical one.
pub open spec fn fetch_reservation_outcome(
    existing: Option<ScmSourceFetchRecord>,
    r: ReserveScmSourceFetch,
) -> Result<IdempotentResult<ScmSourceFetchRecord>, ControlPlaneError> {
    if r.now_unix_ms > i64::MAX {
        Err(ControlPlaneError::IntegerRange { field: FIELD_FETCH_UPDATE })
    } else {
        match existing {
            None => Ok(IdempotentResult { value: reserved_fetch(r), replayed: false }),
            Some(x) => if !fetch_reservation_matches(x, r) {
                Err(ControlPlaneError::IdempotencyConflict)
            } else if x.attempts >= I32_MAX {
                Err(ControlPlaneError::IntegerRange { field: FIELD_FETCH_ATTEMPTS })
            } else {
                Ok(
                    IdempotentResult {
                        value: ScmSourceFetchRecord {
                            attempts: (x.attempts + 1) as u32,
                            updated_unix_ms: r.now_unix_ms,
                            ..x
                        },
                        replayed: true,
                    },
                )
            },
        }
    }
}

pub(crate) fn clone_opt_text(o: &Option<String>) -> (res: Option<String>)
    ensures
        res == *o,
{
    match o {
        Some(x) => Some(x.clone()),
        None => None,
    }
}

/// Reserves a source fetch, or counts one more attempt at the identical
/// reservation already stored.
pub fn reserve_source_fetch(existing: Option<ScmSourceFetchRecord>, r: &ReserveScmSourceFetch) -> (res:
    Result<IdempotentResult<ScmSourceFetchRecord>, ControlPlaneError>)
    ensures
        res == fetch_reservation_outcome(existing, *r),
{
    to_i64(r.now_unix_ms, FIELD_FETCH_UPDATE)?;
    match existing {
        None => {
            let value = ScmSourceFetchRecord {
                id: r.id.clone(),
                tenant_id: r.tenant_id.clone(),
                repository_id: r.repository_id.clone(),
                installation_id: r.installation_id.clone(),
                origin_task_id: r.origin_task_id.clone(),
                normalized_event_digest: r.normalized_event_digest.duplicate(),
                source_commit: r.source_commit.clone(),
                base_commit: clone_opt_text(&r.base_commit),
                origin_digest: r.origin_digest.duplicate(),
                token_scope_digest: None,
                mirror_identity_digest: None,
                tree_manifest_digest: None,
                source_snapshot_id: None,
                state: ScmSourceFetchState::Reserved,
                attempts: 1,
                last_error_code: None,
                created_unix_ms: r.now_unix_ms,
                updated_unix_ms: r.now_unix_ms,
            };
            Ok(IdempotentResult { value, replayed: false })
        },
        Some(x) => {
            if !(text_eq(x.repository_id.as_str(), r.repository_id.as_str()) && text_eq(
                x.installation_id.as_str(),
                r.installation_id.as_str(),
            ) && digest_eq(&x.normalized_event_digest, &r.normalized_event_digest) && text_eq(
                x.source_commit.as_str(),
                r.source_commit.as_str(),
            ) && opt_text_eq(&x.base_commit, &r.base_commit) && digest_eq(
                &x.origin_digest,
                &r.origin_digest,
            )) {
                return Err(ControlPlaneError::IdempotencyConflict);
            }
            if x.attempts >= I32_MAX {
                return Err(ControlPlaneError::IntegerRange { field: FIELD_FETCH_ATTEMPTS });
            }
            let attempts = x.attempts + 1;
            Ok(
                IdempotentResult {
                    value: ScmSourceFetchRecord { attempts, updated_unix_ms: r.now_unix_ms, ..x },
                    replayed: true,
                },
            )
        },
    }
}

/// Reserving the same fetch again replays it with one more attempt: after a
/// reservation created a fetch, the identical request, at the same or a later
/// time, returns the stored fetch marked replayed, its attempts one more and
/// its update time the new one, everything else as stored.
pub proof fn law_fetch_reservation_replays(r: ReserveScmSourceFetch, later: u64)
    requires
        fetch_reservation_outcome(None, r) is Ok,
        later <= i64::MAX,
    ensures
        ({
            let first = fetch_reservation_outcome(None, r)->Ok_0.value;
            let again = ReserveScmSourceFetch { now_unix_ms: later, ..r };
            &&& !fetch_reservation_outcome(None, r)->Ok_0.replayed
            &&& first.attempts == 1
            &&& fetch_reservation_outcome(Some(first), again) == Ok::<
                IdempotentResult<ScmSourceFetchRecord>,
                ControlPlaneError,
            >(
                IdempotentResult {
                    value: ScmSourceFetchRecord { attempts: 2, updated_unix_ms: later, ..first },
                    replayed: true,
                },
            )
        }),
{
}

/// The snapshot a fetch produced.
#[derive(Debug, Clone, PartialEq, Eq)]
pub struct RecordScmFetchSnapshotReady {
    pub tenant_id: String,
    pub fetch_id: String,
    pub token_scope_digest: ContentDigest,
    pub mirror_identity_digest: ContentDigest,
    pub tree_manifest_digest: ContentDigest,
    pub source_snapshot_id: String,
    pub now_unix_ms: u64,
}

/// A recorded digest that differs from `d`.
pub open spec fn digest_changed(o: Option<ContentDigest>, d: ContentDigest) -> bool {
    o matches Some(x) && x@ != d@
}

/// The snapshot of a fetch is recorded once: a different snapshot is
/// refused, as is any snapshot of a failed fetch.
pub open spec fn snapshot_refused(c: ScmSourceFetchRecord, r: RecordScmFetchSnapshotReady) -> bool {
    ||| digest_changed(c.token_scope_digest, r.token_scope_digest)
    ||| digest_changed(c.mirror_identity_digest, r.mirror_identity_digest)
    ||| digest_changed(c.tree_manifest_digest, r.tree_manifest_digest)
    ||| (c.source_snapshot_id matches Some(x) && x@ != r.source_snapshot_id@)
    ||| c.state == ScmSourceFetchState::Failed
}

/// The fetch `c` with the snapshot `r` recorded: ready for commit, unless
/// already committed.
pub open spec fn snapshot_recorded(c: ScmSourceFetchRecord, r: RecordScmFetchSnapshotReady) -> ScmSourceFetchRecord {
    ScmSourceFetchRecord {
        token_scope_digest: Some(r.token_scope_digest),
        mirror_identity_digest: Some(r.mirror_identity_digest),
        tree_manifest_digest: Some(r.tree_manifest_digest),
        source_snapshot_id: Some(r.source_snapshot_id),
        state: if c.state == ScmSourceFetchState::Committed {
            ScmSourceFetchState::Committed
        } else {
            ScmSourceFetchState::SnapshotReady
        },
        updated_unix_ms: r.now_unix_ms,
        ..c
    }
}

/// The outcome of recording the snapshot `r` on the fetch `c`.
pub open spec fn snapshot_outcome(c: ScmSourceFetchRecord, r: RecordScmFetchSnapshotReady) -> Result<
    ScmSourceFetchRecord,
    ControlPlaneError,
> {
    if snapshot_refused(c, r) {
        Err(ControlPlaneError::IdempotencyConflict)
    } else if r.now_unix_ms > i64::MAX {
        Err(ControlPlaneError::IntegerRange { field: FIELD_FETCH_UPDATE })
    } else {
        Ok(snapshot_recorded(c, r))
    }
}

fn opt_digest_changed(o: &Option<ContentDigest>, d: &ContentDigest) -> (res: bool)
    ensures
        res == digest_changed(*o, *d),
{
    match o {
        Some(x) => !digest_eq(x, d),
        None => false,
    }
}

/// Records the snapshot a fetch produced.
pub fn record_fetch_snapshot(c: ScmSourceFetchRecord, r: &RecordScmFetchSnapshotReady) -> (res: Result<
    ScmSourceFetchRecord,
    ControlPlaneError,
>)
    ensures
        res == snapshot_outcome(c, *r),
{
    let other_snapshot = match &c.source_snapshot_id {
        Some(x) => !text_eq(x.as_str(), r.source_snapshot_id.as_str()),
        None => false,
    };
    if opt_digest_changed(&c.token_scope_digest, &r.token_scope_digest) || opt_digest_changed(
        &c.mirror_identity_digest,
        &r.mirror_identity_digest,
    ) || opt_digest_changed(&c.tree_manifest_digest, &r.tree_manifest_digest) || other_snapshot
        || c.state == ScmSourceFetchState::Failed {
        return Err(ControlPlaneError::IdempotencyConflict);
    }
    to_i64(r.now_unix_ms, FIELD_FETCH_UPDATE)?;
    let state = if c.state == ScmSourceFetchState::Committed {
        ScmSourceFetchState::Committed
    } else {
        ScmSourceFetchState::SnapshotReady
    };
    Ok(
        ScmSourceFetchRecord {
            token_scope_digest: Some(r.token_scope_digest.duplicate()),
            mirror_identity_digest: Some(r.mirror_identity_digest.duplicate()),
            tree_manifest_digest: Some(r.tree_manifest_digest.duplicate()),
            source_snapshot_id: Some(r.source_snapshot_id.clone()),
            state,
            updated_unix_ms: r.now_unix_ms,
            ..c
        },
    )
}

/// The outcome of committing the fetch `c` at `now`: only a fetch whose
/// snapshot is ready (or that is committed already) commits.
pub open spec fn commit_outcome(c: ScmSourceFetchRecord, now: u64) -> Result<
    ScmSourceFetchRecord,
    ControlPlaneError,
> {
    if now > i64::MAX {
        Err(ControlPlaneError::IntegerRange { field: FIELD_FETCH_UPDATE })
    } else if c.state == ScmSourceFetchState::SnapshotReady || c.state
        == ScmSourceFetchState::Committed {
        Ok(ScmSourceFetchRecord { state: ScmSourceFetchState::Committed, updated_unix_ms: now, ..c })
    } else {
        Err(ControlPlaneError::IdempotencyConflict)
    }
}

/// Commits a fetch whose snapshot is ready.
pub fn mark_fetch_committed(c: ScmSourceFetchRecord, now: u64) -> (res: Result<
    ScmSourceFetchRecord,
    ControlPlaneError,
>)
    ensures
        res == commit_outcome(c, now),
{
    to_i64(now, FIELD_FETCH_UPDATE)?;
    if c.state == ScmSourceFetchState::SnapshotReady || c.state == ScmSourceFetchState::Committed {
        Ok(ScmSourceFetchRecord { state: ScmSourceFetchState::Committed, updated_unix_ms: now, ..c })
    } else {
        Err(ControlPlaneError::IdempotencyConflict)
    }
}

/// A fetch's snapshot is written once and a commit is final: after a
/// snapshot is recorded, the same snapshot is accepted again and a different
/// one is refused; a committed fetch stays committed whatever snapshot
/// report or commit follows.
pub proof fn law_fetch_snapshot_written_once(
    c: ScmSourceFetchRecord,
    r: RecordScmFetchSnapshotReady,
    other: RecordScmFetchSnapshotReady,
    now: u64,
)
    requires
        snapshot_outcome(c, r) is Ok,
        other.tree_manifest_digest@ != r.tree_manifest_digest@,
    ensures
        ({
            let x = snapshot_outcome(c, r)->Ok_0;
            &&& snapshot_outcome(x, r) is Ok
            &&& snapshot_outcome(x, other) == Err::<ScmSourceFetchRecord, ControlPlaneError>(
                ControlPlaneError::IdempotencyConflict,
            )
            &&& c.state == ScmSourceFetchState::Committed ==> x.state == ScmSourceFetchState::Committed
        }),
        c.state == ScmSourceFetchState::Committed ==> (commit_outcome(c, now) matches Ok(y) ==> y.state
            == ScmSourceFetchState::Committed),
{
}

/// The durable name of a SCM fetch state.
pub open spec fn fetch_state_text(s: ScmSourceFetchState) -> &'static str {
    match s {
        ScmSourceFetchState::Reserved => "reserved",
        ScmSourceFetchState::Fetched => "fetched",
        ScmSourceFetchState::SnapshotReady => "snapshot-ready",
        ScmSourceFetchState::Committed => "committed",
        ScmSourceFetchState::Failed => "failed",
    }
}

/// The durable name of a SCM fetch state.
pub fn fetch_state_name(s: ScmSourceFetchState) -> (res: &'static str)
    ensures
        res == fetch_state_text(s),
{
    match s {
        ScmSourceFetchState::Reserved => "reserved",
        ScmSourceFetchState::Fetched => "fetched",
        ScmSourceFetchState::SnapshotReady => "snapshot-ready",
        ScmSourceFetchState::Committed => "committed",
        ScmSourceFetchState::Failed => "failed",
    }
}

/// The SCM fetch state whose durable name has the bytes `b`.
pub open spec fn fetch_state_named(b: Seq<u8>) -> Option<ScmSourceFetchState> {
    if b == "reserved".spec_bytes() {
        Some(ScmSourceFetchState::Reserved)
    } else if b == "fetched".spec_bytes() {
        Some(ScmSourceFetchState::Fetched)
    } else if b == "snapshot-ready".spec_bytes() {
        Some(ScmSourceFetchState::SnapshotReady)
    } else if b == "committed".spec_bytes() {
        Some(ScmSourceFetchState::Committed)
    } else if b == "failed".spec_bytes() {
        Some(ScmSourceFetchState::Failed)
    } else {
        None
    }
}

/// Reads the durable name of a SCM fetch state.
pub fn parse_fetch_state(value: &str) -> (res: Result<ScmSourceFetchState, ControlPlaneError>)
    ensures
        match fetch_state_named(value.spec_bytes()) {
            Some(s) => res == Ok::<ScmSourceFetchState, ControlPlaneError>(s),
            None => res matches Err(ControlPlaneError::UnknownState { kind, value: v }) && kind
                == "SCM fetch state" && v@ == value@,
        },
{
    if str_is(value, "reserved") {
        Ok(ScmSourceFetchState::Reserved)
    } else if str_is(value, "fetched") {
        Ok(ScmSourceFetchState::Fetched)
    } else if str_is(value, "snapshot-ready") {
        Ok(ScmSourceFetchState::SnapshotReady)
    } else if str_is(value, "committed") {
        Ok(ScmSourceFetchState::Committed)
    } else if str_is(value, "failed") {
        Ok(ScmSourceFetchState::Failed)
    } else {
        Err(ControlPlaneError::UnknownState { kind: "SCM fetch state", value: value.to_owned() })
    }
}

} // verus!
