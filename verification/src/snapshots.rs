//! Source snapshots of a repository commit: a snapshot is created building
//! and marked ready once its tree manifest is verified, each step decided
//! here over the stored record.

use crate::digest::{digest_eq, ContentDigest};
use crate::bytes::str_is;
use crate::error::ControlPlaneError;
use crate::policy::IdempotentResult;
use crate::runs::{str_bytes, text_check, validate_text};
use crate::scm::text_eq;
use vstd::prelude::*;
use vstd::string::StringSliceAdditionalSpecFns;

verus! {

/// Where a source snapshot stands.
#[derive(Debug, Clone, Copy, PartialEq, Eq, Structural)]
pub enum SourceSnapshotState {
    Building,
    Ready,
    Failed,
    Retired,
}

/// A source snapshot, as stored.
#[derive(Debug, Clone, PartialEq, Eq)]
pub struct SourceSnapshotRecord {
    pub id: String,
    pub tenant_id: String,
    pub repository_id: String,
    pub commit_sha: String,
    pub tree_manifest_digest: ContentDigest,
    pub state: SourceSnapshotState,
    pub created_unix_ms: u64,
    pub verified_unix_ms: Option<u64>,
}

pub const MSG_NEW_SNAPSHOT: &'static str = "new source snapshot must be building";

/// A new snapshot names its texts and starts building, unverified.
pub open spec fn new_snapshot_check(s: SourceSnapshotRecord) -> Result<(), ControlPlaneError> {
    if text_check(str_bytes(s.id)) is Err {
        text_check(str_bytes(s.id))
    } else if text_check(str_bytes(s.tenant_id)) is Err {
        text_check(str_bytes(s.tenant_id))
    } else if text_check(str_bytes(s.repository_id)) is Err {
        text_check(str_bytes(s.repository_id))
    } else if text_check(str_bytes(s.commit_sha)) is Err {
        text_check(str_bytes(s.commit_sha))
    } else if s.state != SourceSnapshotState::Building || s.verified_unix_ms is Some {
        Err(ControlPlaneError::InvalidInput(MSG_NEW_SNAPSHOT))
    } else {
        Ok(())
    }
}

/// Validates a new snapshot before anything is read.
pub fn validate_new_snapshot(s: &SourceSnapshotRecord) -> (res: Result<(), ControlPlaneError>)
    ensures
        res == new_snapshot_check(*s),
{
    validate_text(s.id.as_str())?;
    validate_text(s.tenant_id.as_str())?;
    validate_text(s.repository_id.as_str())?;
    validate_text(s.commit_sha.as_str())?;
    if s.state != SourceSnapshotState::Building || s.verified_unix_ms.is_some() {
        return Err(ControlPlaneError::InvalidInput(MSG_NEW_SNAPSHOT));
    }
    Ok(())
}

/// Two snapshot records are the same record.
pub open spec fn same_snapshot(a: SourceSnapshotRecord, b: SourceSnapshotRecord) -> bool {
    &&& a.id@ == b.id@
    &&& a.tenant_id@ == b.tenant_id@
    &&& a.repository_id@ == b.repository_id@
    &&& a.commit_sha@ == b.commit_sha@
    &&& a.tree_manifest_digest@ == b.tree_manifest_digest@
    &&& a.state == b.state
    &&& a.created_unix_ms == b.created_unix_ms
    &&& a.verified_unix_ms == b.verified_unix_ms
}

/// The outcome of creating `s` when `existing` is what is stored under its
/// id: `s` itself when new, the stored snapshot when it is the same one.
pub open spec fn snapshot_creation_outcome(existing: Option<SourceSnapshotRecord>, s: SourceSnapshotRecord) -> Result<
    IdempotentResult<SourceSnapshotRecord>,
    ControlPlaneError,
> {
    if s.created_unix_ms > i64::MAX {
        Err(ControlPlaneError::IntegerRange { field: "source snapshot creation" })
    } else {
        match existing {
            None => Ok(IdempotentResult { value: s, replayed: false }),
            Some(x) => if same_snapshot(x, s) {
                Ok(IdempotentResult { value: x, replayed: true })
            } else {
                Err(ControlPlaneError::IdempotencyConflict)
            },
        }
    }
}

/// Creates a snapshot, or replays the same one stored already.
pub fn create_snapshot(existing: Option<SourceSnapshotRecord>, s: SourceSnapshotRecord) -> (res: Result<
    IdempotentResult<SourceSnapshotRecord>,
    ControlPlaneError,
>)
    ensures
        res == snapshot_creation_outcome(existing, s),
{
    if s.created_unix_ms > 0x7fff_ffff_ffff_ffffu64 {
        return Err(ControlPlaneError::IntegerRange { field: "source snapshot creation" });
    }
    match existing {
        None => Ok(IdempotentResult { value: s, replayed: false }),
        Some(x) => {
            if text_eq(x.id.as_str(), s.id.as_str()) && text_eq(x.tenant_id.as_str(), s.tenant_id.as_str())
                && text_eq(x.repository_id.as_str(), s.repository_id.as_str()) && text_eq(
                x.commit_sha.as_str(),
                s.commit_sha.as_str(),
            ) && digest_eq(&x.tree_manifest_digest, &s.tree_manifest_digest) && x.state == s.state
                && x.created_unix_ms == s.created_unix_ms && x.verified_unix_ms == s.verified_unix_ms {
                Ok(IdempotentResult { value: x, replayed: true })
            } else {
                Err(ControlPlaneError::IdempotencyConflict)
            }
        },
    }
}

/// The outcome of marking `c` ready with the tree manifest `digest` at
/// `now`: a building snapshot of that manifest becomes ready, verified now;
/// marking a ready one again at the same time changes nothing.
pub open spec fn snapshot_ready_outcome(c: SourceSnapshotRecord, digest: ContentDigest, now: u64) -> Result<
    SourceSnapshotRecord,
    ControlPlaneError,
> {
    if c.tree_manifest_digest@ != digest@ {
        Err(ControlPlaneError::IdempotencyConflict)
    } else if c.state == SourceSnapshotState::Building {
        if now > i64::MAX {
            Err(ControlPlaneError::IntegerRange { field: "source snapshot verification" })
        } else {
            Ok(
                SourceSnapshotRecord {
                    state: SourceSnapshotState::Ready,
                    verified_unix_ms: Some(now),
                    ..c
                },
            )
        }
    } else if c.state == SourceSnapshotState::Ready && c.verified_unix_ms == Some(now) {
        Ok(c)
    } else {
        Err(ControlPlaneError::IdempotencyConflict)
    }
}

/// Marks a building snapshot ready.
pub fn mark_snapshot_ready(c: SourceSnapshotRecord, digest: &ContentDigest, now: u64) -> (res: Result<
    SourceSnapshotRecord,
    ControlPlaneError,
>)
    ensures
        res == snapshot_ready_outcome(c, *digest, now),
{
    if !digest_eq(&c.tree_manifest_digest, digest) {
        return Err(ControlPlaneError::IdempotencyConflict);
    }
    match c.state {
        SourceSnapshotState::Building => {
            if now > 0x7fff_ffff_ffff_ffffu64 {
                return Err(ControlPlaneError::IntegerRange { field: "source snapshot verification" });
            }
            Ok(SourceSnapshotRecord { state: SourceSnapshotState::Ready, verified_unix_ms: Some(now), ..c })
        },
        SourceSnapshotState::Ready => {
            if c.verified_unix_ms == Some(now) {
                Ok(c)
            } else {
                Err(ControlPlaneError::IdempotencyConflict)
            }
        },
        _ => Err(ControlPlaneError::IdempotencyConflict),
    }
}

/// A snapshot is verified once: marking it ready again at the time it was
/// verified replays it, and at any other time is refused.
pub proof fn law_snapshot_verified_once(c: SourceSnapshotRecord, digest: ContentDigest, now: u64, later: u64)
    requires
        snapshot_ready_outcome(c, digest, now) is Ok,
        later != now,
    ensures
        ({
            let x = snapshot_ready_outcome(c, digest, now)->Ok_0;
            &&& x.state == SourceSnapshotState::Ready
            &&& snapshot_ready_outcome(x, digest, now) == Ok::<SourceSnapshotRecord, ControlPlaneError>(x)
            &&& snapshot_ready_outcome(x, digest, later) == Err::<SourceSnapshotRecord, ControlPlaneError>(
                ControlPlaneError::IdempotencyConflict,
            )
        }),
{
}

/// The snapshot a run's sources were bound to, as stored.
#[derive(Debug, Clone, PartialEq, Eq)]
pub struct RunSourceSnapshotRecord {
    pub run_id: String,
    pub source_snapshot_id: String,
    pub capsule_digest: ContentDigest,
    pub bound_unix_ms: u64,
}

/// A run's capsule agrees with a ready snapshot when it names the snapshot's
/// tree manifest and commit.
pub open spec fn capsule_source_check(
    capsule_tree: Option<ContentDigest>,
    capsule_commit: Seq<char>,
    snapshot_tree: Seq<char>,
    snapshot_commit: Seq<char>,
) -> Result<(), ControlPlaneError> {
    let tree_differs = match capsule_tree {
        Some(d) => d@ != snapshot_tree,
        None => true,
    };
    if tree_differs || capsule_commit != snapshot_commit {
        Err(ControlPlaneError::IdempotencyConflict)
    } else {
        Ok(())
    }
}

/// Checks the capsule of a run against the snapshot it is to be bound to.
pub fn check_capsule_source(
    capsule_tree: &Option<ContentDigest>,
    capsule_commit: &str,
    snapshot_tree: &str,
    snapshot_commit: &str,
) -> (res: Result<(), ControlPlaneError>)
    ensures
        res == capsule_source_check(*capsule_tree, capsule_commit@, snapshot_tree@, snapshot_commit@),
{
    let tree_same = match capsule_tree {
        Some(d) => text_eq(d.text.as_str(), snapshot_tree),
        None => false,
    };
    if !tree_same || !text_eq(capsule_commit, snapshot_commit) {
        return Err(ControlPlaneError::IdempotencyConflict);
    }
    Ok(())
}

/// The outcome of binding a run to `snapshot` for the capsule `digest`, once
/// `stored` is the run's binding after the insert, which added `inserted`
/// rows: the stored binding, replayed when nothing was added; refused when
/// the run was bound to another snapshot or capsule.
pub open spec fn snapshot_binding_outcome(
    stored: RunSourceSnapshotRecord,
    snapshot: Seq<char>,
    digest: ContentDigest,
    inserted: u64,
) -> Result<IdempotentResult<RunSourceSnapshotRecord>, ControlPlaneError> {
    if stored.source_snapshot_id@ != snapshot || stored.capsule_digest@ != digest@ {
        Err(ControlPlaneError::IdempotencyConflict)
    } else {
        Ok(IdempotentResult { value: stored, replayed: inserted == 0 })
    }
}

/// Settles the binding of a run to a snapshot from what is stored.
pub fn settle_snapshot_binding(
    stored: RunSourceSnapshotRecord,
    snapshot: &str,
    digest: &ContentDigest,
    inserted: u64,
) -> (res: Result<IdempotentResult<RunSourceSnapshotRecord>, ControlPlaneError>)
    ensures
        res == snapshot_binding_outcome(stored, snapshot@, *digest, inserted),
{
    if !text_eq(stored.source_snapshot_id.as_str(), snapshot) || !digest_eq(&stored.capsule_digest, digest) {
        return Err(ControlPlaneError::IdempotencyConflict);
    }
    Ok(IdempotentResult { value: stored, replayed: inserted == 0 })
}

/// A run is bound to one snapshot: binding it again to the snapshot and
/// capsule it is bound to replays the stored binding, and binding it to any
/// other snapshot is refused.
pub proof fn law_run_binding_write_once(
    stored: RunSourceSnapshotRecord,
    other: Seq<char>,
    digest: ContentDigest,
)
    requires
        stored.capsule_digest@ == digest@,
        other != stored.source_snapshot_id@,
    ensures
        snapshot_binding_outcome(stored, stored.source_snapshot_id@, digest, 0) == Ok::<
            IdempotentResult<RunSourceSnapshotRecord>,
            ControlPlaneError,
        >(IdempotentResult { value: stored, replayed: true }),
        snapshot_binding_outcome(stored, other, digest, 0) == Err::<
            IdempotentResult<RunSourceSnapshotRecord>,
            ControlPlaneError,
        >(ControlPlaneError::IdempotencyConflict),
{
}

/// A job of a run's capsule, as far as binding its sources concerns it.
#[derive(Debug, Clone, PartialEq, Eq)]
pub struct SourceBoundJob {
    pub key: String,
    pub has_needs: bool,
    pub trust_satisfied: bool,
}

/// The keys of the jobs that binding the sources releases, in order: those
/// that need no other job and whose trust the sources satisfy.
pub open spec fn released_job_keys(jobs: Seq<SourceBoundJob>) -> Seq<Seq<char>>
    decreases jobs.len(),
{
    if jobs.len() == 0 {
        Seq::empty()
    } else {
        let rest = released_job_keys(jobs.drop_last());
        let j = jobs.last();
        if !j.has_needs && j.trust_satisfied {
            rest.push(j.key@)
        } else {
            rest
        }
    }
}

/// The keys of the jobs to queue once a run's sources are bound.
pub fn jobs_released_by_source(jobs: &Vec<SourceBoundJob>) -> (res: Vec<String>)
    ensures
        res@.map_values(|k: String| k@) == released_job_keys(jobs@),
{
    let mut out: Vec<String> = Vec::new();
    let mut i: usize = 0;
    while i < jobs.len()
        invariant
            0 <= i <= jobs@.len(),
            out@.map_values(|k: String| k@) == released_job_keys(jobs@.take(i as int)),
        decreases jobs@.len() - i,
    {
        proof {
            assert(jobs@.take(i + 1).drop_last() =~= jobs@.take(i as int));
        }
        let j = &jobs[i];
        if !j.has_needs && j.trust_satisfied {
            let ghost before = out@;
            out.push(j.key.clone());
            proof {
                assert(out@.map_values(|k: String| k@) =~= before.map_values(|k: String| k@).push(j.key@));
            }
        }
        i = i + 1;
    }
    proof {
        assert(jobs@.take(jobs@.len() as int) =~= jobs@);
    }
    out
}

/// The durable name of a source snapshot state.
pub open spec fn snapshot_state_text(s: SourceSnapshotState) -> &'static str {
    match s {
        SourceSnapshotState::Building => "building",
        SourceSnapshotState::Ready => "ready",
        SourceSnapshotState::Failed => "failed",
        SourceSnapshotState::Retired => "retired",
    }
}

/// The durable name of a source snapshot state.
pub fn snapshot_state_name(s: SourceSnapshotState) -> (res: &'static str)
    ensures
        res == snapshot_state_text(s),
{
    match s {
        SourceSnapshotState::Building => "building",
        SourceSnapshotState::Ready => "ready",
        SourceSnapshotState::Failed => "failed",
        SourceSnapshotState::Retired => "retired",
    }
}

/// The source snapshot state whose durable name has the bytes `b`.
pub open spec fn snapshot_state_named(b: Seq<u8>) -> Option<SourceSnapshotState> {
    if b == "building".spec_bytes() {
        Some(SourceSnapshotState::Building)
    } else if b == "ready".spec_bytes() {
        Some(SourceSnapshotState::Ready)
    } else if b == "failed".spec_bytes() {
        Some(SourceSnapshotState::Failed)
    } else if b == "retired".spec_bytes() {
        Some(SourceSnapshotState::Retired)
    } else {
        None
    }
}

/// Reads the durable name of a source snapshot state.
pub fn parse_snapshot_state(value: &str) -> (res: Result<SourceSnapshotState, ControlPlaneError>)
    ensures
        match snapshot_state_named(value.spec_bytes()) {
            Some(s) => res == Ok::<SourceSnapshotState, ControlPlaneError>(s),
            None => res matches Err(ControlPlaneError::UnknownState { kind, value: v }) && kind
                == "source snapshot state" && v@ == value@,
        },
{
    if str_is(value, "building") {
        Ok(SourceSnapshotState::Building)
    } else if str_is(value, "ready") {
        Ok(SourceSnapshotState::Ready)
    } else if str_is(value, "failed") {
        Ok(SourceSnapshotState::Failed)
    } else if str_is(value, "retired") {
        Ok(SourceSnapshotState::Retired)
    } else {
        Err(ControlPlaneError::UnknownState { kind: "source snapshot state", value: value.to_owned() })
    }
}

} // verus!
