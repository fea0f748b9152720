//! Dynamic job expansion: the checks of an expanded job set record, the
//! decisions of persisting it and of materializing its jobs into the run,
//! and the initial state of each expanded job.

use crate::digest::{content_digest_sha256, digest_eq, expanded_job_id, expanded_job_text, sha256_text, ContentDigest};
use crate::error::ControlPlaneError;
use crate::runs::{str_bytes, text_check, validate_text};
use crate::states::{job_is_terminal, JobState};
use crate::jobs::JobEntry;
use vstd::prelude::*;
use vstd::string::StringSliceAdditionalSpecFns;

verus! {

/// A signed set of jobs expanded from a dynamic job template of a run.
#[derive(Debug, Clone, PartialEq, Eq)]
pub struct ExpandedJobSetRecord {
    pub id: String,
    pub tenant_id: String,
    pub repository_id: String,
    pub run_id: String,
    pub parent_capsule_digest: ContentDigest,
    pub template_id: String,
    pub producer_job_id: String,
    pub producer_output_name: String,
    pub matrix_input_digest: ContentDigest,
    pub policy_epoch: u64,
    pub generated_job_count: u64,
    pub canonical_job_set: Vec<u8>,
    pub job_set_digest: ContentDigest,
    pub signing_key_id: String,
    pub signature: Vec<u8>,
    pub created_unix_ms: u64,
}

/// What the expanded job set inside a record's canonical bytes says about
/// itself: its parent capsule, producer, matrix input, policy epoch, the ids
/// of its jobs and the ids it lists as generated.
#[derive(Debug, Clone, PartialEq, Eq)]
pub struct ExpandedJobSetSummary {
    pub parent_capsule_digest: ContentDigest,
    pub producer_job_id: String,
    pub producer_output_name: String,
    pub matrix_input_digest: ContentDigest,
    pub policy_epoch: u64,
    pub job_ids: Vec<String>,
    pub generated_job_ids: Vec<String>,
}

pub const MSG_EXPANSION_BOUNDS: &'static str = "expanded job set exceeds its signed resource bounds";

/// Every text field of a record is valid run-core text.
pub open spec fn expansion_texts_valid(r: ExpandedJobSetRecord) -> bool {
    &&& !crate::runs::text_is_invalid(str_bytes(r.id))
    &&& !crate::runs::text_is_invalid(str_bytes(r.tenant_id))
    &&& !crate::runs::text_is_invalid(str_bytes(r.repository_id))
    &&& !crate::runs::text_is_invalid(str_bytes(r.run_id))
    &&& !crate::runs::text_is_invalid(str_bytes(r.template_id))
    &&& !crate::runs::text_is_invalid(str_bytes(r.producer_job_id))
    &&& !crate::runs::text_is_invalid(str_bytes(r.producer_output_name))
    &&& !crate::runs::text_is_invalid(str_bytes(r.signing_key_id))
}

/// The signed resource bounds: 1 to 1024 jobs, 1 byte to 8 MiB of
/// canonical job set, and a 64-byte signature.
pub open spec fn expansion_bounds_ok(r: ExpandedJobSetRecord) -> bool {
    &&& 1 <= r.generated_job_count <= 1024
    &&& 1 <= r.canonical_job_set@.len() <= 8 * 1024 * 1024
    &&& r.signature@.len() == 64
}

/// Whether the record agrees with the job set it carries: the canonical
/// bytes hash to the record's digest, the set's parent, producer, matrix
/// input and epoch are the record's, it has as many jobs as the record
/// counts, and it lists exactly its jobs' ids as generated.
pub open spec fn expansion_consistent(r: ExpandedJobSetRecord, set: ExpandedJobSetSummary) -> bool {
    &&& r.job_set_digest@ == sha256_text(r.canonical_job_set@)
    &&& set.parent_capsule_digest@ == r.parent_capsule_digest@
    &&& set.producer_job_id@ == r.producer_job_id@
    &&& set.producer_output_name@ == r.producer_output_name@
    &&& set.matrix_input_digest@ == r.matrix_input_digest@
    &&& set.policy_epoch == r.policy_epoch
    &&& set.job_ids@.len() == r.generated_job_count
    &&& set.generated_job_ids@.len() == set.job_ids@.len()
    &&& forall|k: int| 0 <= k < set.job_ids@.len() ==> (#[trigger] set.generated_job_ids@[k])@ == set.job_ids@[k]@
}

/// What `validate_expansion_bounds` decides: valid text, then the signed
/// resource bounds.
pub open spec fn expansion_bounds_check(r: ExpandedJobSetRecord) -> Result<(), ControlPlaneError> {
    if !expansion_texts_valid(r) {
        Err(ControlPlaneError::InvalidInput(crate::error::MSG_TEXT))
    } else if !expansion_bounds_ok(r) {
        Err(ControlPlaneError::InvalidInput(MSG_EXPANSION_BOUNDS))
    } else {
        Ok(())
    }
}

/// Checks an expanded job set record before its job set is decoded.
pub fn validate_expansion_bounds(r: &ExpandedJobSetRecord) -> (res: Result<(), ControlPlaneError>)
    ensures
        res == expansion_bounds_check(*r),
{
    validate_text(r.id.as_str())?;
    validate_text(r.tenant_id.as_str())?;
    validate_text(r.repository_id.as_str())?;
    validate_text(r.run_id.as_str())?;
    validate_text(r.template_id.as_str())?;
    validate_text(r.producer_job_id.as_str())?;
    validate_text(r.producer_output_name.as_str())?;
    validate_text(r.signing_key_id.as_str())?;
    if r.generated_job_count == 0 || r.generated_job_count > 1024 || r.canonical_job_set.len() == 0
        || r.canonical_job_set.len() > 8 * 1024 * 1024 || r.signature.len() != 64 {
        return Err(ControlPlaneError::InvalidInput(MSG_EXPANSION_BOUNDS));
    }
    Ok(())
}

fn strings_same(a: &Vec<String>, b: &Vec<String>) -> (res: bool)
    ensures
        res == (a@.len() == b@.len() && forall|k: int| 0 <= k < a@.len() ==> (#[trigger] a@[k])@ == b@[k]@),
{
    if a.len() != b.len() {
        return false;
    }
    let mut k: usize = 0;
    while k < a.len()
        invariant
            0 <= k <= a@.len(),
            a@.len() == b@.len(),
            forall|j: int| 0 <= j < k ==> (#[trigger] a@[j])@ == b@[j]@,
        decreases a@.len() - k,
    {
        if a[k] != b[k] {
            return false;
        }
        k += 1;
    }
    true
}

/// Checks that a record agrees with the job set decoded from it.
pub fn check_expansion_consistency(r: &ExpandedJobSetRecord, set: &ExpandedJobSetSummary) -> (res: Result<
    (),
    ControlPlaneError,
>)
    ensures
        res == if expansion_consistent(*r, *set) {
            Ok::<(), ControlPlaneError>(())
        } else {
            Err(ControlPlaneError::IdempotencyConflict)
        },
{
    let actual = content_digest_sha256(r.canonical_job_set.as_slice());
    let consistent = digest_eq(&actual, &r.job_set_digest) && digest_eq(
        &set.parent_capsule_digest,
        &r.parent_capsule_digest,
    ) && set.producer_job_id == r.producer_job_id && set.producer_output_name
        == r.producer_output_name && digest_eq(&set.matrix_input_digest, &r.matrix_input_digest)
        && set.policy_epoch == r.policy_epoch && set.job_ids.len() as u64 == r.generated_job_count
        && strings_same(&set.generated_job_ids, &set.job_ids);
    if consistent {
        Ok(())
    } else {
        Err(ControlPlaneError::IdempotencyConflict)
    }
}

/// Checks the job set against its dynamic job template's source: the same
/// producer job and output, and no more jobs than the template allows.
pub fn check_expansion_template(
    set: &ExpandedJobSetSummary,
    template_producer_job_id: &String,
    template_output_name: &String,
    maximum_jobs: usize,
) -> (res: Result<(), ControlPlaneError>)
    ensures
        res == if template_producer_job_id@ == set.producer_job_id@ && template_output_name@
            == set.producer_output_name@ && set.job_ids@.len() <= maximum_jobs {
            Ok::<(), ControlPlaneError>(())
        } else {
            Err(ControlPlaneError::IdempotencyConflict)
        },
{
    if *template_producer_job_id != set.producer_job_id || *template_output_name
        != set.producer_output_name || maximum_jobs < set.job_ids.len() {
        return Err(ControlPlaneError::IdempotencyConflict);
    }
    Ok(())
}

/// Whether a stored record holds exactly the values of `r`.
pub open spec fn expansion_record_same(s: ExpandedJobSetRecord, r: ExpandedJobSetRecord) -> bool {
    &&& s.id@ == r.id@
    &&& s.parent_capsule_digest@ == r.parent_capsule_digest@
    &&& s.producer_job_id@ == r.producer_job_id@
    &&& s.producer_output_name@ == r.producer_output_name@
    &&& s.matrix_input_digest@ == r.matrix_input_digest@
    &&& s.policy_epoch == r.policy_epoch
    &&& s.generated_job_count == r.generated_job_count
    &&& s.canonical_job_set@ == r.canonical_job_set@
    &&& s.job_set_digest@ == r.job_set_digest@
    &&& s.signing_key_id@ == r.signing_key_id@
    &&& s.signature@ == r.signature@
    &&& s.created_unix_ms == r.created_unix_ms
}

pub const FIELD_EXPANSION_EPOCH: &'static str = "expansion policy epoch";

pub const FIELD_GENERATED_JOBS: &'static str = "generated jobs";

pub const FIELD_EXPANSION_CREATION: &'static str = "expansion creation";

/// Whether persisting `r` replays the record stored for its tenant,
/// repository, run and template (`existing`), or stores it anew.
pub open spec fn expansion_persist_decision(existing: Option<ExpandedJobSetRecord>, r: ExpandedJobSetRecord) -> Result<
    bool,
    ControlPlaneError,
> {
    match existing {
        Some(s) => if expansion_record_same(s, r) {
            Ok(true)
        } else {
            Err(ControlPlaneError::IdempotencyConflict)
        },
        None => if r.policy_epoch > i64::MAX {
            Err(ControlPlaneError::IntegerRange { field: FIELD_EXPANSION_EPOCH })
        } else if r.generated_job_count > i32::MAX {
            Err(ControlPlaneError::IntegerRange { field: FIELD_GENERATED_JOBS })
        } else if r.created_unix_ms > i64::MAX {
            Err(ControlPlaneError::IntegerRange { field: FIELD_EXPANSION_CREATION })
        } else {
            Ok(false)
        },
    }
}

fn bytes_same(a: &Vec<u8>, b: &Vec<u8>) -> (res: bool)
    ensures
        res == (a@ == b@),
{
    crate::bytes::bytes_eq(a.as_slice(), b.as_slice())
}

/// Decides whether persisting a record replays the stored one (`true`) or
/// stores it (`false`).
pub fn decide_expansion_persist(existing: Option<&ExpandedJobSetRecord>, r: &ExpandedJobSetRecord) -> (res:
    Result<bool, ControlPlaneError>)
    ensures
        res == expansion_persist_decision(
            match existing {
                Some(s) => Some(*s),
                None => None,
            },
            *r,
        ),
{
    match existing {
        Some(s) => {
            let same = s.id == r.id && digest_eq(&s.parent_capsule_digest, &r.parent_capsule_digest)
                && s.producer_job_id == r.producer_job_id && s.producer_output_name
                == r.producer_output_name && digest_eq(&s.matrix_input_digest, &r.matrix_input_digest)
                && s.policy_epoch == r.policy_epoch && s.generated_job_count == r.generated_job_count
                && bytes_same(&s.canonical_job_set, &r.canonical_job_set) && digest_eq(
                &s.job_set_digest,
                &r.job_set_digest,
            ) && s.signing_key_id == r.signing_key_id && bytes_same(&s.signature, &r.signature)
                && s.created_unix_ms == r.created_unix_ms;
            if same {
                Ok(true)
            } else {
                Err(ControlPlaneError::IdempotencyConflict)
            }
        },
        None => {
            if r.policy_epoch > 0x7fff_ffff_ffff_ffffu64 {
                return Err(ControlPlaneError::IntegerRange { field: FIELD_EXPANSION_EPOCH });
            }
            if r.generated_job_count > 0x7fff_ffffu64 {
                return Err(ControlPlaneError::IntegerRange { field: FIELD_GENERATED_JOBS });
            }
            if r.created_unix_ms > 0x7fff_ffff_ffff_ffffu64 {
                return Err(ControlPlaneError::IntegerRange { field: FIELD_EXPANSION_CREATION });
            }
            Ok(false)
        },
    }
}

/// Checks the lease of a materialization request: its lease and runner ids
/// are valid text, and its fencing generation, installation fencing epoch and
/// producer attempt are positive.
pub fn validate_materialization_binding(
    execution_lease_id: &str,
    runner_id: &str,
    fencing_generation: u64,
    installation_fencing_epoch: u64,
    producer_job_attempt: u32,
) -> (res: Result<(), ControlPlaneError>)
    ensures
        res == match text_check(execution_lease_id.spec_bytes()) {
            Err(e) => Err(e),
            Ok(()) => match text_check(runner_id.spec_bytes()) {
                Err(e) => Err(e),
                Ok(()) => if fencing_generation == 0 || installation_fencing_epoch == 0
                    || producer_job_attempt == 0 {
                    Err(ControlPlaneError::RunnerBrokerBindingMismatch)
                } else {
                    Ok(())
                },
            },
        },
{
    validate_text(execution_lease_id)?;
    validate_text(runner_id)?;
    if fencing_generation == 0 || installation_fencing_epoch == 0 || producer_job_attempt == 0 {
        return Err(ControlPlaneError::RunnerBrokerBindingMismatch);
    }
    Ok(())
}

pub const MSG_EXPANSION_JOB_BOUND: &'static str = "materialized run exceeds the signed workflow job bound";

/// A run holds at most 1024 jobs: those of its capsule and all expanded ones.
pub fn check_expanded_job_bound(capsule_jobs: usize, expanded_total: usize) -> (res: Result<
    (),
    ControlPlaneError,
>)
    ensures
        res == if capsule_jobs + expanded_total > 1024 {
            Err(ControlPlaneError::InvalidInput(MSG_EXPANSION_JOB_BOUND))
        } else {
            Ok::<(), ControlPlaneError>(())
        },
{
    if capsule_jobs.saturating_add(expanded_total) > 1024 {
        return Err(ControlPlaneError::InvalidInput(MSG_EXPANSION_JOB_BOUND));
    }
    Ok(())
}

/// A job of an expanded set, as materialization needs it: its key, the keys
/// it needs, its concurrency group, and whether the run's source trust
/// satisfies the trust it requires.
#[derive(Debug, Clone, PartialEq, Eq)]
pub struct PlannedExpandedJob {
    pub key: String,
    pub needs: Vec<String>,
    pub concurrency: Option<String>,
    pub trust_satisfied: bool,
}

/// A scheduler job already stored under an expanded job's key: its id,
/// attempt and concurrency group, and whether its scheduling requirements
/// are the expanded job's.
#[derive(Debug, Clone, PartialEq, Eq)]
pub struct ExistingExpandedJob {
    pub id: String,
    pub attempt: i32,
    pub requirements_match: bool,
    pub concurrency_group: Option<String>,
}

pub open spec fn opt_view(o: Option<String>) -> Option<Seq<char>> {
    match o {
        Some(s) => Some(s@),
        None => None,
    }
}

/// Whether a stored job is the materialization of the planned job `p` of
/// the set `record`.
pub open spec fn existing_matches(record: Seq<u8>, p: PlannedExpandedJob, e: ExistingExpandedJob) -> bool {
    &&& e.id@ == expanded_job_text(record, str_bytes(p.key))
    &&& e.attempt == 1
    &&& e.requirements_match
    &&& opt_view(e.concurrency_group) == opt_view(p.concurrency)
}

/// Whether a stored job is present under the planned job's key but is not
/// its materialization.
pub open spec fn existing_conflicts(record: Seq<u8>, p: PlannedExpandedJob, o: Option<ExistingExpandedJob>) -> bool {
    match o {
        Some(e) => !existing_matches(record, p, e),
        None => false,
    }
}

pub const MSG_PARTIAL_MATERIALIZATION: &'static str = "expanded scheduler job materialization is partial";

/// How many of the planned jobs are already stored.
pub open spec fn existing_count(existing: Seq<Option<ExistingExpandedJob>>) -> nat
    decreases existing.len(),
{
    if existing.len() == 0 {
        0
    } else {
        existing_count(existing.drop_last()) + if existing.last() is Some {
            1nat
        } else {
            0nat
        }
    }
}

/// What the stored jobs say about a materialization: a stored job that is
/// not its planned job's materialization is a conflict; some but not all
/// stored is corrupt; all stored means already materialized (`true`), none
/// means the jobs are to be inserted (`false`).
pub open spec fn existing_jobs_decision(
    record: Seq<u8>,
    planned: Seq<PlannedExpandedJob>,
    existing: Seq<Option<ExistingExpandedJob>>,
) -> Result<bool, ControlPlaneError> {
    if exists|k: int| 0 <= k < planned.len() && existing_conflicts(record, planned[k], #[trigger] existing[k]) {
        Err(ControlPlaneError::IdempotencyConflict)
    } else if existing_count(existing) != 0 && existing_count(existing) != planned.len() {
        Err(ControlPlaneError::CorruptState(MSG_PARTIAL_MATERIALIZATION))
    } else {
        Ok(existing_count(existing) != 0)
    }
}

proof fn lemma_existing_count_none(existing: Seq<Option<ExistingExpandedJob>>)
    requires
        forall|k: int| 0 <= k < existing.len() ==> (#[trigger] existing[k]) is None,
    ensures
        existing_count(existing) == 0,
    decreases existing.len(),
{
    if existing.len() > 0 {
        lemma_existing_count_none(existing.drop_last());
    }
}

proof fn lemma_existing_count_all(existing: Seq<Option<ExistingExpandedJob>>)
    requires
        forall|k: int| 0 <= k < existing.len() ==> (#[trigger] existing[k]) is Some,
    ensures
        existing_count(existing) == existing.len(),
    decreases existing.len(),
{
    if existing.len() > 0 {
        lemma_existing_count_all(existing.drop_last());
    }
}

/// Materialization inserts the jobs of a set once: while none is stored the
/// planned jobs are to be inserted, and once each is stored as its planned
/// job's materialization, the same request answers that the set is already
/// materialized and inserts nothing.
pub proof fn law_materialization_inserts_once(
    record: Seq<u8>,
    planned: Seq<PlannedExpandedJob>,
    before: Seq<Option<ExistingExpandedJob>>,
    after: Seq<Option<ExistingExpandedJob>>,
)
    requires
        before.len() == planned.len(),
        after.len() == planned.len(),
        forall|k: int| 0 <= k < before.len() ==> (#[trigger] before[k]) is None,
        forall|k: int|
            0 <= k < after.len() ==> ((#[trigger] after[k]) matches Some(e) && existing_matches(record, planned[k], e)),
    ensures
        existing_jobs_decision(record, planned, before) == Ok::<bool, ControlPlaneError>(false),
        existing_jobs_decision(record, planned, after) == Ok::<bool, ControlPlaneError>(planned.len() > 0),
{
    lemma_existing_count_none(before);
    lemma_existing_count_all(after);
    assert(!exists|k: int| 0 <= k < planned.len() && existing_conflicts(record, planned[k], #[trigger] before[k]));
    assert(!exists|k: int| 0 <= k < planned.len() && existing_conflicts(record, planned[k], #[trigger] after[k]));
}

fn opt_string_same(a: &Option<String>, b: &Option<String>) -> (res: bool)
    ensures
        res == (opt_view(*a) == opt_view(*b)),
{
    match (a, b) {
        (Some(x), Some(y)) => *x == *y,
        (None, None) => true,
        (Some(x), None) => false,
        (None, Some(y)) => false,
    }
}

/// Decides from the jobs stored under the planned jobs' keys (one entry per
/// planned job) whether the set is already materialized.
pub fn decide_existing_expanded_jobs(
    record_id: &str,
    planned: &Vec<PlannedExpandedJob>,
    existing: &Vec<Option<ExistingExpandedJob>>,
) -> (res: Result<bool, ControlPlaneError>)
    requires
        existing@.len() == planned@.len(),
    ensures
        res == existing_jobs_decision(record_id.spec_bytes(), planned@, existing@),
{
    let mut count: usize = 0;
    let mut k: usize = 0;
    while k < planned.len()
        invariant
            0 <= k <= planned@.len(),
            existing@.len() == planned@.len(),
            count == existing_count(existing@.take(k as int)),
            count <= k,
            forall|j: int|
                0 <= j < k ==> !existing_conflicts(record_id.spec_bytes(), planned@[j], #[trigger] existing@[j]),
        decreases planned@.len() - k,
    {
        proof {
            assert(existing@.take(k + 1).drop_last() =~= existing@.take(k as int));
        }
        match &existing[k] {
            Some(e) => {
                let id = expanded_job_id(record_id, planned[k].key.as_str());
                if !(e.id == id && e.attempt == 1 && e.requirements_match && opt_string_same(
                    &e.concurrency_group,
                    &planned[k].concurrency,
                )) {
                    return Err(ControlPlaneError::IdempotencyConflict);
                }
                count += 1;
            },
            None => {},
        }
        k += 1;
    }
    proof {
        assert(existing@.take(k as int) =~= existing@);
    }
    if count != 0 && count != planned.len() {
        return Err(ControlPlaneError::CorruptState(MSG_PARTIAL_MATERIALIZATION));
    }
    Ok(count != 0)
}

/// The state an expanded job starts in: blocked when the run's source trust
/// does not satisfy it, queued when everything it needs succeeded, skipped
/// when something it needs ended otherwise or is blocked, created else.
pub open spec fn expanded_initial_state(trust_satisfied: bool, deps: Seq<JobState>) -> JobState {
    if !trust_satisfied {
        JobState::BlockedPolicy
    } else if forall|k: int| 0 <= k < deps.len() ==> #[trigger] deps[k] == JobState::Succeeded {
        JobState::Queued
    } else if exists|k: int|
        0 <= k < deps.len() && ((#[trigger] deps[k] != JobState::Succeeded && job_is_terminal(deps[k]))
            || deps[k] == JobState::BlockedPolicy) {
        JobState::Skipped
    } else {
        JobState::Created
    }
}

/// The state of the run's job with the key `key`: the last row with that key
/// wins, as when the rows are collected into a map.
pub open spec fn run_job_state(jobs: Seq<JobEntry>, key: Seq<char>) -> Option<JobState>
    decreases jobs.len(),
{
    if jobs.len() == 0 {
        None
    } else if jobs.last().key@ == key {
        Some(jobs.last().state)
    } else {
        run_job_state(jobs.drop_last(), key)
    }
}

fn run_job_state_exec(jobs: &Vec<JobEntry>, key: &String) -> (res: Option<JobState>)
    ensures
        res == run_job_state(jobs@, key@),
{
    let mut i: usize = jobs.len();
    proof {
        assert(jobs@.take(i as int) =~= jobs@);
    }
    while i > 0
        invariant
            0 <= i <= jobs@.len(),
            run_job_state(jobs@, key@) == run_job_state(jobs@.take(i as int), key@),
        decreases i,
    {
        proof {
            assert(jobs@.take(i as int).drop_last() =~= jobs@.take(i - 1));
        }
        if jobs[i - 1].key == *key {
            return Some(jobs[i - 1].state);
        }
        i -= 1;
    }
    None
}

pub const MSG_DEPENDENCY_ABSENT: &'static str = "expanded job dependency is absent from its run";

/// Whether the needs of a planned job are the template's.
pub open spec fn needs_same(a: Seq<String>, b: Seq<String>) -> bool {
    a.len() == b.len() && forall|k: int| 0 <= k < a.len() ==> (#[trigger] a[k])@ == b[k]@
}

/// The initial state of one planned job, or why it cannot be inserted.
pub open spec fn expanded_job_step(p: PlannedExpandedJob, template_needs: Seq<String>, jobs: Seq<JobEntry>) -> Result<
    JobState,
    ControlPlaneError,
> {
    if !needs_same(p.needs@, template_needs) {
        Err(ControlPlaneError::IdempotencyConflict)
    } else if exists|k: int| 0 <= k < p.needs@.len() && run_job_state(jobs, (#[trigger] p.needs@[k])@) is None {
        Err(ControlPlaneError::CorruptState(MSG_DEPENDENCY_ABSENT))
    } else {
        Ok(
            expanded_initial_state(
                p.trust_satisfied,
                Seq::new(p.needs@.len(), |k: int| run_job_state(jobs, p.needs@[k]@).unwrap()),
            ),
        )
    }
}

/// A state that a need ends in other than success, or is held in by policy.
pub open spec fn need_ended_unsuccessfully(s: JobState) -> bool {
    s == JobState::Failed || s == JobState::Canceled || s == JobState::TimedOut || s == JobState::Lost || s
        == JobState::Rejected || s == JobState::Skipped || s == JobState::BlockedPolicy
}

/// The initial state of an expanded job follows its needs: with its trust
/// satisfied it starts queued exactly when every need succeeded; as soon as
/// one need ended otherwise (or is blocked by policy) it is skipped and never
/// queued; while a need is still running and none ended badly it waits,
/// created. Without its trust satisfied it is blocked by policy.
pub proof fn law_expanded_job_follows_needs(p: PlannedExpandedJob, template_needs: Seq<String>, jobs: Seq<JobEntry>)
    requires
        expanded_job_step(p, template_needs, jobs) is Ok,
    ensures
        !p.trust_satisfied ==> expanded_job_step(p, template_needs, jobs) == Ok::<JobState, ControlPlaneError>(
            JobState::BlockedPolicy,
        ),
        p.trust_satisfied ==> (expanded_job_step(p, template_needs, jobs) == Ok::<JobState, ControlPlaneError>(
            JobState::Queued,
        ) <==> forall|k: int|
            0 <= k < p.needs@.len() ==> run_job_state(jobs, (#[trigger] p.needs@[k])@) == Some(
                JobState::Succeeded,
            )),
        p.trust_satisfied && (exists|k: int|
            0 <= k < p.needs@.len() && need_ended_unsuccessfully(
                run_job_state(jobs, (#[trigger] p.needs@[k])@).unwrap(),
            )) ==> expanded_job_step(p, template_needs, jobs) == Ok::<JobState, ControlPlaneError>(
            JobState::Skipped,
        ),
{
    let deps = Seq::new(p.needs@.len(), |k: int| run_job_state(jobs, p.needs@[k]@).unwrap());
    assert forall|k: int| 0 <= k < p.needs@.len() implies run_job_state(jobs, (#[trigger] p.needs@[k])@) == Some(
        deps[k],
    ) by {
        assert(run_job_state(jobs, p.needs@[k]@) is Some);
    }
    if p.trust_satisfied {
        if exists|k: int|
            0 <= k < p.needs@.len() && need_ended_unsuccessfully(run_job_state(jobs, (#[trigger] p.needs@[k])@).unwrap()) {
            let k = choose|k: int|
                0 <= k < p.needs@.len() && need_ended_unsuccessfully(
                    run_job_state(jobs, (#[trigger] p.needs@[k])@).unwrap(),
                );
            assert(deps[k] != JobState::Succeeded);
            assert((deps[k] != JobState::Succeeded && job_is_terminal(deps[k])) || deps[k] == JobState::BlockedPolicy);
        }
    }
}

/// The first refused planned job among the first `n`, in order.
pub open spec fn first_step_error(
    planned: Seq<PlannedExpandedJob>,
    template_needs: Seq<String>,
    jobs: Seq<JobEntry>,
    n: nat,
) -> Option<ControlPlaneError>
    decreases n,
{
    if n == 0 {
        None
    } else {
        match first_step_error(planned, template_needs, jobs, (n - 1) as nat) {
            Some(e) => Some(e),
            None => match expanded_job_step(planned[n - 1], template_needs, jobs) {
                Err(e) => Some(e),
                Ok(_) => None,
            },
        }
    }
}

proof fn lemma_first_step_error_stays(
    planned: Seq<PlannedExpandedJob>,
    template_needs: Seq<String>,
    jobs: Seq<JobEntry>,
    n: nat,
    m: nat,
)
    requires
        n <= m,
        first_step_error(planned, template_needs, jobs, n) is Some,
    ensures
        first_step_error(planned, template_needs, jobs, m) == first_step_error(planned, template_needs, jobs, n),
    decreases m,
{
    if m > n {
        lemma_first_step_error_stays(planned, template_needs, jobs, n, (m - 1) as nat);
    }
}

/// The initial state of one planned job.
fn expanded_job_state(p: &PlannedExpandedJob, template_needs: &Vec<String>, jobs: &Vec<JobEntry>) -> (res:
    Result<JobState, ControlPlaneError>)
    ensures
        res == expanded_job_step(*p, template_needs@, jobs@),
{
    if !strings_same(&p.needs, template_needs) {
        return Err(ControlPlaneError::IdempotencyConflict);
    }
    let mut deps: Vec<JobState> = Vec::new();
    let mut k: usize = 0;
    while k < p.needs.len()
        invariant
            0 <= k <= p.needs@.len(),
            needs_same(p.needs@, template_needs@),
            deps@.len() == k,
            forall|j: int| 0 <= j < k ==> run_job_state(jobs@, (#[trigger] p.needs@[j])@) == Some(deps@[j]),
        decreases p.needs@.len() - k,
    {
        match run_job_state_exec(jobs, &p.needs[k]) {
            Some(s) => deps.push(s),
            None => {
                proof {
                    assert(run_job_state(jobs@, p.needs@[k as int]@) is None);
                }
                return Err(ControlPlaneError::CorruptState(MSG_DEPENDENCY_ABSENT));
            },
        }
        k += 1;
    }
    let ghost d = Seq::new(p.needs@.len(), |j: int| run_job_state(jobs@, p.needs@[j]@).unwrap());
    proof {
        assert(deps@ =~= d);
    }
    if !p.trust_satisfied {
        return Ok(JobState::BlockedPolicy);
    }
    let mut all_succeeded = true;
    let mut any_failed = false;
    let mut j: usize = 0;
    while j < deps.len()
        invariant
            0 <= j <= deps@.len(),
            all_succeeded == forall|i: int| 0 <= i < j ==> #[trigger] deps@[i] == JobState::Succeeded,
            any_failed == exists|i: int|
                0 <= i < j && ((#[trigger] deps@[i] != JobState::Succeeded && job_is_terminal(deps@[i]))
                    || deps@[i] == JobState::BlockedPolicy),
        decreases deps@.len() - j,
    {
        let s = deps[j];
        if s != JobState::Succeeded {
            all_succeeded = false;
        }
        if (s != JobState::Succeeded && s.is_terminal()) || s == JobState::BlockedPolicy {
            any_failed = true;
        }
        j += 1;
    }
    if all_succeeded {
        Ok(JobState::Queued)
    } else if any_failed {
        Ok(JobState::Skipped)
    } else {
        Ok(JobState::Created)
    }
}

/// The initial states of the planned jobs of a set that is not yet
/// materialized, in order, given the run's jobs; the first refused job
/// refuses the whole set.
pub fn plan_expanded_job_states(
    planned: &Vec<PlannedExpandedJob>,
    template_needs: &Vec<String>,
    jobs: &Vec<JobEntry>,
) -> (res: Result<Vec<JobState>, ControlPlaneError>)
    ensures
        match first_step_error(planned@, template_needs@, jobs@, planned@.len()) {
            Some(e) => res == Err::<Vec<JobState>, ControlPlaneError>(e),
            None => res matches Ok(states) && states@.len() == planned@.len() && forall|k: int|
                0 <= k < planned@.len() ==> expanded_job_step(planned@[k], template_needs@, jobs@)
                    == Ok::<JobState, ControlPlaneError>(#[trigger] states@[k]),
        },
{
    let mut states: Vec<JobState> = Vec::new();
    let mut k: usize = 0;
    while k < planned.len()
        invariant
            0 <= k <= planned@.len(),
            first_step_error(planned@, template_needs@, jobs@, k as nat) is None,
            states@.len() == k,
            forall|j: int|
                0 <= j < k ==> expanded_job_step(planned@[j], template_needs@, jobs@) == Ok::<
                    JobState,
                    ControlPlaneError,
                >(#[trigger] states@[j]),
        decreases planned@.len() - k,
    {
        match expanded_job_state(&planned[k], template_needs, jobs) {
            Ok(s) => states.push(s),
            Err(e) => {
                proof {
                    lemma_first_step_error_stays(planned@, template_needs@, jobs@, (k + 1) as nat, planned@.len());
                }
                return Err(e);
            },
        }
        k += 1;
    }
    Ok(states)
}

} // verus!
