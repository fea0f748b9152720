//! Request validation of the run core: text fields, idempotency keys, run
//! creation requests, page requests and replay bundles.

use crate::bytes::contains_byte;
use crate::digest::{content_digest_sha256, digest_eq, sha256_text, ContentDigest};
use crate::error::{ControlPlaneError, MSG_IDEMPOTENCY_KEY, MSG_TEXT};
use crate::json::{json_object2, json_object2_bytes};
use crate::states::{run_is_terminal, run_state_name, run_state_text, JobState, RunState};
use vstd::prelude::*;
use vstd::string::StringSliceAdditionalSpecFns;

verus! {

/// Text the run core stores is non-empty, at most 4096 bytes and free of NUL.
pub open spec fn text_is_invalid(b: Seq<u8>) -> bool {
    b.len() == 0 || b.len() > 4096 || b.contains(0u8)
}

pub fn invalid_text(value: &str) -> (res: bool)
    ensures
        res == text_is_invalid(value.spec_bytes()),
{
    let b = value.as_bytes();
    b.len() == 0 || b.len() > 4096 || contains_byte(b, 0u8)
}

pub open spec fn text_check(b: Seq<u8>) -> Result<(), ControlPlaneError> {
    if text_is_invalid(b) {
        Err(ControlPlaneError::InvalidInput(MSG_TEXT))
    } else {
        Ok(())
    }
}

pub fn validate_text(value: &str) -> (res: Result<(), ControlPlaneError>)
    ensures
        res == text_check(value.spec_bytes()),
{
    if invalid_text(value) {
        Err(ControlPlaneError::InvalidInput(MSG_TEXT))
    } else {
        Ok(())
    }
}

/// An idempotency key is non-empty, at most 200 bytes and free of NUL.
pub open spec fn idempotency_key_check(b: Seq<u8>) -> Result<(), ControlPlaneError> {
    if b.len() == 0 || b.len() > 200 || b.contains(0u8) {
        Err(ControlPlaneError::InvalidInput(MSG_IDEMPOTENCY_KEY))
    } else {
        Ok(())
    }
}

pub fn validate_idempotency_key(value: &str) -> (res: Result<(), ControlPlaneError>)
    ensures
        res == idempotency_key_check(value.spec_bytes()),
{
    let b = value.as_bytes();
    if b.len() == 0 || b.len() > 200 || contains_byte(b, 0u8) {
        Err(ControlPlaneError::InvalidInput(MSG_IDEMPOTENCY_KEY))
    } else {
        Ok(())
    }
}

/// The error for a missing record of the given kind.
pub fn not_found(kind: &'static str, id: &str) -> (res: ControlPlaneError)
    ensures
        res matches ControlPlaneError::NotFound { kind: k, id: i } && k == kind && i@ == id@,
{
    ControlPlaneError::NotFound { kind, id: id.to_owned() }
}

pub const MSG_RUN_PRIORITY: &'static str = "run priority or job set is invalid";

pub const MSG_JOB_IDS: &'static str = "job ids must be unique and attempts must start at one";

/// A job of a run creation request.
#[derive(Debug, Clone, PartialEq, Eq)]
pub struct NewJob {
    pub id: String,
    pub job_key: String,
    pub attempt: u32,
}

/// A request to create a run of a stored capsule.
#[derive(Debug, Clone, PartialEq, Eq)]
pub struct CreateRunRequest {
    pub id: String,
    pub repository_id: String,
    pub capsule_id: String,
    pub priority: i32,
    pub remote: bool,
    pub created_unix_ms: u64,
    pub jobs: Vec<NewJob>,
}

pub open spec fn str_bytes(s: String) -> Seq<u8> {
    vstd::utf8::encode_utf8(s@)
}

/// The check of the job at index `k`, given the jobs before it.
pub open spec fn new_job_check(jobs: Seq<NewJob>, k: int) -> Result<(), ControlPlaneError> {
    match text_check(str_bytes(jobs[k].id)) {
        Err(e) => Err(e),
        Ok(()) => match text_check(str_bytes(jobs[k].job_key)) {
            Err(e) => Err(e),
            Ok(()) => if jobs[k].attempt == 0 || exists|j: int|
                0 <= j < k && (#[trigger] jobs[j]).id@ == jobs[k].id@ {
                Err(ControlPlaneError::InvalidInput(MSG_JOB_IDS))
            } else {
                Ok(())
            },
        },
    }
}

/// The checks of the first `n` jobs, in order; the first failure is reported.
pub open spec fn new_jobs_check(jobs: Seq<NewJob>, n: nat) -> Result<(), ControlPlaneError>
    decreases n,
{
    if n == 0 {
        Ok(())
    } else {
        match new_jobs_check(jobs, (n - 1) as nat) {
            Err(e) => Err(e),
            Ok(()) => new_job_check(jobs, n - 1),
        }
    }
}

proof fn lemma_new_jobs_check_stops(jobs: Seq<NewJob>, n: nat, m: nat)
    requires
        n < m,
        new_jobs_check(jobs, n) == Ok::<(), ControlPlaneError>(()),
        new_job_check(jobs, n as int) is Err,
    ensures
        new_jobs_check(jobs, m) == new_job_check(jobs, n as int),
    decreases m,
{
    if m > n + 1 {
        lemma_new_jobs_check_stops(jobs, n, (m - 1) as nat);
    }
}

/// What `validate_create_run` decides: text fields, a priority in
/// `-1000..=1000`, a non-empty job set, and jobs with valid text, unique ids
/// and attempts that start at one.
pub open spec fn create_run_check(r: CreateRunRequest) -> Result<(), ControlPlaneError> {
    match text_check(str_bytes(r.id)) {
        Err(e) => Err(e),
        Ok(()) => match text_check(str_bytes(r.repository_id)) {
            Err(e) => Err(e),
            Ok(()) => match text_check(str_bytes(r.capsule_id)) {
                Err(e) => Err(e),
                Ok(()) => if !(-1000 <= r.priority <= 1000) || r.jobs@.len() == 0 {
                    Err(ControlPlaneError::InvalidInput(MSG_RUN_PRIORITY))
                } else {
                    new_jobs_check(r.jobs@, r.jobs@.len())
                },
            },
        },
    }
}

/// Validates a run creation request before it touches storage.
pub fn validate_create_run(request: &CreateRunRequest) -> (res: Result<(), ControlPlaneError>)
    ensures
        res == create_run_check(*request),
{
    validate_text(request.id.as_str())?;
    validate_text(request.repository_id.as_str())?;
    validate_text(request.capsule_id.as_str())?;
    if !(-1000 <= request.priority && request.priority <= 1000) || request.jobs.len() == 0 {
        return Err(ControlPlaneError::InvalidInput(MSG_RUN_PRIORITY));
    }
    let jobs = &request.jobs;
    let mut k: usize = 0;
    while k < jobs.len()
        invariant
            0 <= k <= jobs@.len(),
            jobs == request.jobs,
            create_run_check(*request) == new_jobs_check(jobs@, jobs@.len()),
            new_jobs_check(jobs@, k as nat) == Ok::<(), ControlPlaneError>(()),
        decreases jobs@.len() - k,
    {
        proof {
            if new_job_check(jobs@, k as int) is Err {
                lemma_new_jobs_check_stops(jobs@, k as nat, jobs@.len());
            }
        }
        validate_text(jobs[k].id.as_str())?;
        validate_text(jobs[k].job_key.as_str())?;
        if jobs[k].attempt == 0 {
            return Err(ControlPlaneError::InvalidInput(MSG_JOB_IDS));
        }
        let mut j: usize = 0;
        while j < k
            invariant
                0 <= j <= k < jobs@.len(),
                jobs == request.jobs,
                create_run_check(*request) == new_jobs_check(jobs@, jobs@.len()),
                new_jobs_check(jobs@, k as nat) == Ok::<(), ControlPlaneError>(()),
                text_check(str_bytes(jobs@[k as int].id)) == Ok::<(), ControlPlaneError>(()),
                text_check(str_bytes(jobs@[k as int].job_key)) == Ok::<(), ControlPlaneError>(()),
                jobs@[k as int].attempt != 0,
                forall|i: int| 0 <= i < j ==> (#[trigger] jobs@[i]).id@ != jobs@[k as int].id@,
            decreases k - j,
        {
            if jobs[j].id == jobs[k].id {
                proof {
                    assert(new_job_check(jobs@, k as int) is Err);
                    lemma_new_jobs_check_stops(jobs@, k as nat, jobs@.len());
                }
                return Err(ControlPlaneError::InvalidInput(MSG_JOB_IDS));
            }
            j += 1;
        }
        proof {
            assert(new_job_check(jobs@, k as int) == Ok::<(), ControlPlaneError>(()));
        }
        k += 1;
    }
    Ok(())
}

pub const MSG_PAGE_LIMIT: &'static str = "page limit must be between one and one hundred";

/// What a page request of runs or approval requests must hold: a limit of
/// 1 to 100, then valid text for the optional filter and cursor.
pub open spec fn page_request_check(filter: Option<Seq<u8>>, after: Option<Seq<u8>>, limit: usize) -> Result<
    (),
    ControlPlaneError,
> {
    if limit == 0 || limit > 100 {
        Err(ControlPlaneError::InvalidInput(MSG_PAGE_LIMIT))
    } else {
        match filter {
            Some(f) if text_is_invalid(f) => Err(ControlPlaneError::InvalidInput(MSG_TEXT)),
            _ => match after {
                Some(a) if text_is_invalid(a) => Err(ControlPlaneError::InvalidInput(MSG_TEXT)),
                _ => Ok(()),
            },
        }
    }
}

pub open spec fn opt_bytes(o: Option<&str>) -> Option<Seq<u8>> {
    match o {
        Some(s) => Some(s.spec_bytes()),
        None => None,
    }
}

/// Checks a page request: the repository (or status) filter and the cursor
/// are optional.
pub fn validate_page_request(filter: Option<&str>, after: Option<&str>, limit: usize) -> (res: Result<
    (),
    ControlPlaneError,
>)
    ensures
        res == page_request_check(opt_bytes(filter), opt_bytes(after), limit),
{
    if limit == 0 || limit > 100 {
        return Err(ControlPlaneError::InvalidInput(MSG_PAGE_LIMIT));
    }
    match filter {
        Some(f) => validate_text(f)?,
        None => {},
    }
    match after {
        Some(a) => validate_text(a)?,
        None => {},
    }
    Ok(())
}

pub const MSG_SCM_RUN_JOBS: &'static str = "SCM run jobs do not match the signed capsule";

/// A job of a signed capsule, as run creation needs it: its id, whether it
/// needs other jobs, whether the run's source trust satisfies it, and whether
/// the requested job's scheduling requirements are the ones it declares.
#[derive(Debug, Clone, PartialEq, Eq)]
pub struct SignedJobFacts {
    pub id: String,
    pub has_needs: bool,
    pub trust_satisfied: bool,
    pub requirements_match: bool,
}

/// A remote (SCM) run must request exactly the capsule's jobs, in order, each
/// at attempt 1 with the capsule's requirements.
pub open spec fn remote_jobs_match(jobs: Seq<NewJob>, signed: Seq<SignedJobFacts>) -> bool {
    &&& jobs.len() == signed.len()
    &&& forall|k: int|
        0 <= k < jobs.len() ==> (#[trigger] jobs[k]).job_key@ == signed[k].id@ && jobs[k].attempt == 1
            && signed[k].requirements_match
}

/// Checks that a remote run requests exactly its signed capsule's jobs.
pub fn check_remote_run_jobs(jobs: &Vec<NewJob>, signed: &Vec<SignedJobFacts>) -> (res: Result<
    (),
    ControlPlaneError,
>)
    ensures
        res == if remote_jobs_match(jobs@, signed@) {
            Ok::<(), ControlPlaneError>(())
        } else {
            Err(ControlPlaneError::InvalidInput(MSG_SCM_RUN_JOBS))
        },
{
    if jobs.len() != signed.len() {
        return Err(ControlPlaneError::InvalidInput(MSG_SCM_RUN_JOBS));
    }
    let mut k: usize = 0;
    while k < jobs.len()
        invariant
            0 <= k <= jobs@.len(),
            jobs@.len() == signed@.len(),
            forall|j: int| 0 <= j < k ==> (#[trigger] jobs@[j]).job_key@ == signed@[j].id@,
            forall|j: int| 0 <= j < k ==> (#[trigger] jobs@[j]).attempt == 1,
            forall|j: int| 0 <= j < k ==> (#[trigger] signed@[j]).requirements_match,
        decreases jobs@.len() - k,
    {
        let same_key = jobs[k].job_key == signed[k].id;
        if !same_key || jobs[k].attempt != 1 || !signed[k].requirements_match {
            return Err(ControlPlaneError::InvalidInput(MSG_SCM_RUN_JOBS));
        }
        assert(jobs@[k as int].job_key@ == signed@[k as int].id@);
        k += 1;
    }
    Ok(())
}

/// The state a job of a new run starts in. Local runs start every job
/// created; a remote run blocks a job its source trust does not satisfy, and
/// queues a job without needs once its source is ready (no source tree to
/// wait for).
pub open spec fn run_job_initial_state(remote: bool, trust_satisfied: bool, source_pending: bool, has_needs: bool) -> JobState {
    if !remote {
        JobState::Created
    } else if !trust_satisfied {
        JobState::BlockedPolicy
    } else if !source_pending && !has_needs {
        JobState::Queued
    } else {
        JobState::Created
    }
}

/// The state a job of a new run starts in.
pub fn initial_run_job_state(remote: bool, trust_satisfied: bool, source_pending: bool, has_needs: bool) -> (res:
    JobState)
    ensures
        res == run_job_initial_state(remote, trust_satisfied, source_pending, has_needs),
{
    if !remote {
        JobState::Created
    } else if !trust_satisfied {
        JobState::BlockedPolicy
    } else if !source_pending && !has_needs {
        JobState::Queued
    } else {
        JobState::Created
    }
}

/// Whether a new job is complete when it is stored.
pub fn completed_at_creation(state: JobState) -> (res: bool)
    ensures
        res == (state == JobState::BlockedPolicy || state == JobState::Skipped),
{
    match state {
        JobState::BlockedPolicy | JobState::Skipped => true,
        _ => false,
    }
}

/// A replay bundle of a run.
#[derive(Debug, Clone, PartialEq, Eq)]
pub struct ReplayBundleRecord {
    pub id: String,
    pub run_id: String,
    pub digest: ContentDigest,
    pub canonical_bundle: Vec<u8>,
    pub created_unix_ms: u64,
    pub expires_unix_ms: u64,
}

pub const MSG_REPLAY_EXPIRY: &'static str = "replay bundle expiry must be in the future";

/// The checks of storing a replay bundle before its digest: the idempotency
/// key, the ids, and an expiry after the creation.
pub open spec fn replay_bundle_check(key: Seq<u8>, r: ReplayBundleRecord) -> Result<(), ControlPlaneError> {
    match idempotency_key_check(key) {
        Err(e) => Err(e),
        Ok(()) => match text_check(str_bytes(r.id)) {
            Err(e) => Err(e),
            Ok(()) => match text_check(str_bytes(r.run_id)) {
                Err(e) => Err(e),
                Ok(()) => if r.expires_unix_ms <= r.created_unix_ms {
                    Err(ControlPlaneError::InvalidInput(MSG_REPLAY_EXPIRY))
                } else {
                    Ok(())
                },
            },
        },
    }
}

/// Checks a replay bundle before it is stored: then its digest must be the
/// SHA-256 digest of its canonical bundle.
pub fn validate_replay_bundle(key: &str, r: &ReplayBundleRecord) -> (res: Result<(), ControlPlaneError>)
    ensures
        match replay_bundle_check(key.spec_bytes(), *r) {
            Err(e) => res == Err::<(), ControlPlaneError>(e),
            Ok(()) => if r.digest@ == sha256_text(r.canonical_bundle@) {
                res is Ok
            } else {
                res matches Err(ControlPlaneError::CapsuleDigestMismatch { expected, actual })
                    && expected == r.digest && actual@ == sha256_text(r.canonical_bundle@)
            },
        },
{
    validate_idempotency_key(key)?;
    validate_text(r.id.as_str())?;
    validate_text(r.run_id.as_str())?;
    if r.expires_unix_ms <= r.created_unix_ms {
        return Err(ControlPlaneError::InvalidInput(MSG_REPLAY_EXPIRY));
    }
    let actual = content_digest_sha256(r.canonical_bundle.as_slice());
    if !digest_eq(&actual, &r.digest) {
        return Err(ControlPlaneError::CapsuleDigestMismatch { expected: r.digest.duplicate(), actual });
    }
    Ok(())
}

/// The hash that identifies a cancellation request: the SHA-256 digest of
/// the JSON object of the run id and the reason.
pub open spec fn cancel_request_hash(run_id: Seq<char>, reason: Seq<char>) -> Seq<char> {
    sha256_text(json_object2("run_id"@, run_id, "reason"@, reason))
}

/// The digest that identifies a cancellation request.
pub fn cancel_request_digest(run_id: &str, reason: &str) -> (res: ContentDigest)
    ensures
        res@ == cancel_request_hash(run_id@, reason@),
{
    let material = json_object2_bytes("run_id", run_id, "reason", reason);
    content_digest_sha256(material.as_slice())
}

/// The request stored under an idempotency key was the same request: its
/// hash is the hash of the request now made.
pub fn check_stored_request(stored: &ContentDigest, hash: &ContentDigest) -> (res: Result<(), ControlPlaneError>)
    ensures
        res == crate::config::stored_request_check(stored@, hash@),
{
    if digest_eq(stored, hash) {
        Ok(())
    } else {
        Err(ControlPlaneError::IdempotencyConflict)
    }
}

/// What cancelling a run in the state `status` does: nothing more for a
/// canceled run (`Ok(false)`), a refusal for any other finished run, and
/// the cancellation (`Ok(true)`) otherwise.
pub open spec fn run_cancellation(status: RunState) -> Result<bool, ControlPlaneError> {
    if status == RunState::Canceled {
        Ok(false)
    } else if run_is_terminal(status) {
        Err(ControlPlaneError::InvalidTransition { entity: "run", from: run_state_text(status), to: "canceled" })
    } else {
        Ok(true)
    }
}

/// Cancelling is idempotent: any run not yet finished can be canceled, a
/// canceled run is canceled again with nothing more to do, and a run that
/// finished otherwise is refused.
pub proof fn law_run_cancel_replays(status: RunState)
    ensures
        run_cancellation(RunState::Canceled) == Ok::<bool, ControlPlaneError>(false),
        !run_is_terminal(status) ==> run_cancellation(status) == Ok::<bool, ControlPlaneError>(true),
        run_is_terminal(status) && status != RunState::Canceled ==> (run_cancellation(status) matches Err(
            ControlPlaneError::InvalidTransition { entity, to, .. },
        ) && entity == "run" && to == "canceled"),
{
}

/// Decides whether a run in the state `status` is to be canceled.
pub fn decide_run_cancel(status: RunState) -> (res: Result<bool, ControlPlaneError>)
    ensures
        res == run_cancellation(status),
{
    if status == RunState::Canceled {
        Ok(false)
    } else if status.is_terminal() {
        Err(ControlPlaneError::InvalidTransition { entity: "run", from: run_state_name(status), to: "canceled" })
    } else {
        Ok(true)
    }
}

} // verus!
