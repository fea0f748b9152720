//! GitHub App setup transactions: their durable status and the decision of
//! advancing one when its callback arrives.

use crate::bytes::str_is;
use crate::digest::{digest_eq, ContentDigest};
use crate::error::ControlPlaneError;
use crate::github::{reconciliation_check, validate_github_reconciliation_pg, ReconcileGitHubInstallation};
use crate::policy::IdempotentResult;
use crate::scm::{opt_text_is, text_eq, CreateGitHubSetupTransaction};
use vstd::prelude::*;
use vstd::string::{StringExecFns, StringSliceAdditionalSpecFns};

verus! {

/// The status of a GitHub App setup transaction.
#[derive(Debug, Clone, Copy, PartialEq, Eq, Structural)]
pub enum GitHubSetupStatus {
    Pending,
    Exchanging,
    Completed,
    Rejected,
    Expired,
}

pub open spec fn setup_status_text(s: GitHubSetupStatus) -> &'static str {
    match s {
        GitHubSetupStatus::Pending => "pending",
        GitHubSetupStatus::Exchanging => "exchanging",
        GitHubSetupStatus::Completed => "completed",
        GitHubSetupStatus::Rejected => "rejected",
        GitHubSetupStatus::Expired => "expired",
    }
}

/// The durable name of a setup status.
pub fn setup_status_name(s: GitHubSetupStatus) -> (res: &'static str)
    ensures
        res == setup_status_text(s),
{
    match s {
        GitHubSetupStatus::Pending => "pending",
        GitHubSetupStatus::Exchanging => "exchanging",
        GitHubSetupStatus::Completed => "completed",
        GitHubSetupStatus::Rejected => "rejected",
        GitHubSetupStatus::Expired => "expired",
    }
}

pub const MSG_UNKNOWN_SETUP_STATUS: &'static str = "unknown GitHub setup status";

pub open spec fn setup_status_named(b: Seq<u8>) -> Option<GitHubSetupStatus> {
    if b == "pending".spec_bytes() {
        Some(GitHubSetupStatus::Pending)
    } else if b == "exchanging".spec_bytes() {
        Some(GitHubSetupStatus::Exchanging)
    } else if b == "completed".spec_bytes() {
        Some(GitHubSetupStatus::Completed)
    } else if b == "rejected".spec_bytes() {
        Some(GitHubSetupStatus::Rejected)
    } else if b == "expired".spec_bytes() {
        Some(GitHubSetupStatus::Expired)
    } else {
        None
    }
}

/// Reads a durable setup status name.
pub fn parse_setup_status(value: &str) -> (res: Result<GitHubSetupStatus, ControlPlaneError>)
    ensures
        match setup_status_named(value.spec_bytes()) {
            Some(s) => res == Ok::<GitHubSetupStatus, ControlPlaneError>(s),
            None => res == Err::<GitHubSetupStatus, ControlPlaneError>(
                ControlPlaneError::CorruptState(MSG_UNKNOWN_SETUP_STATUS),
            ),
        },
{
    if str_is(value, "pending") {
        Ok(GitHubSetupStatus::Pending)
    } else if str_is(value, "exchanging") {
        Ok(GitHubSetupStatus::Exchanging)
    } else if str_is(value, "completed") {
        Ok(GitHubSetupStatus::Completed)
    } else if str_is(value, "rejected") {
        Ok(GitHubSetupStatus::Rejected)
    } else if str_is(value, "expired") {
        Ok(GitHubSetupStatus::Expired)
    } else {
        Err(ControlPlaneError::CorruptState(MSG_UNKNOWN_SETUP_STATUS))
    }
}

/// What advancing a setup transaction does.
#[derive(Debug, Clone, Copy, PartialEq, Eq, Structural)]
pub enum SetupAdvance {
    /// The transaction is not advanced: it is settled, or the callback is
    /// older than its last update.
    Unchanged,
    /// The transaction expired: it is marked expired.
    Expire,
    /// The transaction used up its exchange attempts: it is rejected.
    Reject,
    /// The transaction enters (or stays in) the exchange, with one more
    /// attempt; `replayed` when it was already exchanging.
    Exchange { replayed: bool },
}

/// At most this many code exchanges are attempted per setup.
pub const MAX_SETUP_ATTEMPTS: u32 = 8;

/// How a setup transaction advances at `now`.
pub open spec fn setup_advance(status: GitHubSetupStatus, updated: u64, expires: u64, attempts: u32, now: u64) -> SetupAdvance {
    if now < updated || !(status == GitHubSetupStatus::Pending || status == GitHubSetupStatus::Exchanging) {
        SetupAdvance::Unchanged
    } else if now >= expires {
        SetupAdvance::Expire
    } else if attempts >= MAX_SETUP_ATTEMPTS {
        SetupAdvance::Reject
    } else {
        SetupAdvance::Exchange { replayed: status == GitHubSetupStatus::Exchanging }
    }
}

/// Decides how a setup transaction advances at `now`. An exchange happens
/// only before expiry and below the attempt limit.
pub fn decide_setup_advance(status: GitHubSetupStatus, updated: u64, expires: u64, attempts: u32, now: u64) -> (res:
    SetupAdvance)
    ensures
        res == setup_advance(status, updated, expires, attempts, now),
        res is Exchange ==> now < expires && attempts < MAX_SETUP_ATTEMPTS && updated <= now,
{
    if now < updated || !(status == GitHubSetupStatus::Pending || status == GitHubSetupStatus::Exchanging) {
        SetupAdvance::Unchanged
    } else if now >= expires {
        SetupAdvance::Expire
    } else if attempts >= MAX_SETUP_ATTEMPTS {
        SetupAdvance::Reject
    } else {
        SetupAdvance::Exchange { replayed: status == GitHubSetupStatus::Exchanging }
    }
}

/// Each exchange counts an attempt, so from any state at most
/// `MAX_SETUP_ATTEMPTS` exchanges happen, whatever the times.
pub proof fn law_setup_exchanges_are_bounded(
    status: GitHubSetupStatus,
    updated: u64,
    expires: u64,
    attempts: u32,
    now: u64,
)
    ensures
        setup_advance(status, updated, expires, attempts, now) is Exchange ==> attempts
            < MAX_SETUP_ATTEMPTS,
        attempts >= MAX_SETUP_ATTEMPTS ==> !(setup_advance(
            status,
            updated,
            expires,
            attempts,
            now,
        ) is Exchange),
        !(status == GitHubSetupStatus::Pending || status == GitHubSetupStatus::Exchanging)
            ==> setup_advance(status, updated, expires, attempts, now) == SetupAdvance::Unchanged,
{
}

/// A GitHub App setup transaction, as stored.
#[derive(Debug, Clone, PartialEq, Eq)]
pub struct GitHubSetupTransactionRecord {
    pub id: String,
    pub tenant_id: String,
    pub principal_id: String,
    pub idempotency_key: String,
    pub request_digest: ContentDigest,
    pub state_digest: ContentDigest,
    pub github_web_origin: String,
    pub github_api_origin: String,
    pub return_path: String,
    pub status: GitHubSetupStatus,
    pub attempts: u32,
    pub expires_unix_ms: u64,
    pub installation_id: Option<String>,
    pub installation_external_id: Option<String>,
    pub completion_digest: Option<ContentDigest>,
    pub last_error_code: Option<String>,
    pub created_unix_ms: u64,
    pub updated_unix_ms: u64,
    pub completed_unix_ms: Option<u64>,
}

/// The transaction a setup request creates: pending, never attempted.
pub open spec fn created_setup(r: CreateGitHubSetupTransaction) -> GitHubSetupTransactionRecord {
    GitHubSetupTransactionRecord {
        id: r.id,
        tenant_id: r.tenant_id,
        principal_id: r.principal_id,
        idempotency_key: r.idempotency_key,
        request_digest: r.request_digest,
        state_digest: r.state_digest,
        github_web_origin: r.github_web_origin,
        github_api_origin: r.github_api_origin,
        return_path: r.return_path,
        status: GitHubSetupStatus::Pending,
        attempts: 0,
        expires_unix_ms: r.expires_unix_ms,
        installation_id: None,
        installation_external_id: None,
        completion_digest: None,
        last_error_code: None,
        created_unix_ms: r.created_unix_ms,
        updated_unix_ms: r.created_unix_ms,
        completed_unix_ms: None,
    }
}

/// The stored transaction `x` answers the same setup request as `r`.
pub open spec fn setup_request_matches(x: GitHubSetupTransactionRecord, r: CreateGitHubSetupTransaction) -> bool {
    &&& x.request_digest@ == r.request_digest@
    &&& x.principal_id@ == r.principal_id@
    &&& x.github_web_origin@ == r.github_web_origin@
    &&& x.github_api_origin@ == r.github_api_origin@
}

/// The outcome of a setup request when `existing` is the transaction stored
/// under its idempotency key.
pub open spec fn setup_creation_outcome(
    existing: Option<GitHubSetupTransactionRecord>,
    r: CreateGitHubSetupTransaction,
) -> Result<IdempotentResult<GitHubSetupTransactionRecord>, ControlPlaneError> {
    match existing {
        None => Ok(IdempotentResult { value: created_setup(r), replayed: false }),
        Some(x) => if setup_request_matches(x, r) {
            Ok(IdempotentResult { value: x, replayed: true })
        } else {
            Err(ControlPlaneError::IdempotencyConflict)
        },
    }
}

/// Creates a setup transaction, or replays the one stored under the same
/// idempotency key for the same request.
pub fn create_setup_transaction(
    existing: Option<GitHubSetupTransactionRecord>,
    r: &CreateGitHubSetupTransaction,
) -> (res: Result<IdempotentResult<GitHubSetupTransactionRecord>, ControlPlaneError>)
    ensures
        res == setup_creation_outcome(existing, *r),
{
    match existing {
        Some(x) => {
            if digest_eq(&x.request_digest, &r.request_digest) && text_eq(
                x.principal_id.as_str(),
                r.principal_id.as_str(),
            ) && text_eq(x.github_web_origin.as_str(), r.github_web_origin.as_str()) && text_eq(
                x.github_api_origin.as_str(),
                r.github_api_origin.as_str(),
            ) {
                Ok(IdempotentResult { value: x, replayed: true })
            } else {
                Err(ControlPlaneError::IdempotencyConflict)
            }
        },
        None => {
            let value = GitHubSetupTransactionRecord {
                id: r.id.clone(),
                tenant_id: r.tenant_id.clone(),
                principal_id: r.principal_id.clone(),
                idempotency_key: r.idempotency_key.clone(),
                request_digest: r.request_digest.duplicate(),
                state_digest: r.state_digest.duplicate(),
                github_web_origin: r.github_web_origin.clone(),
                github_api_origin: r.github_api_origin.clone(),
                return_path: r.return_path.clone(),
                status: GitHubSetupStatus::Pending,
                attempts: 0,
                expires_unix_ms: r.expires_unix_ms,
                installation_id: None,
                installation_external_id: None,
                completion_digest: None,
                last_error_code: None,
                created_unix_ms: r.created_unix_ms,
                updated_unix_ms: r.created_unix_ms,
                completed_unix_ms: None,
            };
            Ok(IdempotentResult { value, replayed: false })
        },
    }
}

/// The error code recorded when a setup expires.
pub const SETUP_EXPIRED_CODE: &'static str = "expired";

/// The error code recorded when a setup runs out of exchange attempts.
pub const SETUP_ATTEMPT_LIMIT_CODE: &'static str = "attempt-limit";

/// What advancing a stored setup transaction writes and answers.
#[derive(Debug, Clone, PartialEq, Eq)]
pub enum SetupStep {
    /// Nothing is written and the caller is refused.
    Unchanged,
    /// The transaction is written back expired, and the caller refused.
    Expired(GitHubSetupTransactionRecord),
    /// The transaction is written back rejected, and the caller refused.
    Rejected(GitHubSetupTransactionRecord),
    /// The transaction is written back exchanging, and returned.
    Exchanging(IdempotentResult<GitHubSetupTransactionRecord>),
}

/// `x` is `d` closed at `now` with the status `status` and the error code `code`.
pub open spec fn closed_setup(
    x: GitHubSetupTransactionRecord,
    d: GitHubSetupTransactionRecord,
    status: GitHubSetupStatus,
    code: &'static str,
    now: u64,
) -> bool {
    &&& x == GitHubSetupTransactionRecord {
        status,
        updated_unix_ms: now,
        last_error_code: x.last_error_code,
        ..d
    }
    &&& x.last_error_code matches Some(c) && c@ == code@
}

/// The transaction `d` entering (or staying in) the exchange at `now`.
pub open spec fn exchanging_setup(d: GitHubSetupTransactionRecord, now: u64) -> GitHubSetupTransactionRecord {
    GitHubSetupTransactionRecord {
        status: GitHubSetupStatus::Exchanging,
        attempts: (d.attempts + 1) as u32,
        updated_unix_ms: now,
        ..d
    }
}

/// Advances a stored setup transaction at `now`, as `setup_advance` decides.
pub fn advance_setup(d: GitHubSetupTransactionRecord, now: u64) -> (res: SetupStep)
    ensures
        match setup_advance(d.status, d.updated_unix_ms, d.expires_unix_ms, d.attempts, now) {
            SetupAdvance::Unchanged => res == SetupStep::Unchanged,
            SetupAdvance::Expire => res matches SetupStep::Expired(x) && closed_setup(
                x,
                d,
                GitHubSetupStatus::Expired,
                SETUP_EXPIRED_CODE,
                now,
            ),
            SetupAdvance::Reject => res matches SetupStep::Rejected(x) && closed_setup(
                x,
                d,
                GitHubSetupStatus::Rejected,
                SETUP_ATTEMPT_LIMIT_CODE,
                now,
            ),
            SetupAdvance::Exchange { replayed } => res == SetupStep::Exchanging(
                IdempotentResult { value: exchanging_setup(d, now), replayed },
            ),
        },
{
    match decide_setup_advance(d.status, d.updated_unix_ms, d.expires_unix_ms, d.attempts, now) {
        SetupAdvance::Unchanged => SetupStep::Unchanged,
        SetupAdvance::Expire => SetupStep::Expired(
            GitHubSetupTransactionRecord {
                status: GitHubSetupStatus::Expired,
                updated_unix_ms: now,
                last_error_code: Some(String::from_str(SETUP_EXPIRED_CODE)),
                ..d
            },
        ),
        SetupAdvance::Reject => SetupStep::Rejected(
            GitHubSetupTransactionRecord {
                status: GitHubSetupStatus::Rejected,
                updated_unix_ms: now,
                last_error_code: Some(String::from_str(SETUP_ATTEMPT_LIMIT_CODE)),
                ..d
            },
        ),
        SetupAdvance::Exchange { replayed } => SetupStep::Exchanging(
            IdempotentResult {
                value: GitHubSetupTransactionRecord {
                    status: GitHubSetupStatus::Exchanging,
                    attempts: d.attempts + 1,
                    updated_unix_ms: now,
                    ..d
                },
                replayed,
            },
        ),
    }
}

/// How rejecting the transaction `d` with the error code `code` at `now`
/// decides: a rejection replays when the code is the same; otherwise only
/// an open transaction not updated after `now` can be rejected.
pub enum SetupRejection {
    Replay,
    Conflict,
    Refused,
    Reject,
}

pub open spec fn setup_rejection(d: GitHubSetupTransactionRecord, code: Seq<char>, now: u64) -> SetupRejection {
    if d.status == GitHubSetupStatus::Rejected {
        if d.last_error_code matches Some(c) && c@ == code {
            SetupRejection::Replay
        } else {
            SetupRejection::Conflict
        }
    } else if !(d.status == GitHubSetupStatus::Pending || d.status == GitHubSetupStatus::Exchanging)
        || now < d.updated_unix_ms {
        SetupRejection::Refused
    } else {
        SetupRejection::Reject
    }
}

/// Rejects a setup transaction with the error code GitHub reported.
pub fn reject_setup(d: GitHubSetupTransactionRecord, code: &str, now: u64) -> (res: Result<
    IdempotentResult<GitHubSetupTransactionRecord>,
    ControlPlaneError,
>)
    ensures
        match setup_rejection(d, code@, now) {
            SetupRejection::Replay => res == Ok::<
                IdempotentResult<GitHubSetupTransactionRecord>,
                ControlPlaneError,
            >(IdempotentResult { value: d, replayed: true }),
            SetupRejection::Conflict => res == Err::<
                IdempotentResult<GitHubSetupTransactionRecord>,
                ControlPlaneError,
            >(ControlPlaneError::IdempotencyConflict),
            SetupRejection::Refused => res == Err::<
                IdempotentResult<GitHubSetupTransactionRecord>,
                ControlPlaneError,
            >(ControlPlaneError::InvalidGitHubSetupState),
            SetupRejection::Reject => res matches Ok(v) && !v.replayed && v.value
                == GitHubSetupTransactionRecord {
                status: GitHubSetupStatus::Rejected,
                updated_unix_ms: now,
                last_error_code: v.value.last_error_code,
                ..d
            } && (v.value.last_error_code matches Some(c) && c@ == code@),
        },
{
    if d.status == GitHubSetupStatus::Rejected {
        if opt_text_is(&d.last_error_code, code) {
            return Ok(IdempotentResult { value: d, replayed: true });
        }
        return Err(ControlPlaneError::IdempotencyConflict);
    }
    if !(d.status == GitHubSetupStatus::Pending || d.status == GitHubSetupStatus::Exchanging) || now
        < d.updated_unix_ms {
        return Err(ControlPlaneError::InvalidGitHubSetupState);
    }
    let value = GitHubSetupTransactionRecord {
        status: GitHubSetupStatus::Rejected,
        updated_unix_ms: now,
        last_error_code: Some(String::from_str(code)),
        ..d
    };
    Ok(IdempotentResult { value, replayed: false })
}

/// A setup callback that completed the installation's reconciliation.
#[derive(Debug, Clone, PartialEq, Eq)]
pub struct CompleteGitHubSetupTransaction {
    pub tenant_id: String,
    pub principal_id: String,
    pub transaction_id: String,
    pub state_digest: ContentDigest,
    pub reconciliation: ReconcileGitHubInstallation,
    pub now_unix_ms: u64,
}

pub const MSG_SETUP_TIMESTAMPS: &'static str = "GitHub setup completion timestamps differ";

/// A completion carries one timestamp, and a valid reconciliation.
pub open spec fn setup_completion_check(r: CompleteGitHubSetupTransaction) -> Result<(), ControlPlaneError> {
    if r.now_unix_ms != r.reconciliation.now_unix_ms {
        Err(ControlPlaneError::InvalidInput(MSG_SETUP_TIMESTAMPS))
    } else {
        reconciliation_check(r.reconciliation)
    }
}

/// Validates a setup completion before anything is read.
pub fn validate_setup_completion(r: &CompleteGitHubSetupTransaction) -> (res: Result<(), ControlPlaneError>)
    ensures
        res == setup_completion_check(*r),
{
    if r.now_unix_ms != r.reconciliation.now_unix_ms {
        return Err(ControlPlaneError::InvalidInput(MSG_SETUP_TIMESTAMPS));
    }
    validate_github_reconciliation_pg(&r.reconciliation)
}

/// The completed transaction `d` recorded exactly this completion.
pub open spec fn setup_completion_matches(
    d: GitHubSetupTransactionRecord,
    r: CompleteGitHubSetupTransaction,
    completion: ContentDigest,
) -> bool {
    let i = r.reconciliation.installation;
    &&& d.installation_id matches Some(x) && x@ == i.installation.id@
    &&& d.installation_external_id matches Some(x) && x@ == i.installation.external_id@
    &&& d.github_web_origin@ == i.web_origin@
    &&& d.github_api_origin@ == i.api_origin@
    &&& d.completion_digest matches Some(x) && x@ == completion@
}

/// Whether the exchanging transaction `d` can complete with `r`: before its
/// expiry, not before its last update, for its own tenant and origins.
pub open spec fn setup_completable(d: GitHubSetupTransactionRecord, r: CompleteGitHubSetupTransaction) -> bool {
    let i = r.reconciliation.installation;
    &&& d.status == GitHubSetupStatus::Exchanging
    &&& r.now_unix_ms < d.expires_unix_ms
    &&& d.updated_unix_ms <= r.now_unix_ms
    &&& i.installation.tenant_id@ == d.tenant_id@
    &&& d.github_web_origin@ == i.web_origin@
    &&& d.github_api_origin@ == i.api_origin@
}

/// The transaction `d` completed by `r` with the reconciliation digest
/// `completion`.
pub open spec fn completed_setup(
    d: GitHubSetupTransactionRecord,
    r: CompleteGitHubSetupTransaction,
    completion: ContentDigest,
) -> GitHubSetupTransactionRecord {
    let i = r.reconciliation.installation.installation;
    GitHubSetupTransactionRecord {
        status: GitHubSetupStatus::Completed,
        installation_id: Some(i.id),
        installation_external_id: Some(i.external_id),
        completion_digest: Some(completion),
        updated_unix_ms: r.now_unix_ms,
        completed_unix_ms: Some(r.now_unix_ms),
        ..d
    }
}

/// The outcome of completing `d` with `r`, whose reconciliation has the
/// digest `completion`.
pub open spec fn setup_completion_outcome(
    d: GitHubSetupTransactionRecord,
    r: CompleteGitHubSetupTransaction,
    completion: ContentDigest,
) -> Result<IdempotentResult<GitHubSetupTransactionRecord>, ControlPlaneError> {
    if d.status == GitHubSetupStatus::Completed {
        if setup_completion_matches(d, r, completion) {
            Ok(IdempotentResult { value: d, replayed: true })
        } else {
            Err(ControlPlaneError::IdempotencyConflict)
        }
    } else if setup_completable(d, r) {
        Ok(IdempotentResult { value: completed_setup(d, r, completion), replayed: false })
    } else {
        Err(ControlPlaneError::InvalidGitHubSetupState)
    }
}

/// Completes an exchanging setup transaction with the installation its
/// callback reconciled, or replays the identical completion.
pub fn complete_setup(
    d: GitHubSetupTransactionRecord,
    r: &CompleteGitHubSetupTransaction,
    completion: &ContentDigest,
) -> (res: Result<IdempotentResult<GitHubSetupTransactionRecord>, ControlPlaneError>)
    ensures
        res == setup_completion_outcome(d, *r, *completion),
{
    let i = &r.reconciliation.installation;
    let same_origins = text_eq(d.github_web_origin.as_str(), i.web_origin.as_str()) && text_eq(
        d.github_api_origin.as_str(),
        i.api_origin.as_str(),
    );
    if d.status == GitHubSetupStatus::Completed {
        let same_completion = match &d.completion_digest {
            Some(x) => digest_eq(x, completion),
            None => false,
        };
        if opt_text_is(&d.installation_id, i.installation.id.as_str()) && opt_text_is(
            &d.installation_external_id,
            i.installation.external_id.as_str(),
        ) && same_origins && same_completion {
            return Ok(IdempotentResult { value: d, replayed: true });
        }
        return Err(ControlPlaneError::IdempotencyConflict);
    }
    if d.status != GitHubSetupStatus::Exchanging || r.now_unix_ms >= d.expires_unix_ms
        || r.now_unix_ms < d.updated_unix_ms || !text_eq(
        i.installation.tenant_id.as_str(),
        d.tenant_id.as_str(),
    ) || !same_origins {
        return Err(ControlPlaneError::InvalidGitHubSetupState);
    }
    let value = GitHubSetupTransactionRecord {
        status: GitHubSetupStatus::Completed,
        installation_id: Some(i.installation.id.clone()),
        installation_external_id: Some(i.installation.external_id.clone()),
        completion_digest: Some(completion.duplicate()),
        updated_unix_ms: r.now_unix_ms,
        completed_unix_ms: Some(r.now_unix_ms),
        ..d
    };
    Ok(IdempotentResult { value, replayed: false })
}

/// Repeating a setup step changes nothing: an identical creation, rejection
/// or completion after the first replays the stored transaction.
pub proof fn law_setup_steps_replay(
    existing: Option<GitHubSetupTransactionRecord>,
    create: CreateGitHubSetupTransaction,
    d: GitHubSetupTransactionRecord,
    complete: CompleteGitHubSetupTransaction,
    completion: ContentDigest,
)
    ensures
        setup_creation_outcome(existing, create) matches Ok(v) ==> setup_creation_outcome(
            Some(v.value),
            create,
        ) == Ok::<IdempotentResult<GitHubSetupTransactionRecord>, ControlPlaneError>(
            IdempotentResult { value: v.value, replayed: true },
        ),
        setup_completion_outcome(d, complete, completion) matches Ok(v)
            ==> setup_completion_outcome(v.value, complete, completion) == Ok::<
            IdempotentResult<GitHubSetupTransactionRecord>,
            ControlPlaneError,
        >(IdempotentResult { value: v.value, replayed: true }),
{
}

/// A rejection is final and repeats as a replay: once rejected with a code,
/// the same code replays at any time, another code conflicts, and the
/// transaction never exchanges again.
pub proof fn law_setup_rejection_is_final(d: GitHubSetupTransactionRecord, code: Seq<char>, other: Seq<char>, now: u64, later: u64)
    requires
        d.status == GitHubSetupStatus::Rejected,
        d.last_error_code matches Some(c) && c@ == code,
        other != code,
    ensures
        setup_rejection(d, code, later) == SetupRejection::Replay,
        setup_rejection(d, other, later) == SetupRejection::Conflict,
        setup_advance(d.status, d.updated_unix_ms, d.expires_unix_ms, d.attempts, later)
            == SetupAdvance::Unchanged,
{
}

/// The principal that bootstraps an installation: it may run a setup
/// without an active user or token of the tenant.
pub const BOOTSTRAP_PRINCIPAL: &'static str = "bootstrap";

/// Whether a setup by `principal` needs an active user or token of the
/// tenant: every principal but the bootstrap one does.
pub fn setup_principal_needs_lookup(principal: &str) -> (res: bool)
    ensures
        res == (principal@ != BOOTSTRAP_PRINCIPAL@),
{
    !text_eq(principal, BOOTSTRAP_PRINCIPAL)
}

} // verus!
