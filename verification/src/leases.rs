//! Runner leases, source tickets and source downloads: the decisions that
//! bind a runner's request to its lease, its ticket and its reserved bytes.

use crate::digest::{digest_eq, ContentDigest};
use crate::error::ControlPlaneError;
use crate::policy::IdempotentResult;
use vstd::prelude::*;
use vstd::string::{StringExecFns, StringSliceAdditionalSpecFns};

verus! {

/// An execution lease as stored: its job and runner, its fences, its state
/// and its times (stored as signed integers).
#[derive(Debug, Clone, PartialEq, Eq)]
pub struct SourceLeaseRecord {
    pub job_id: String,
    pub runner_id: String,
    pub fencing_generation: i64,
    pub installation_fencing_epoch: i64,
    pub state: String,
    pub issued_unix_ms: i64,
    pub expires_unix_ms: i64,
    pub hard_deadline_unix_ms: i64,
}

pub const FIELD_LEASE_FENCE: &'static str = "source lease fence";

pub const MSG_NEGATIVE_LEASE_ISSUE: &'static str = "negative lease issue";

pub const MSG_NEGATIVE_LEASE_EXPIRY: &'static str = "negative lease expiry";

pub const MSG_NEGATIVE_LEASE_DEADLINE: &'static str = "negative lease deadline";

/// Whether the lease's times admit `now`: issued by then, and neither
/// expired nor past its hard deadline (each time read only when the earlier
/// ones admit `now`).
pub open spec fn lease_time_decision(l: SourceLeaseRecord, now: u64) -> Result<bool, ControlPlaneError> {
    if l.issued_unix_ms < 0 {
        Err(ControlPlaneError::CorruptState(MSG_NEGATIVE_LEASE_ISSUE))
    } else if now < l.issued_unix_ms {
        Ok(false)
    } else if l.expires_unix_ms < 0 {
        Err(ControlPlaneError::CorruptState(MSG_NEGATIVE_LEASE_EXPIRY))
    } else if now >= l.expires_unix_ms {
        Ok(false)
    } else if l.hard_deadline_unix_ms < 0 {
        Err(ControlPlaneError::CorruptState(MSG_NEGATIVE_LEASE_DEADLINE))
    } else {
        Ok(now < l.hard_deadline_unix_ms)
    }
}

/// What `validate_source_lease` decides: the lease must exist, the
/// installation must not be in safe mode, and the lease must belong to the
/// runner, carry the request's fencing generation and the installation's
/// fencing epoch, be active, and admit `now`; then it names its job.
pub open spec fn source_lease_decision(
    lease: Option<SourceLeaseRecord>,
    safe_mode: bool,
    epoch: i64,
    runner_id: Seq<char>,
    generation: u64,
    now: u64,
) -> Result<Seq<char>, ControlPlaneError> {
    match lease {
        None => Err(ControlPlaneError::RunnerBrokerBindingMismatch),
        Some(l) => if safe_mode || l.runner_id@ != runner_id {
            Err(ControlPlaneError::RunnerBrokerBindingMismatch)
        } else if generation > i64::MAX {
            Err(ControlPlaneError::IntegerRange { field: FIELD_LEASE_FENCE })
        } else if l.fencing_generation != generation || l.installation_fencing_epoch != epoch
            || l.state@ != "active"@ {
            Err(ControlPlaneError::RunnerBrokerBindingMismatch)
        } else {
            match lease_time_decision(l, now) {
                Err(e) => Err(e),
                Ok(false) => Err(ControlPlaneError::RunnerBrokerBindingMismatch),
                Ok(true) => Ok(l.job_id@),
            }
        },
    }
}

/// Checks a runner's request against its execution lease and returns the
/// leased job.
pub fn validate_source_lease(
    lease: Option<&SourceLeaseRecord>,
    safe_mode: bool,
    epoch: i64,
    runner_id: &str,
    generation: u64,
    now: u64,
) -> (res: Result<String, ControlPlaneError>)
    ensures
        match source_lease_decision(
            match lease {
                Some(l) => Some(*l),
                None => None,
            },
            safe_mode,
            epoch,
            runner_id@,
            generation,
            now,
        ) {
            Ok(job) => res matches Ok(j) && j@ == job,
            Err(e) => res == Err::<String, ControlPlaneError>(e),
        },
{
    let l = match lease {
        None => {
            return Err(ControlPlaneError::RunnerBrokerBindingMismatch);
        },
        Some(l) => l,
    };
    let runner = runner_id.to_owned();
    if safe_mode || !(l.runner_id == runner) {
        return Err(ControlPlaneError::RunnerBrokerBindingMismatch);
    }
    if generation > 0x7fff_ffff_ffff_ffffu64 {
        return Err(ControlPlaneError::IntegerRange { field: FIELD_LEASE_FENCE });
    }
    if l.fencing_generation != generation as i64 || l.installation_fencing_epoch != epoch || !(l.state
        == String::from_str("active")) {
        return Err(ControlPlaneError::RunnerBrokerBindingMismatch);
    }
    if l.issued_unix_ms < 0 {
        return Err(ControlPlaneError::CorruptState(MSG_NEGATIVE_LEASE_ISSUE));
    }
    if (now as i128) < (l.issued_unix_ms as i128) {
        return Err(ControlPlaneError::RunnerBrokerBindingMismatch);
    }
    if l.expires_unix_ms < 0 {
        return Err(ControlPlaneError::CorruptState(MSG_NEGATIVE_LEASE_EXPIRY));
    }
    if (now as i128) >= (l.expires_unix_ms as i128) {
        return Err(ControlPlaneError::RunnerBrokerBindingMismatch);
    }
    if l.hard_deadline_unix_ms < 0 {
        return Err(ControlPlaneError::CorruptState(MSG_NEGATIVE_LEASE_DEADLINE));
    }
    if (now as i128) >= (l.hard_deadline_unix_ms as i128) {
        return Err(ControlPlaneError::RunnerBrokerBindingMismatch);
    }
    Ok(l.job_id.clone())
}

/// A request to issue a runner a ticket for its job's source snapshot.
#[derive(Debug, Clone, PartialEq, Eq)]
pub struct IssueRunnerSourceTicket {
    pub id: String,
    pub tenant_id: String,
    pub runner_id: String,
    pub execution_lease_id: String,
    pub fencing_generation: u64,
    pub job_id: String,
    pub job_attempt: u32,
    pub maximum_bytes: u64,
    pub issued_unix_ms: u64,
    pub expires_unix_ms: u64,
}

/// A stored source ticket.
#[derive(Debug, Clone, PartialEq, Eq)]
pub struct RunnerSourceTicketRecord {
    pub id: String,
    pub tenant_id: String,
    pub runner_id: String,
    pub execution_lease_id: String,
    pub fencing_generation: u64,
    pub job_id: String,
    pub job_attempt: u32,
    pub source_snapshot_id: String,
    pub tree_manifest_digest: ContentDigest,
    pub maximum_bytes: u64,
    pub issued_unix_ms: u64,
    pub expires_unix_ms: u64,
}

pub const MSG_TICKET_BOUNDS: &'static str = "invalid source ticket bounds";

pub const FIELD_TICKET_ATTEMPT: &'static str = "source ticket job attempt";

pub const FIELD_TICKET_FENCE: &'static str = "source ticket fence";

pub const FIELD_TICKET_MAXIMUM: &'static str = "source ticket maximum";

pub const FIELD_TICKET_ISSUE: &'static str = "source ticket issue";

pub const FIELD_TICKET_EXPIRY: &'static str = "source ticket expiry";

/// A ticket allows some bytes, and expires after it is issued.
pub fn validate_source_ticket_bounds(r: &IssueRunnerSourceTicket) -> (res: Result<(), ControlPlaneError>)
    ensures
        res == if r.maximum_bytes == 0 || r.expires_unix_ms <= r.issued_unix_ms {
            Err(ControlPlaneError::InvalidInput(MSG_TICKET_BOUNDS))
        } else {
            Ok::<(), ControlPlaneError>(())
        },
{
    if r.maximum_bytes == 0 || r.expires_unix_ms <= r.issued_unix_ms {
        return Err(ControlPlaneError::InvalidInput(MSG_TICKET_BOUNDS));
    }
    Ok(())
}

/// The lease must be for the ticket's job.
pub fn check_ticket_job(lease_job: &String, r: &IssueRunnerSourceTicket) -> (res: Result<(), ControlPlaneError>)
    ensures
        res == if lease_job@ == r.job_id@ {
            Ok::<(), ControlPlaneError>(())
        } else {
            Err(ControlPlaneError::RunnerBrokerBindingMismatch)
        },
{
    if *lease_job == r.job_id {
        Ok(())
    } else {
        Err(ControlPlaneError::RunnerBrokerBindingMismatch)
    }
}

/// The integer ranges a ticket must fit to be stored: its attempt a signed
/// 32-bit integer, its fence, maximum and times signed 64-bit integers.
pub open spec fn ticket_ranges_check(r: IssueRunnerSourceTicket) -> Result<(), ControlPlaneError> {
    if r.job_attempt > i32::MAX {
        Err(ControlPlaneError::IntegerRange { field: FIELD_TICKET_ATTEMPT })
    } else if r.fencing_generation > i64::MAX {
        Err(ControlPlaneError::IntegerRange { field: FIELD_TICKET_FENCE })
    } else if r.maximum_bytes > i64::MAX {
        Err(ControlPlaneError::IntegerRange { field: FIELD_TICKET_MAXIMUM })
    } else if r.issued_unix_ms > i64::MAX {
        Err(ControlPlaneError::IntegerRange { field: FIELD_TICKET_ISSUE })
    } else if r.expires_unix_ms > i64::MAX {
        Err(ControlPlaneError::IntegerRange { field: FIELD_TICKET_EXPIRY })
    } else {
        Ok(())
    }
}

/// Checks that a ticket fits its stored integer types.
pub fn check_ticket_ranges(r: &IssueRunnerSourceTicket) -> (res: Result<(), ControlPlaneError>)
    ensures
        res == ticket_ranges_check(*r),
{
    if r.job_attempt > 0x7fff_ffffu32 {
        return Err(ControlPlaneError::IntegerRange { field: FIELD_TICKET_ATTEMPT });
    }
    if r.fencing_generation > 0x7fff_ffff_ffff_ffffu64 {
        return Err(ControlPlaneError::IntegerRange { field: FIELD_TICKET_FENCE });
    }
    if r.maximum_bytes > 0x7fff_ffff_ffff_ffffu64 {
        return Err(ControlPlaneError::IntegerRange { field: FIELD_TICKET_MAXIMUM });
    }
    if r.issued_unix_ms > 0x7fff_ffff_ffff_ffffu64 {
        return Err(ControlPlaneError::IntegerRange { field: FIELD_TICKET_ISSUE });
    }
    if r.expires_unix_ms > 0x7fff_ffff_ffff_ffffu64 {
        return Err(ControlPlaneError::IntegerRange { field: FIELD_TICKET_EXPIRY });
    }
    Ok(())
}

/// Whether a stored ticket is the one the request issues for the given
/// source snapshot and tree.
pub open spec fn ticket_is(t: RunnerSourceTicketRecord, r: IssueRunnerSourceTicket, snapshot: Seq<char>, tree: Seq<char>) -> bool {
    &&& t.id@ == r.id@
    &&& t.tenant_id@ == r.tenant_id@
    &&& t.runner_id@ == r.runner_id@
    &&& t.execution_lease_id@ == r.execution_lease_id@
    &&& t.fencing_generation == r.fencing_generation
    &&& t.job_id@ == r.job_id@
    &&& t.job_attempt == r.job_attempt
    &&& t.source_snapshot_id@ == snapshot
    &&& t.tree_manifest_digest@ == tree
    &&& t.maximum_bytes == r.maximum_bytes
    &&& t.issued_unix_ms == r.issued_unix_ms
    &&& t.expires_unix_ms == r.expires_unix_ms
}

/// Settles an issued ticket: the ticket stored under the request's id must
/// be the requested one; it is a replay when the insert stored nothing.
pub fn settle_issued_ticket(
    stored: RunnerSourceTicketRecord,
    r: &IssueRunnerSourceTicket,
    snapshot_id: &String,
    tree: &ContentDigest,
    inserted: bool,
) -> (res: Result<IdempotentResult<RunnerSourceTicketRecord>, ControlPlaneError>)
    ensures
        ticket_is(stored, *r, snapshot_id@, tree@) ==> (res matches Ok(v) && v.value == stored
            && v.replayed == !inserted),
        !ticket_is(stored, *r, snapshot_id@, tree@) ==> res == Err::<
            IdempotentResult<RunnerSourceTicketRecord>,
            ControlPlaneError,
        >(ControlPlaneError::IdempotencyConflict),
{
    if stored.id == r.id && stored.tenant_id == r.tenant_id && stored.runner_id == r.runner_id
        && stored.execution_lease_id == r.execution_lease_id && stored.fencing_generation
        == r.fencing_generation && stored.job_id == r.job_id && stored.job_attempt == r.job_attempt
        && stored.source_snapshot_id == *snapshot_id && digest_eq(&stored.tree_manifest_digest, tree)
        && stored.maximum_bytes == r.maximum_bytes && stored.issued_unix_ms == r.issued_unix_ms
        && stored.expires_unix_ms == r.expires_unix_ms {
        Ok(IdempotentResult { value: stored, replayed: !inserted })
    } else {
        Err(ControlPlaneError::IdempotencyConflict)
    }
}

/// A runner's download (or its completion) of a source object under a
/// ticket.
#[derive(Debug, Clone, PartialEq, Eq)]
pub struct RunnerSourceDownload {
    pub ticket_id: String,
    pub object_digest: ContentDigest,
    pub runner_id: String,
    pub execution_lease_id: String,
    pub fencing_generation: u64,
    pub job_id: String,
    pub job_attempt: u32,
    pub size_bytes: u64,
    pub recorded_unix_ms: u64,
}

/// A download needs a positive attempt and fencing generation.
pub fn validate_download_request(r: &RunnerSourceDownload) -> (res: Result<(), ControlPlaneError>)
    ensures
        res == if r.job_attempt == 0 || r.fencing_generation == 0 {
            Err(ControlPlaneError::RunnerBrokerBindingMismatch)
        } else {
            Ok::<(), ControlPlaneError>(())
        },
{
    if r.job_attempt == 0 || r.fencing_generation == 0 {
        return Err(ControlPlaneError::RunnerBrokerBindingMismatch);
    }
    Ok(())
}

/// A download is bound to its ticket: the same runner, lease, fence, job and
/// attempt, before the ticket expires, and no larger than the ticket allows.
pub open spec fn download_bound(t: RunnerSourceTicketRecord, r: RunnerSourceDownload) -> bool {
    &&& t.runner_id@ == r.runner_id@
    &&& t.execution_lease_id@ == r.execution_lease_id@
    &&& t.fencing_generation == r.fencing_generation
    &&& t.job_id@ == r.job_id@
    &&& t.job_attempt == r.job_attempt
    &&& t.expires_unix_ms > r.recorded_unix_ms
    &&& r.size_bytes <= t.maximum_bytes
}

/// Checks a download against its ticket.
pub fn check_download_ticket(t: &RunnerSourceTicketRecord, r: &RunnerSourceDownload) -> (res: Result<
    (),
    ControlPlaneError,
>)
    ensures
        res == if download_bound(*t, *r) {
            Ok::<(), ControlPlaneError>(())
        } else {
            Err(ControlPlaneError::RunnerBrokerBindingMismatch)
        },
{
    if t.runner_id == r.runner_id && t.execution_lease_id == r.execution_lease_id
        && t.fencing_generation == r.fencing_generation && t.job_id == r.job_id && t.job_attempt
        == r.job_attempt && t.expires_unix_ms > r.recorded_unix_ms && r.size_bytes <= t.maximum_bytes {
        Ok(())
    } else {
        Err(ControlPlaneError::RunnerBrokerBindingMismatch)
    }
}

/// A stored transfer of the same object under the same ticket.
#[derive(Debug, Clone, PartialEq, Eq)]
pub struct SourceTransferRecord {
    pub expected_size_bytes: i64,
    pub maximum_ticket_bytes: i64,
    pub state: String,
}

/// How a download starts.
#[derive(Debug, Clone, Copy, PartialEq, Eq, Structural)]
pub enum DownloadStart {
    /// The object is already being (or was) transferred; `verified` says
    /// whether its transfer already completed.
    Resume { verified: bool },
    /// The object's bytes are reserved against the ticket.
    Reserve,
}

pub const MSG_NEGATIVE_OBJECT_SIZE: &'static str = "negative source object size";

pub const MSG_NEGATIVE_TICKET_MAXIMUM: &'static str = "negative source ticket maximum";

pub const MSG_NEGATIVE_RESERVED: &'static str = "negative source reserved bytes";

/// How a bound download starts, given the stored transfer of its object and
/// the bytes already reserved under its ticket: a stored transfer must have
/// the download's size and the ticket's maximum; a new one must fit what the
/// ticket has left.
pub open spec fn download_start_decision(
    t: RunnerSourceTicketRecord,
    r: RunnerSourceDownload,
    existing: Option<SourceTransferRecord>,
    reserved: i64,
) -> Result<DownloadStart, ControlPlaneError> {
    match existing {
        Some(x) => if x.expected_size_bytes < 0 {
            Err(ControlPlaneError::CorruptState(MSG_NEGATIVE_OBJECT_SIZE))
        } else if x.expected_size_bytes != r.size_bytes {
            Err(ControlPlaneError::RunnerBrokerBindingMismatch)
        } else if x.maximum_ticket_bytes < 0 {
            Err(ControlPlaneError::CorruptState(MSG_NEGATIVE_TICKET_MAXIMUM))
        } else if x.maximum_ticket_bytes != t.maximum_bytes {
            Err(ControlPlaneError::RunnerBrokerBindingMismatch)
        } else {
            Ok(DownloadStart::Resume { verified: x.state@ == "verified"@ })
        },
        None => if reserved < 0 {
            Err(ControlPlaneError::CorruptState(MSG_NEGATIVE_RESERVED))
        } else if reserved + r.size_bytes > u64::MAX || reserved + r.size_bytes > t.maximum_bytes {
            Err(ControlPlaneError::RunnerBrokerBindingMismatch)
        } else {
            Ok(DownloadStart::Reserve)
        },
    }
}

/// Decides how a bound download starts.
pub fn decide_download_start(
    t: &RunnerSourceTicketRecord,
    r: &RunnerSourceDownload,
    existing: Option<&SourceTransferRecord>,
    reserved: i64,
) -> (res: Result<DownloadStart, ControlPlaneError>)
    ensures
        res == download_start_decision(
            *t,
            *r,
            match existing {
                Some(x) => Some(*x),
                None => None,
            },
            reserved,
        ),
{
    match existing {
        Some(x) => {
            if x.expected_size_bytes < 0 {
                return Err(ControlPlaneError::CorruptState(MSG_NEGATIVE_OBJECT_SIZE));
            }
            if x.expected_size_bytes as u64 != r.size_bytes {
                return Err(ControlPlaneError::RunnerBrokerBindingMismatch);
            }
            if x.maximum_ticket_bytes < 0 {
                return Err(ControlPlaneError::CorruptState(MSG_NEGATIVE_TICKET_MAXIMUM));
            }
            if x.maximum_ticket_bytes as u64 != t.maximum_bytes {
                return Err(ControlPlaneError::RunnerBrokerBindingMismatch);
            }
            Ok(DownloadStart::Resume { verified: x.state == String::from_str("verified") })
        },
        None => {
            if reserved < 0 {
                return Err(ControlPlaneError::CorruptState(MSG_NEGATIVE_RESERVED));
            }
            match (reserved as u64).checked_add(r.size_bytes) {
                None => Err(ControlPlaneError::RunnerBrokerBindingMismatch),
                Some(sum) => {
                    if sum > t.maximum_bytes {
                        Err(ControlPlaneError::RunnerBrokerBindingMismatch)
                    } else {
                        Ok(DownloadStart::Reserve)
                    }
                },
            }
        },
    }
}

} // verus!
