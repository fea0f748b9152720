//! SCM executions gated by approvals: planning the pending execution, the
//! identity of its pre-approved continuation task, and how a continuation
//! task resolves the pending execution it is bound to.

use crate::bytes::{push_bytes, str_is};
use crate::digest::{hex_lower, hex_string, sha256_bytes, sha256_digest};
use crate::error::ControlPlaneError;
use crate::scm::{text_eq, to_i64, ContinuationApprovalState};
use crate::states::{ApprovalKind, ApprovalStatus};
use vstd::prelude::*;
use vstd::string::{StringExecFns, StringSliceAdditionalSpecFns};

verus! {

/// Where an SCM execution that waits for approval stands.
#[derive(Debug, Clone, Copy, PartialEq, Eq, Structural)]
pub enum ScmPendingExecutionState {
    AwaitingApproval,
    ContinuationPending,
    RunCreated,
    Denied,
    Expired,
    Stale,
}

pub open spec fn pending_state_text(s: ScmPendingExecutionState) -> &'static str {
    match s {
        ScmPendingExecutionState::AwaitingApproval => "awaiting-approval",
        ScmPendingExecutionState::ContinuationPending => "continuation-pending",
        ScmPendingExecutionState::RunCreated => "run-created",
        ScmPendingExecutionState::Denied => "denied",
        ScmPendingExecutionState::Expired => "expired",
        ScmPendingExecutionState::Stale => "stale",
    }
}

/// The durable name of a pending execution state.
pub fn pending_state_name(s: ScmPendingExecutionState) -> (res: &'static str)
    ensures
        res == pending_state_text(s),
{
    match s {
        ScmPendingExecutionState::AwaitingApproval => "awaiting-approval",
        ScmPendingExecutionState::ContinuationPending => "continuation-pending",
        ScmPendingExecutionState::RunCreated => "run-created",
        ScmPendingExecutionState::Denied => "denied",
        ScmPendingExecutionState::Expired => "expired",
        ScmPendingExecutionState::Stale => "stale",
    }
}

pub open spec fn pending_state_named(b: Seq<u8>) -> Option<ScmPendingExecutionState> {
    if b == "awaiting-approval".spec_bytes() {
        Some(ScmPendingExecutionState::AwaitingApproval)
    } else if b == "continuation-pending".spec_bytes() {
        Some(ScmPendingExecutionState::ContinuationPending)
    } else if b == "run-created".spec_bytes() {
        Some(ScmPendingExecutionState::RunCreated)
    } else if b == "denied".spec_bytes() {
        Some(ScmPendingExecutionState::Denied)
    } else if b == "expired".spec_bytes() {
        Some(ScmPendingExecutionState::Expired)
    } else if b == "stale".spec_bytes() {
        Some(ScmPendingExecutionState::Stale)
    } else {
        None
    }
}

/// Reads a durable pending execution state name.
pub fn parse_pending_state(value: &str) -> (res: Result<ScmPendingExecutionState, ControlPlaneError>)
    ensures
        match pending_state_named(value.spec_bytes()) {
            Some(s) => res == Ok::<ScmPendingExecutionState, ControlPlaneError>(s),
            None => res matches Err(ControlPlaneError::UnknownState { kind, value: v }) && kind
                == "SCM pending state" && v@ == value@,
        },
{
    if str_is(value, "awaiting-approval") {
        Ok(ScmPendingExecutionState::AwaitingApproval)
    } else if str_is(value, "continuation-pending") {
        Ok(ScmPendingExecutionState::ContinuationPending)
    } else if str_is(value, "run-created") {
        Ok(ScmPendingExecutionState::RunCreated)
    } else if str_is(value, "denied") {
        Ok(ScmPendingExecutionState::Denied)
    } else if str_is(value, "expired") {
        Ok(ScmPendingExecutionState::Expired)
    } else if str_is(value, "stale") {
        Ok(ScmPendingExecutionState::Stale)
    } else {
        Err(ControlPlaneError::UnknownState { kind: "SCM pending state", value: value.to_owned() })
    }
}

/// A durable task's claim, as stored.
#[derive(Debug, Clone, PartialEq, Eq)]
pub struct DurableTaskClaim {
    pub kind: String,
    pub status: String,
    pub lease_owner: Option<String>,
    pub lease_expires_unix_ms: Option<i64>,
}

/// `now` as a database timestamp: saturated at the largest `i64`.
pub open spec fn db_time(now: u64) -> int {
    if now > i64::MAX {
        i64::MAX as int
    } else {
        now as int
    }
}

/// The task is of the expected kind, claimed, and leased to `worker` beyond
/// `now`.
pub open spec fn task_owned(t: DurableTaskClaim, worker: Seq<char>, now: u64, kind: Seq<char>) -> bool {
    &&& t.kind@ == kind
    &&& t.status@ == "claimed"@
    &&& t.lease_owner matches Some(o) && o@ == worker
    &&& t.lease_expires_unix_ms matches Some(x) && x > db_time(now)
}

/// Checks that the caller owns the task it reports on, and that the
/// installation is not in safe mode.
pub fn check_task_owner(t: &DurableTaskClaim, worker: &str, now: u64, kind: &str, safe_mode: bool) -> (res:
    Result<(), ControlPlaneError>)
    ensures
        res == if !task_owned(*t, worker@, now, kind@) {
            Err(ControlPlaneError::TaskLeaseExpired)
        } else if safe_mode {
            Err(ControlPlaneError::InstallationSafeMode)
        } else {
            Ok(())
        },
{
    let now_db: i64 = if now > 0x7fff_ffff_ffff_ffffu64 {
        0x7fff_ffff_ffff_ffffi64
    } else {
        now as i64
    };
    let live = match t.lease_expires_unix_ms {
        Some(x) => x > now_db,
        None => false,
    };
    let owner = match &t.lease_owner {
        Some(o) => text_eq(o.as_str(), worker),
        None => false,
    };
    proof {
        reveal_strlit("claimed");
    }
    if !text_eq(t.kind.as_str(), kind) || !text_eq(t.status.as_str(), "claimed") || !owner || !live {
        return Err(ControlPlaneError::TaskLeaseExpired);
    }
    if safe_mode {
        return Err(ControlPlaneError::InstallationSafeMode);
    }
    Ok(())
}

/// What a continuation task does with the pending execution it is bound to.
#[derive(Debug, Clone, PartialEq, Eq)]
pub enum ContinuationStep {
    /// The run was created already: the task completes and returns it.
    RunCreated(String),
    /// The execution is closed already: the task completes.
    Closed,
    /// Every approval is granted: the run may be created.
    Ready,
    /// An approval is still pending: the execution waits again and the task
    /// completes.
    Waiting,
    /// The execution closes in the given state, with the given error text,
    /// and the task completes.
    Close { state: ScmPendingExecutionState, last_error: Option<&'static str> },
}

pub const MSG_CONSUMED_APPROVAL: &'static str = "approval was consumed outside its exact SCM continuation";

pub const MSG_MISSING_RUN: &'static str = "completed SCM continuation is missing its run";

/// How a continuation decides, for a pending execution in the state `state`
/// (with the run `run_id` once created) whose approvals stand at `approval`.
pub open spec fn continuation_step(
    state: ScmPendingExecutionState,
    run_id: Option<String>,
    approval: ContinuationApprovalState,
    now: u64,
) -> Result<ContinuationStep, ControlPlaneError> {
    match state {
        ScmPendingExecutionState::RunCreated => match run_id {
            Some(id) => Ok(ContinuationStep::RunCreated(id)),
            None => Err(ControlPlaneError::CorruptState(MSG_MISSING_RUN)),
        },
        ScmPendingExecutionState::Denied | ScmPendingExecutionState::Expired
        | ScmPendingExecutionState::Stale => Ok(ContinuationStep::Closed),
        _ => match approval {
            ContinuationApprovalState::Ready => Ok(ContinuationStep::Ready),
            ContinuationApprovalState::Waiting => Ok(ContinuationStep::Waiting),
            _ => if now > i64::MAX {
                Err(ControlPlaneError::IntegerRange { field: "SCM continuation close" })
            } else {
                Ok(
                    match approval {
                        ContinuationApprovalState::Denied => ContinuationStep::Close {
                            state: ScmPendingExecutionState::Denied,
                            last_error: None,
                        },
                        ContinuationApprovalState::Expired => ContinuationStep::Close {
                            state: ScmPendingExecutionState::Expired,
                            last_error: None,
                        },
                        _ => ContinuationStep::Close {
                            state: ScmPendingExecutionState::Stale,
                            last_error: Some(MSG_CONSUMED_APPROVAL),
                        },
                    },
                )
            },
        },
    }
}

/// Decides what a continuation task does with its pending execution.
pub fn decide_continuation(
    state: ScmPendingExecutionState,
    run_id: &Option<String>,
    approval: ContinuationApprovalState,
    now: u64,
) -> (res: Result<ContinuationStep, ControlPlaneError>)
    ensures
        res == continuation_step(state, *run_id, approval, now),
{
    match state {
        ScmPendingExecutionState::RunCreated => match run_id {
            Some(id) => Ok(ContinuationStep::RunCreated(id.clone())),
            None => Err(ControlPlaneError::CorruptState(MSG_MISSING_RUN)),
        },
        ScmPendingExecutionState::Denied | ScmPendingExecutionState::Expired
        | ScmPendingExecutionState::Stale => Ok(ContinuationStep::Closed),
        _ => match approval {
            ContinuationApprovalState::Ready => Ok(ContinuationStep::Ready),
            ContinuationApprovalState::Waiting => Ok(ContinuationStep::Waiting),
            _ => {
                to_i64(now, "SCM continuation close")?;
                Ok(
                    match approval {
                        ContinuationApprovalState::Denied => ContinuationStep::Close {
                            state: ScmPendingExecutionState::Denied,
                            last_error: None,
                        },
                        ContinuationApprovalState::Expired => ContinuationStep::Close {
                            state: ScmPendingExecutionState::Expired,
                            last_error: None,
                        },
                        _ => ContinuationStep::Close {
                            state: ScmPendingExecutionState::Stale,
                            last_error: Some(MSG_CONSUMED_APPROVAL),
                        },
                    },
                )
            },
        },
    }
}

/// Whether closing a continuation as stale at `now` changes the pending
/// execution: only one that still waits for approval or continuation.
pub fn decide_continuation_close(state: ScmPendingExecutionState, now: u64) -> (res: Result<
    bool,
    ControlPlaneError,
>)
    ensures
        res == if decide_close_changes(state) {
            if now > i64::MAX {
                Err(ControlPlaneError::IntegerRange { field: "SCM stale close" })
            } else {
                Ok(true)
            }
        } else {
            Ok(false)
        },
{
    if state == ScmPendingExecutionState::AwaitingApproval || state
        == ScmPendingExecutionState::ContinuationPending {
        to_i64(now, "SCM stale close")?;
        Ok(true)
    } else {
        Ok(false)
    }
}

/// A closed or completed pending execution stays so: every later
/// continuation finds it closed or returns its run, whatever its approvals.
pub proof fn law_closed_continuations_stay_closed(
    state: ScmPendingExecutionState,
    run_id: Option<String>,
    approval: ContinuationApprovalState,
    now: u64,
)
    requires
        state == ScmPendingExecutionState::Denied || state == ScmPendingExecutionState::Expired
            || state == ScmPendingExecutionState::Stale,
    ensures
        continuation_step(state, run_id, approval, now) == Ok::<ContinuationStep, ControlPlaneError>(
            ContinuationStep::Closed,
        ),
        decide_close_changes(state) == false,
{
}

/// Whether closing as stale changes a pending execution in `state`.
pub open spec fn decide_close_changes(state: ScmPendingExecutionState) -> bool {
    state == ScmPendingExecutionState::AwaitingApproval || state
        == ScmPendingExecutionState::ContinuationPending
}

pub const PREAPPROVED_DOMAIN: &'static str = "runtrue.scm.preapproved.v1\0";

/// The hashed material of a pre-approved continuation: a domain tag, the
/// pending execution id, a NUL byte and the approval id.
pub open spec fn preapproved_material(pending: Seq<u8>, approval: Seq<u8>) -> Seq<u8> {
    PREAPPROVED_DOMAIN.spec_bytes() + pending + seq![0u8] + approval
}

/// The id of the continuation task of a pre-approved pending execution.
pub open spec fn preapproved_task_text(pending: Seq<u8>, approval: Seq<u8>) -> Seq<char> {
    "scm-continuation-"@ + hex_lower(sha256_digest(preapproved_material(pending, approval)))
}

/// The id of the continuation task enqueued for a pending execution whose
/// approvals were all granted when it was planned.
pub fn preapproved_continuation_task_id(pending: &str, approval: &str) -> (res: String)
    ensures
        res@ == preapproved_task_text(pending.spec_bytes(), approval.spec_bytes()),
{
    let mut material: Vec<u8> = Vec::new();
    push_bytes(&mut material, PREAPPROVED_DOMAIN.as_bytes());
    push_bytes(&mut material, pending.as_bytes());
    material.push(0u8);
    push_bytes(&mut material, approval.as_bytes());
    proof {
        assert(material@ =~= preapproved_material(pending.spec_bytes(), approval.spec_bytes()));
    }
    let hash = sha256_bytes(material.as_slice());
    let hex = hex_string(hash.as_slice());
    let mut id = String::from_str("scm-continuation-");
    id.append(hex.as_str());
    id
}

/// What the plan of a gated execution needs of each of its approvals.
#[derive(Debug, Clone, PartialEq, Eq)]
pub struct ApprovalSummary {
    pub id: String,
    pub kind: ApprovalKind,
    pub status: ApprovalStatus,
    pub expires_unix_ms: u64,
}

/// The pending execution a gated execution becomes.
#[derive(Debug, Clone, PartialEq, Eq)]
pub struct GatedExecutionPlan {
    /// The first workflow-definition approval.
    pub workflow_approval_id: Option<String>,
    /// The first privileged-execution approval.
    pub privileged_approval_id: Option<String>,
    /// The earliest expiry of its approvals.
    pub expires_unix_ms: u64,
    /// When every approval is granted already: the approval its continuation
    /// is enqueued under (the workflow one, else the privileged one).
    pub preapproved: Option<String>,
}

/// The index of the first approval of `kind`, if any.
pub fn find_kind(a: &Vec<ApprovalSummary>, kind: ApprovalKind) -> (res: Option<usize>)
    ensures
        match res {
            Some(i) => i < a@.len() && a@[i as int].kind == kind && forall|j: int|
                0 <= j < i ==> (#[trigger] a@[j]).kind != kind,
            None => forall|j: int| 0 <= j < a@.len() ==> (#[trigger] a@[j]).kind != kind,
        },
{
    let mut i: usize = 0;
    while i < a.len()
        invariant
            0 <= i <= a@.len(),
            forall|j: int| 0 <= j < i ==> (#[trigger] a@[j]).kind != kind,
        decreases a@.len() - i,
    {
        if a[i].kind == kind {
            return Some(i);
        }
        i += 1;
    }
    None
}

/// The approval `x` is the first of `kind` in `a`, by its id.
pub open spec fn is_first_of_kind(a: Seq<ApprovalSummary>, kind: ApprovalKind, x: Option<String>) -> bool {
    match x {
        Some(id) => exists|i: int|
            0 <= i < a.len() && (#[trigger] a[i]).kind == kind && a[i].id@ == id@ && forall|j: int|
                0 <= j < i ==> (#[trigger] a[j]).kind != kind,
        None => forall|j: int| 0 <= j < a.len() ==> (#[trigger] a[j]).kind != kind,
    }
}

/// Every approval is granted.
pub open spec fn all_approved(a: Seq<ApprovalSummary>) -> bool {
    forall|j: int| 0 <= j < a.len() ==> (#[trigger] a[j]).status == ApprovalStatus::Approved
}

/// Plans the pending execution of an execution gated by the approvals `a`:
/// the first approval of each kind, the earliest expiry, and, when every
/// approval is granted already, the approval its continuation runs under.
/// Refused for want of approvals when there are none, or when all are
/// granted but none is of either kind.
pub fn plan_gated_execution(a: &Vec<ApprovalSummary>) -> (res: Result<GatedExecutionPlan, ControlPlaneError>)
    ensures
        a@.len() == 0 ==> res == Err::<GatedExecutionPlan, ControlPlaneError>(
            ControlPlaneError::ApprovalRequired,
        ),
        a@.len() > 0 && all_approved(a@) && (forall|j: int|
            0 <= j < a@.len() ==> (#[trigger] a@[j]).kind != ApprovalKind::WorkflowDefinition
                && a@[j].kind != ApprovalKind::PrivilegedExecution) ==> res == Err::<
            GatedExecutionPlan,
            ControlPlaneError,
        >(ControlPlaneError::ApprovalRequired),
        res matches Ok(p) ==> {
            &&& a@.len() > 0
            &&& is_first_of_kind(a@, ApprovalKind::WorkflowDefinition, p.workflow_approval_id)
            &&& is_first_of_kind(a@, ApprovalKind::PrivilegedExecution, p.privileged_approval_id)
            &&& (exists|i: int| 0 <= i < a@.len() && (#[trigger] a@[i]).expires_unix_ms == p.expires_unix_ms)
            &&& (forall|j: int| 0 <= j < a@.len() ==> p.expires_unix_ms <= (#[trigger] a@[j]).expires_unix_ms)
            &&& all_approved(a@) ==> p.preapproved == (if p.workflow_approval_id is Some {
                p.workflow_approval_id
            } else {
                p.privileged_approval_id
            }) && p.preapproved is Some
            &&& !all_approved(a@) ==> p.preapproved is None
        },
        a@.len() > 0 && !(all_approved(a@) && (forall|j: int|
            0 <= j < a@.len() ==> (#[trigger] a@[j]).kind != ApprovalKind::WorkflowDefinition
                && a@[j].kind != ApprovalKind::PrivilegedExecution)) ==> res is Ok,
{
    let workflow = match find_kind(a, ApprovalKind::WorkflowDefinition) {
        Some(i) => Some(a[i].id.clone()),
        None => None,
    };
    let privileged = match find_kind(a, ApprovalKind::PrivilegedExecution) {
        Some(i) => Some(a[i].id.clone()),
        None => None,
    };
    if a.len() == 0 {
        return Err(ControlPlaneError::ApprovalRequired);
    }
    let mut expiry: u64 = a[0].expires_unix_ms;
    let mut all: bool = true;
    let mut i: usize = 0;
    while i < a.len()
        invariant
            0 <= i <= a@.len(),
            a@.len() > 0,
            exists|k: int| 0 <= k < a@.len() && (#[trigger] a@[k]).expires_unix_ms == expiry,
            forall|j: int| 0 <= j < i ==> expiry <= (#[trigger] a@[j]).expires_unix_ms,
            all == (forall|j: int| 0 <= j < i ==> (#[trigger] a@[j]).status == ApprovalStatus::Approved),
        decreases a@.len() - i,
    {
        if a[i].expires_unix_ms < expiry {
            expiry = a[i].expires_unix_ms;
        }
        if a[i].status != ApprovalStatus::Approved {
            all = false;
        }
        i += 1;
    }
    let preapproved = if all {
        let chosen = match &workflow {
            Some(w) => Some(w.clone()),
            None => match &privileged {
                Some(p) => Some(p.clone()),
                None => None,
            },
        };
        if chosen.is_none() {
            return Err(ControlPlaneError::ApprovalRequired);
        }
        chosen
    } else {
        None
    };
    Ok(
        GatedExecutionPlan {
            workflow_approval_id: workflow,
            privileged_approval_id: privileged,
            expires_unix_ms: expiry,
            preapproved,
        },
    )
}

/// Checks that the caller holds a live claim on the task it reports on: the
/// task is claimed by `worker`, and its lease runs past `now`.
pub fn check_task_claim(t: &DurableTaskClaim, worker: &str, now: u64) -> (res: Result<(), ControlPlaneError>)
    ensures
        res == if !(t.status@ == "claimed"@ && (t.lease_owner matches Some(o) && o@ == worker@)) {
            Err(ControlPlaneError::TaskNotOwned)
        } else if !(t.lease_expires_unix_ms matches Some(x) && x >= 0 && now < x) {
            Err(ControlPlaneError::TaskLeaseExpired)
        } else {
            Ok::<(), ControlPlaneError>(())
        },
{
    proof {
        reveal_strlit("claimed");
    }
    let owner = match &t.lease_owner {
        Some(o) => text_eq(o.as_str(), worker),
        None => false,
    };
    if !text_eq(t.status.as_str(), "claimed") || !owner {
        return Err(ControlPlaneError::TaskNotOwned);
    }
    let live = match t.lease_expires_unix_ms {
        Some(x) => x >= 0 && now < x as u64,
        None => false,
    };
    if !live {
        return Err(ControlPlaneError::TaskLeaseExpired);
    }
    Ok(())
}

} // verus!
