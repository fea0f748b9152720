//! Run, job and approval states, and their durable names.

use crate::bytes::str_is;
use crate::error::ControlPlaneError;
use vstd::prelude::*;
use vstd::string::StringSliceAdditionalSpecFns;

verus! {

/// The lifecycle state of a run.
#[derive(Debug, Clone, Copy, PartialEq, Eq, Structural)]
pub enum RunState {
    Created,
    Running,
    Succeeded,
    Failed,
    Canceled,
}

/// The lifecycle state of a job.
#[derive(Debug, Clone, Copy, PartialEq, Eq, Structural)]
pub enum JobState {
    Created,
    BlockedPolicy,
    AwaitingApproval,
    Queued,
    Leased,
    Preparing,
    Running,
    Finalizing,
    Succeeded,
    Failed,
    Canceled,
    TimedOut,
    Lost,
    Rejected,
    Skipped,
}

/// The state of an approval request.
#[derive(Debug, Clone, Copy, PartialEq, Eq, Structural)]
pub enum ApprovalStatus {
    Pending,
    Approved,
    Denied,
    Expired,
    Consumed,
}

/// What an approval request asks permission for.
#[derive(Debug, Clone, Copy, PartialEq, Eq, Structural)]
pub enum ApprovalKind {
    WorkflowDefinition,
    PrivilegedExecution,
    EnvironmentDeployment,
    ArtifactPromotion,
    BreakGlass,
}

/// A run is over once it succeeded, failed or was canceled.
pub open spec fn run_is_terminal(state: RunState) -> bool {
    state == RunState::Succeeded || state == RunState::Failed || state == RunState::Canceled
}

/// A job is over once it succeeded, failed, was canceled, timed out, was
/// lost, rejected or skipped.
pub open spec fn job_is_terminal(state: JobState) -> bool {
    match state {
        JobState::Succeeded | JobState::Failed | JobState::Canceled | JobState::TimedOut
        | JobState::Lost | JobState::Rejected | JobState::Skipped => true,
        _ => false,
    }
}

impl RunState {
    pub fn is_terminal(&self) -> (res: bool)
        ensures
            res == run_is_terminal(*self),
    {
        match self {
            RunState::Succeeded | RunState::Failed | RunState::Canceled => true,
            _ => false,
        }
    }
}

impl JobState {
    pub fn is_terminal(&self) -> (res: bool)
        ensures
            res == job_is_terminal(*self),
    {
        match self {
            JobState::Succeeded | JobState::Failed | JobState::Canceled | JobState::TimedOut
            | JobState::Lost | JobState::Rejected | JobState::Skipped => true,
            _ => false,
        }
    }
}

pub open spec fn run_state_text(state: RunState) -> &'static str {
    match state {
        RunState::Created => "created",
        RunState::Running => "running",
        RunState::Succeeded => "succeeded",
        RunState::Failed => "failed",
        RunState::Canceled => "canceled",
    }
}

/// The durable name of a run state.
pub fn run_state_name(state: RunState) -> (res: &'static str)
    ensures
        res == run_state_text(state),
{
    match state {
        RunState::Created => "created",
        RunState::Running => "running",
        RunState::Succeeded => "succeeded",
        RunState::Failed => "failed",
        RunState::Canceled => "canceled",
    }
}

pub open spec fn job_state_text(state: JobState) -> &'static str {
    match state {
        JobState::Created => "created",
        JobState::BlockedPolicy => "blocked_policy",
        JobState::AwaitingApproval => "awaiting_approval",
        JobState::Queued => "queued",
        JobState::Leased => "leased",
        JobState::Preparing => "preparing",
        JobState::Running => "running",
        JobState::Finalizing => "finalizing",
        JobState::Succeeded => "succeeded",
        JobState::Failed => "failed",
        JobState::Canceled => "canceled",
        JobState::TimedOut => "timed_out",
        JobState::Lost => "lost",
        JobState::Rejected => "rejected",
        JobState::Skipped => "skipped",
    }
}

/// The durable name of a job state.
pub fn job_state_name(state: JobState) -> (res: &'static str)
    ensures
        res == job_state_text(state),
{
    match state {
        JobState::Created => "created",
        JobState::BlockedPolicy => "blocked_policy",
        JobState::AwaitingApproval => "awaiting_approval",
        JobState::Queued => "queued",
        JobState::Leased => "leased",
        JobState::Preparing => "preparing",
        JobState::Running => "running",
        JobState::Finalizing => "finalizing",
        JobState::Succeeded => "succeeded",
        JobState::Failed => "failed",
        JobState::Canceled => "canceled",
        JobState::TimedOut => "timed_out",
        JobState::Lost => "lost",
        JobState::Rejected => "rejected",
        JobState::Skipped => "skipped",
    }
}

pub open spec fn approval_status_text(status: ApprovalStatus) -> &'static str {
    match status {
        ApprovalStatus::Pending => "pending",
        ApprovalStatus::Approved => "approved",
        ApprovalStatus::Denied => "denied",
        ApprovalStatus::Expired => "expired",
        ApprovalStatus::Consumed => "consumed",
    }
}

/// The durable name of an approval status.
pub fn approval_status_name(status: ApprovalStatus) -> (res: &'static str)
    ensures
        res == approval_status_text(status),
{
    match status {
        ApprovalStatus::Pending => "pending",
        ApprovalStatus::Approved => "approved",
        ApprovalStatus::Denied => "denied",
        ApprovalStatus::Expired => "expired",
        ApprovalStatus::Consumed => "consumed",
    }
}

pub open spec fn approval_kind_text(kind: ApprovalKind) -> &'static str {
    match kind {
        ApprovalKind::WorkflowDefinition => "workflow-definition",
        ApprovalKind::PrivilegedExecution => "privileged-execution",
        ApprovalKind::EnvironmentDeployment => "environment-deployment",
        ApprovalKind::ArtifactPromotion => "artifact-promotion",
        ApprovalKind::BreakGlass => "break-glass",
    }
}

/// The durable name of an approval kind.
pub fn approval_kind_name(kind: ApprovalKind) -> (res: &'static str)
    ensures
        res == approval_kind_text(kind),
{
    match kind {
        ApprovalKind::WorkflowDefinition => "workflow-definition",
        ApprovalKind::PrivilegedExecution => "privileged-execution",
        ApprovalKind::EnvironmentDeployment => "environment-deployment",
        ApprovalKind::ArtifactPromotion => "artifact-promotion",
        ApprovalKind::BreakGlass => "break-glass",
    }
}

/// The run state whose durable name has the bytes `b`.
pub open spec fn run_state_named(b: Seq<u8>) -> Option<RunState> {
    if b == "created".spec_bytes() {
        Some(RunState::Created)
    } else if b == "running".spec_bytes() {
        Some(RunState::Running)
    } else if b == "succeeded".spec_bytes() {
        Some(RunState::Succeeded)
    } else if b == "failed".spec_bytes() {
        Some(RunState::Failed)
    } else if b == "canceled".spec_bytes() {
        Some(RunState::Canceled)
    } else {
        None
    }
}

/// Reads a durable run state name.
pub fn parse_run_state(value: &str) -> (res: Result<RunState, ControlPlaneError>)
    ensures
        match run_state_named(value.spec_bytes()) {
            Some(state) => res == Ok::<RunState, ControlPlaneError>(state),
            None => res matches Err(ControlPlaneError::UnknownState { kind, value: v }) && kind
                == "run state" && v@ == value@,
        },
{
    if str_is(value, "created") {
        Ok(RunState::Created)
    } else if str_is(value, "running") {
        Ok(RunState::Running)
    } else if str_is(value, "succeeded") {
        Ok(RunState::Succeeded)
    } else if str_is(value, "failed") {
        Ok(RunState::Failed)
    } else if str_is(value, "canceled") {
        Ok(RunState::Canceled)
    } else {
        Err(ControlPlaneError::UnknownState { kind: "run state", value: value.to_owned() })
    }
}

/// The job state whose durable name has the bytes `b`.
pub open spec fn job_state_named(b: Seq<u8>) -> Option<JobState> {
    if b == "created".spec_bytes() {
        Some(JobState::Created)
    } else if b == "blocked_policy".spec_bytes() {
        Some(JobState::BlockedPolicy)
    } else if b == "awaiting_approval".spec_bytes() {
        Some(JobState::AwaitingApproval)
    } else if b == "queued".spec_bytes() {
        Some(JobState::Queued)
    } else if b == "leased".spec_bytes() {
        Some(JobState::Leased)
    } else if b == "preparing".spec_bytes() {
        Some(JobState::Preparing)
    } else if b == "running".spec_bytes() {
        Some(JobState::Running)
    } else if b == "finalizing".spec_bytes() {
        Some(JobState::Finalizing)
    } else if b == "succeeded".spec_bytes() {
        Some(JobState::Succeeded)
    } else if b == "failed".spec_bytes() {
        Some(JobState::Failed)
    } else if b == "canceled".spec_bytes() {
        Some(JobState::Canceled)
    } else if b == "timed_out".spec_bytes() {
        Some(JobState::TimedOut)
    } else if b == "lost".spec_bytes() {
        Some(JobState::Lost)
    } else if b == "rejected".spec_bytes() {
        Some(JobState::Rejected)
    } else if b == "skipped".spec_bytes() {
        Some(JobState::Skipped)
    } else {
        None
    }
}

/// Reads a durable job state name.
pub fn parse_job_state(value: &str) -> (res: Result<JobState, ControlPlaneError>)
    ensures
        match job_state_named(value.spec_bytes()) {
            Some(state) => res == Ok::<JobState, ControlPlaneError>(state),
            None => res matches Err(ControlPlaneError::UnknownState { kind, value: v }) && kind
                == "job state" && v@ == value@,
        },
{
    if str_is(value, "created") {
        Ok(JobState::Created)
    } else if str_is(value, "blocked_policy") {
        Ok(JobState::BlockedPolicy)
    } else if str_is(value, "awaiting_approval") {
        Ok(JobState::AwaitingApproval)
    } else if str_is(value, "queued") {
        Ok(JobState::Queued)
    } else if str_is(value, "leased") {
        Ok(JobState::Leased)
    } else if str_is(value, "preparing") {
        Ok(JobState::Preparing)
    } else if str_is(value, "running") {
        Ok(JobState::Running)
    } else if str_is(value, "finalizing") {
        Ok(JobState::Finalizing)
    } else if str_is(value, "succeeded") {
        Ok(JobState::Succeeded)
    } else if str_is(value, "failed") {
        Ok(JobState::Failed)
    } else if str_is(value, "canceled") {
        Ok(JobState::Canceled)
    } else if str_is(value, "timed_out") {
        Ok(JobState::TimedOut)
    } else if str_is(value, "lost") {
        Ok(JobState::Lost)
    } else if str_is(value, "rejected") {
        Ok(JobState::Rejected)
    } else if str_is(value, "skipped") {
        Ok(JobState::Skipped)
    } else {
        Err(ControlPlaneError::UnknownState { kind: "job state", value: value.to_owned() })
    }
}

/// Reading the durable name of a run state gives the state back.
pub proof fn lemma_run_state_name_round_trip(state: RunState)
    ensures
        run_state_named(run_state_text(state).spec_bytes()) == Some(state),
{
    broadcast use vstd::string::is_ascii_spec_bytes;

    reveal_strlit("created");
    reveal_strlit("running");
    reveal_strlit("succeeded");
    reveal_strlit("failed");
    reveal_strlit("canceled");
    assert(vstd::string::is_ascii("created"));
    assert(vstd::string::is_ascii("running"));
    assert(vstd::string::is_ascii("succeeded"));
    assert(vstd::string::is_ascii("failed"));
    assert(vstd::string::is_ascii("canceled"));
    let c = "created".spec_bytes();
    let r = "running".spec_bytes();
    let su = "succeeded".spec_bytes();
    let f = "failed".spec_bytes();
    let ca = "canceled".spec_bytes();
    assert(c[0] != r[0]);
    assert(c[0] != su[0]);
    assert(c[0] != f[0]);
    assert(c[1] != ca[1]);
    assert(r[0] != su[0]);
    assert(r[0] != f[0]);
    assert(r[0] != ca[0]);
    assert(su[0] != f[0]);
    assert(su[0] != ca[0]);
    assert(f[0] != ca[0]);
}

/// Reading the durable name of a job state gives the state back.
pub proof fn lemma_job_state_name_round_trip(state: JobState)
    ensures
        job_state_named(job_state_text(state).spec_bytes()) == Some(state),
{
    broadcast use vstd::string::is_ascii_spec_bytes;

    reveal_strlit("created");
    assert(vstd::string::is_ascii("created"));
    reveal_strlit("blocked_policy");
    assert(vstd::string::is_ascii("blocked_policy"));
    reveal_strlit("awaiting_approval");
    assert(vstd::string::is_ascii("awaiting_approval"));
    reveal_strlit("queued");
    assert(vstd::string::is_ascii("queued"));
    reveal_strlit("leased");
    assert(vstd::string::is_ascii("leased"));
    reveal_strlit("preparing");
    assert(vstd::string::is_ascii("preparing"));
    reveal_strlit("running");
    assert(vstd::string::is_ascii("running"));
    reveal_strlit("finalizing");
    assert(vstd::string::is_ascii("finalizing"));
    reveal_strlit("succeeded");
    assert(vstd::string::is_ascii("succeeded"));
    reveal_strlit("failed");
    assert(vstd::string::is_ascii("failed"));
    reveal_strlit("canceled");
    assert(vstd::string::is_ascii("canceled"));
    reveal_strlit("timed_out");
    assert(vstd::string::is_ascii("timed_out"));
    reveal_strlit("lost");
    assert(vstd::string::is_ascii("lost"));
    reveal_strlit("rejected");
    assert(vstd::string::is_ascii("rejected"));
    reveal_strlit("skipped");
    assert(vstd::string::is_ascii("skipped"));
    assert("created".spec_bytes().len() == 7 && "created".spec_bytes()[0] == 99u8 && "created".spec_bytes()[1] == 114u8);
    assert("blocked_policy".spec_bytes().len() == 14 && "blocked_policy".spec_bytes()[0] == 98u8 && "blocked_policy".spec_bytes()[1] == 108u8);
    assert("awaiting_approval".spec_bytes().len() == 17 && "awaiting_approval".spec_bytes()[0] == 97u8 && "awaiting_approval".spec_bytes()[1] == 119u8);
    assert("queued".spec_bytes().len() == 6 && "queued".spec_bytes()[0] == 113u8 && "queued".spec_bytes()[1] == 117u8);
    assert("leased".spec_bytes().len() == 6 && "leased".spec_bytes()[0] == 108u8 && "leased".spec_bytes()[1] == 101u8);
    assert("preparing".spec_bytes().len() == 9 && "preparing".spec_bytes()[0] == 112u8 && "preparing".spec_bytes()[1] == 114u8);
    assert("running".spec_bytes().len() == 7 && "running".spec_bytes()[0] == 114u8 && "running".spec_bytes()[1] == 117u8);
    assert("finalizing".spec_bytes().len() == 10 && "finalizing".spec_bytes()[0] == 102u8 && "finalizing".spec_bytes()[1] == 105u8);
    assert("succeeded".spec_bytes().len() == 9 && "succeeded".spec_bytes()[0] == 115u8 && "succeeded".spec_bytes()[1] == 117u8);
    assert("failed".spec_bytes().len() == 6 && "failed".spec_bytes()[0] == 102u8 && "failed".spec_bytes()[1] == 97u8);
    assert("canceled".spec_bytes().len() == 8 && "canceled".spec_bytes()[0] == 99u8 && "canceled".spec_bytes()[1] == 97u8);
    assert("timed_out".spec_bytes().len() == 9 && "timed_out".spec_bytes()[0] == 116u8 && "timed_out".spec_bytes()[1] == 105u8);
    assert("lost".spec_bytes().len() == 4 && "lost".spec_bytes()[0] == 108u8 && "lost".spec_bytes()[1] == 111u8);
    assert("rejected".spec_bytes().len() == 8 && "rejected".spec_bytes()[0] == 114u8 && "rejected".spec_bytes()[1] == 101u8);
    assert("skipped".spec_bytes().len() == 7 && "skipped".spec_bytes()[0] == 115u8 && "skipped".spec_bytes()[1] == 107u8);
}

} // verus!
