use runtrue_persistence::continuations::{
    check_task_claim, check_task_owner, decide_continuation, decide_continuation_close, parse_pending_state,
    pending_state_name, plan_gated_execution, preapproved_continuation_task_id, ApprovalSummary,
    ContinuationStep, DurableTaskClaim, ScmPendingExecutionState,
};
use runtrue_persistence::digest::content_digest_sha256;
use runtrue_persistence::error::ControlPlaneError;
use runtrue_persistence::scm::ContinuationApprovalState;
use runtrue_persistence::states::{ApprovalKind, ApprovalStatus};

#[test]
fn pending_state_names_round_trip() {
    for s in [
        ScmPendingExecutionState::AwaitingApproval,
        ScmPendingExecutionState::ContinuationPending,
        ScmPendingExecutionState::RunCreated,
        ScmPendingExecutionState::Denied,
        ScmPendingExecutionState::Expired,
        ScmPendingExecutionState::Stale,
    ] {
        assert_eq!(parse_pending_state(pending_state_name(s)), Ok(s));
    }
    assert_eq!(
        parse_pending_state("paused"),
        Err(ControlPlaneError::UnknownState { kind: "SCM pending state", value: "paused".into() })
    );
}

fn claim(expires: Option<i64>) -> DurableTaskClaim {
    DurableTaskClaim {
        kind: "scm.event".into(),
        status: "claimed".into(),
        lease_owner: Some("worker".into()),
        lease_expires_unix_ms: expires,
    }
}

#[test]
fn task_ownership() {
    assert_eq!(check_task_owner(&claim(Some(100)), "worker", 99, "scm.event", false), Ok(()));
    assert_eq!(
        check_task_owner(&claim(Some(100)), "worker", 100, "scm.event", false),
        Err(ControlPlaneError::TaskLeaseExpired)
    );
    assert_eq!(
        check_task_owner(&claim(Some(100)), "other", 99, "scm.event", false),
        Err(ControlPlaneError::TaskLeaseExpired)
    );
    assert_eq!(
        check_task_owner(&claim(Some(100)), "worker", 99, "scm.approval.continue", false),
        Err(ControlPlaneError::TaskLeaseExpired)
    );
    assert_eq!(
        check_task_owner(&claim(None), "worker", 99, "scm.event", false),
        Err(ControlPlaneError::TaskLeaseExpired)
    );
    assert_eq!(
        check_task_owner(&claim(Some(i64::MAX)), "worker", u64::MAX, "scm.event", false),
        Err(ControlPlaneError::TaskLeaseExpired)
    );
    assert_eq!(
        check_task_owner(&claim(Some(100)), "worker", 99, "scm.event", true),
        Err(ControlPlaneError::InstallationSafeMode)
    );
}

#[test]
fn continuation_steps() {
    let waiting = ScmPendingExecutionState::AwaitingApproval;
    assert_eq!(
        decide_continuation(waiting, &None, ContinuationApprovalState::Ready, 5),
        Ok(ContinuationStep::Ready)
    );
    assert_eq!(
        decide_continuation(waiting, &None, ContinuationApprovalState::Waiting, 5),
        Ok(ContinuationStep::Waiting)
    );
    assert_eq!(
        decide_continuation(waiting, &None, ContinuationApprovalState::Denied, 5),
        Ok(ContinuationStep::Close { state: ScmPendingExecutionState::Denied, last_error: None })
    );
    assert_eq!(
        decide_continuation(
            ScmPendingExecutionState::ContinuationPending,
            &None,
            ContinuationApprovalState::Stale,
            5
        ),
        Ok(ContinuationStep::Close {
            state: ScmPendingExecutionState::Stale,
            last_error: Some("approval was consumed outside its exact SCM continuation"),
        })
    );
    assert_eq!(
        decide_continuation(waiting, &None, ContinuationApprovalState::Expired, u64::MAX),
        Err(ControlPlaneError::IntegerRange { field: "SCM continuation close" })
    );
    assert_eq!(
        decide_continuation(
            ScmPendingExecutionState::RunCreated,
            &Some("run".into()),
            ContinuationApprovalState::Stale,
            5
        ),
        Ok(ContinuationStep::RunCreated("run".into()))
    );
    assert_eq!(
        decide_continuation(ScmPendingExecutionState::RunCreated, &None, ContinuationApprovalState::Ready, 5),
        Err(ControlPlaneError::CorruptState("completed SCM continuation is missing its run"))
    );
    assert_eq!(
        decide_continuation(ScmPendingExecutionState::Denied, &None, ContinuationApprovalState::Ready, 5),
        Ok(ContinuationStep::Closed)
    );
    assert_eq!(decide_continuation_close(waiting, 5), Ok(true));
    assert_eq!(decide_continuation_close(ScmPendingExecutionState::Expired, 5), Ok(false));
}

#[test]
fn preapproved_task_ids() {
    let id = preapproved_continuation_task_id("pending", "approval");
    let digest = content_digest_sha256(b"runtrue.scm.preapproved.v1\0pending\0approval");
    assert_eq!(id, format!("scm-continuation-{}", digest.text.trim_start_matches("sha256:")));
    assert_ne!(id, preapproved_continuation_task_id("pending", "approval2"));
}

fn approval(id: &str, kind: ApprovalKind, status: ApprovalStatus, expires: u64) -> ApprovalSummary {
    ApprovalSummary { id: id.into(), kind, status, expires_unix_ms: expires }
}

#[test]
fn gated_execution_plans() {
    let plan = plan_gated_execution(&vec![
        approval("p1", ApprovalKind::PrivilegedExecution, ApprovalStatus::Approved, 50),
        approval("w1", ApprovalKind::WorkflowDefinition, ApprovalStatus::Pending, 70),
        approval("w2", ApprovalKind::WorkflowDefinition, ApprovalStatus::Approved, 40),
    ])
    .unwrap();
    assert_eq!(plan.workflow_approval_id.as_deref(), Some("w1"));
    assert_eq!(plan.privileged_approval_id.as_deref(), Some("p1"));
    assert_eq!(plan.expires_unix_ms, 40);
    assert_eq!(plan.preapproved, None);
    let granted = plan_gated_execution(&vec![
        approval("p1", ApprovalKind::PrivilegedExecution, ApprovalStatus::Approved, 50),
        approval("w1", ApprovalKind::WorkflowDefinition, ApprovalStatus::Approved, 70),
    ])
    .unwrap();
    assert_eq!(granted.preapproved.as_deref(), Some("w1"));
    let privileged = plan_gated_execution(&vec![approval(
        "p1",
        ApprovalKind::PrivilegedExecution,
        ApprovalStatus::Approved,
        50,
    )])
    .unwrap();
    assert_eq!(privileged.preapproved.as_deref(), Some("p1"));
    assert_eq!(plan_gated_execution(&vec![]), Err(ControlPlaneError::ApprovalRequired));
    assert_eq!(
        plan_gated_execution(&vec![approval("b", ApprovalKind::BreakGlass, ApprovalStatus::Approved, 5)]),
        Err(ControlPlaneError::ApprovalRequired)
    );
}

#[test]
fn task_claims() {
    let c = DurableTaskClaim {
        kind: "scm.check.publish".into(),
        status: "claimed".into(),
        lease_owner: Some("worker".into()),
        lease_expires_unix_ms: Some(100),
    };
    assert_eq!(check_task_claim(&c, "worker", 99), Ok(()));
    assert_eq!(check_task_claim(&c, "worker", 100), Err(ControlPlaneError::TaskLeaseExpired));
    assert_eq!(check_task_claim(&c, "other", 99), Err(ControlPlaneError::TaskNotOwned));
    let mut done = c.clone();
    done.status = "completed".into();
    assert_eq!(check_task_claim(&done, "worker", 99), Err(ControlPlaneError::TaskNotOwned));
    let mut negative = c;
    negative.lease_expires_unix_ms = Some(-1);
    assert_eq!(check_task_claim(&negative, "worker", 0), Err(ControlPlaneError::TaskLeaseExpired));
}
