use runtrue_persistence::error::ControlPlaneError;
use runtrue_persistence::jobs::{
    collapse_job_entries, conclude_run_if_terminal, decide_job_transition, JobEntry, JobTransition,
    PlannedJob,
};
use runtrue_persistence::states::{
    approval_kind_name, approval_status_name, job_state_name, parse_job_state, parse_run_state,
    run_state_name, ApprovalKind, ApprovalStatus, JobState, RunState,
};

const RUN_STATES: [RunState; 5] = [
    RunState::Created,
    RunState::Running,
    RunState::Succeeded,
    RunState::Failed,
    RunState::Canceled,
];

#[test]
fn state_names_round_trip() {
    for state in RUN_STATES {
        assert_eq!(parse_run_state(run_state_name(state)), Ok(state));
    }
    for name in [
        "created", "blocked_policy", "awaiting_approval", "queued", "leased", "preparing",
        "running", "finalizing", "succeeded", "failed", "canceled", "timed_out", "lost",
        "rejected", "skipped",
    ] {
        let state = parse_job_state(name).unwrap();
        assert_eq!(job_state_name(state), name);
    }
    assert_eq!(
        parse_run_state("paused"),
        Err(ControlPlaneError::UnknownState { kind: "run state", value: "paused".into() })
    );
    assert!(matches!(parse_job_state("Queued"), Err(ControlPlaneError::UnknownState { .. })));
    assert_eq!(approval_status_name(ApprovalStatus::Approved), "approved");
    assert_eq!(approval_kind_name(ApprovalKind::BreakGlass), "break-glass");
}

#[test]
fn terminal_states() {
    assert!(RunState::Canceled.is_terminal());
    assert!(!RunState::Running.is_terminal());
    assert!(JobState::Skipped.is_terminal());
    assert!(!JobState::BlockedPolicy.is_terminal());
}

fn planned(id: &str, needs: &[&str]) -> PlannedJob {
    PlannedJob { id: id.into(), needs: needs.iter().map(|n| n.to_string()).collect() }
}

fn entry(key: &str, state: JobState) -> JobEntry {
    JobEntry { key: key.into(), state }
}

#[test]
fn core_contract_run_concludes_after_its_job() {
    let jobs = vec![planned("build", &[])];
    let done = conclude_run_if_terminal(&jobs, vec![entry("build", JobState::Succeeded)], false);
    assert_eq!(done.outcome, Some(RunState::Succeeded));
    assert!(done.updates.is_empty());
    let running = conclude_run_if_terminal(&jobs, vec![entry("build", JobState::Running)], false);
    assert_eq!(running.outcome, None);
}

#[test]
fn dependencies_queue_or_skip() {
    let jobs = vec![
        planned("build", &[]),
        planned("test", &["build"]),
        planned("deploy", &["test"]),
        planned("docs", &["lint"]),
        planned("lint", &[]),
    ];
    let states = vec![
        entry("build", JobState::Succeeded),
        entry("test", JobState::Created),
        entry("deploy", JobState::Created),
        entry("docs", JobState::Created),
        entry("lint", JobState::Failed),
    ];
    let result = conclude_run_if_terminal(&jobs, states, false);
    let state_of = |key: &str| result.states.iter().find(|e| e.key == key).unwrap().state;
    assert_eq!(state_of("test"), JobState::Queued);
    assert_eq!(state_of("deploy"), JobState::Created);
    assert_eq!(state_of("docs"), JobState::Skipped);
    assert_eq!(result.outcome, None);
    let failed = conclude_run_if_terminal(
        &vec![planned("build", &[]), planned("test", &["build"])],
        vec![entry("build", JobState::Failed), entry("test", JobState::Created)],
        false,
    );
    assert_eq!(failed.updates, vec![entry("test", JobState::Skipped)]);
    assert_eq!(failed.outcome, Some(RunState::Failed));
    let canceled = conclude_run_if_terminal(
        &vec![planned("build", &[])],
        vec![entry("build", JobState::Succeeded)],
        true,
    );
    assert_eq!(canceled.outcome, Some(RunState::Canceled));
}

#[test]
fn job_transitions() {
    assert_eq!(
        decide_job_transition(JobState::Running, JobState::Succeeded, true, 9),
        Ok(JobTransition { changes: true, completed_unix_ms: Some(9), concludes_run: true })
    );
    assert_eq!(
        decide_job_transition(JobState::Created, JobState::Queued, true, 9),
        Ok(JobTransition { changes: true, completed_unix_ms: None, concludes_run: false })
    );
    assert_eq!(
        decide_job_transition(JobState::Created, JobState::BlockedPolicy, true, 9),
        Ok(JobTransition { changes: true, completed_unix_ms: None, concludes_run: true })
    );
    assert_eq!(
        decide_job_transition(JobState::Failed, JobState::Failed, false, u64::MAX),
        Ok(JobTransition { changes: false, completed_unix_ms: None, concludes_run: true })
    );
    assert_eq!(
        decide_job_transition(JobState::Succeeded, JobState::Running, false, 9),
        Err(ControlPlaneError::InvalidTransition { entity: "job", from: "succeeded", to: "running" })
    );
    assert_eq!(
        decide_job_transition(JobState::Created, JobState::Queued, true, u64::MAX),
        Err(ControlPlaneError::IntegerRange { field: "job completion" })
    );
}

#[test]
fn repeated_job_keys_keep_the_last_state() {
    let states = vec![
        entry("build", JobState::Running),
        entry("lint", JobState::Succeeded),
        entry("build", JobState::Succeeded),
    ];
    assert_eq!(
        collapse_job_entries(&states),
        vec![entry("lint", JobState::Succeeded), entry("build", JobState::Succeeded)]
    );
    let jobs = vec![planned("build", &[]), planned("lint", &[])];
    let done = conclude_run_if_terminal(&jobs, states, false);
    assert_eq!(done.outcome, Some(RunState::Succeeded));
    assert_eq!(done.states.len(), 2);
}
