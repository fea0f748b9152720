//! Dependency propagation between the jobs of a run, and the run outcome that
//! the settled job states determine.

use crate::error::ControlPlaneError;
use crate::states::{job_is_terminal, job_state_name, job_state_text, JobState, RunState};
use vstd::prelude::*;

verus! {

/// A job of the signed capsule: its key and the keys of the jobs it needs.
#[derive(Debug, Clone, PartialEq, Eq)]
pub struct PlannedJob {
    pub id: String,
    pub needs: Vec<String>,
}

/// The durable state of one job of a run, by job key.
#[derive(Debug, Clone, PartialEq, Eq)]
pub struct JobEntry {
    pub key: String,
    pub state: JobState,
}

/// No two entries share a job key: the entries form a map.
pub open spec fn keys_unique(states: Seq<JobEntry>) -> bool {
    forall|i: int, j: int|
        0 <= i < states.len() && 0 <= j < states.len() && i != j ==> (#[trigger] states[i]).key@
            != (#[trigger] states[j]).key@
}

pub open spec fn has_key(states: Seq<JobEntry>, key: Seq<char>) -> bool {
    exists|i: int| 0 <= i < states.len() && (#[trigger] states[i]).key@ == key
}

/// The state recorded for `key`, if any.
pub open spec fn state_of(states: Seq<JobEntry>, key: Seq<char>) -> Option<JobState> {
    if has_key(states, key) {
        Some(states[choose|i: int| 0 <= i < states.len() && (#[trigger] states[i]).key@ == key].state)
    } else {
        None
    }
}

pub proof fn lemma_state_of_at(states: Seq<JobEntry>, i: int)
    requires
        keys_unique(states),
        0 <= i < states.len(),
    ensures
        state_of(states, states[i].key@) == Some(states[i].state),
{
    let key = states[i].key@;
    assert(has_key(states, key));
    let k = choose|k: int| 0 <= k < states.len() && (#[trigger] states[k]).key@ == key;
    assert(states[k].key@ == key);
}

pub proof fn lemma_state_of_some(states: Seq<JobEntry>, key: Seq<char>)
    requires
        state_of(states, key) is Some,
    ensures
        exists|i: int|
            0 <= i < states.len() && (#[trigger] states[i]).key@ == key && states[i].state
                == state_of(states, key).unwrap(),
{
}

pub open spec fn needs_succeeded(states: Seq<JobEntry>, needs: Seq<String>) -> bool {
    forall|n: int| 0 <= n < needs.len() ==> state_of(states, (#[trigger] needs[n])@) == Some(
        JobState::Succeeded,
    )
}

/// A need is settled once it is terminal or blocked by policy.
pub open spec fn settled(s: Option<JobState>) -> bool {
    match s {
        Some(x) => job_is_terminal(x) || x == JobState::BlockedPolicy,
        None => false,
    }
}

pub open spec fn needs_settled(states: Seq<JobEntry>, needs: Seq<String>) -> bool {
    forall|n: int| 0 <= n < needs.len() ==> settled(state_of(states, (#[trigger] needs[n])@))
}

/// The state a created job moves to: queued once every need succeeded,
/// skipped once every need settled otherwise.
pub open spec fn job_change(states: Seq<JobEntry>, job: PlannedJob) -> Option<JobState> {
    if state_of(states, job.id@) != Some(JobState::Created) {
        None
    } else if needs_succeeded(states, job.needs@) {
        Some(JobState::Queued)
    } else if needs_settled(states, job.needs@) {
        Some(JobState::Skipped)
    } else {
        None
    }
}

/// The changes of one propagation round, in capsule job order, all computed
/// from the states before the round.
pub open spec fn round_changes(jobs: Seq<PlannedJob>, states: Seq<JobEntry>) -> Seq<JobEntry>
    decreases jobs.len(),
{
    if jobs.len() == 0 {
        Seq::empty()
    } else {
        let rest = round_changes(jobs.drop_last(), states);
        match job_change(states, jobs.last()) {
            Some(s) => rest.push(JobEntry { key: jobs.last().id, state: s }),
            None => rest,
        }
    }
}

pub open spec fn set_state(states: Seq<JobEntry>, key: Seq<char>, s: JobState) -> Seq<JobEntry> {
    states.map_values(
        |e: JobEntry|
            if e.key@ == key {
                JobEntry { key: e.key, state: s }
            } else {
                e
            },
    )
}

/// The states after applying `changes` in order.
pub open spec fn apply_changes(states: Seq<JobEntry>, changes: Seq<JobEntry>) -> Seq<JobEntry>
    decreases changes.len(),
{
    if changes.len() == 0 {
        states
    } else {
        set_state(apply_changes(states, changes.drop_last()), changes.last().key@, changes.last().state)
    }
}

pub open spec fn count_created(states: Seq<JobEntry>) -> nat
    decreases states.len(),
{
    if states.len() == 0 {
        0
    } else {
        count_created(states.drop_last()) + if states.last().state == JobState::Created {
            1nat
        } else {
            0nat
        }
    }
}

proof fn lemma_set_state_count(states: Seq<JobEntry>, key: Seq<char>, s: JobState)
    requires
        s != JobState::Created,
    ensures
        count_created(set_state(states, key, s)) <= count_created(states),
        (exists|i: int|
            0 <= i < states.len() && (#[trigger] states[i]).key@ == key && states[i].state
                == JobState::Created) ==> count_created(set_state(states, key, s)) < count_created(
            states,
        ),
    decreases states.len(),
{
    if states.len() > 0 {
        let d = states.drop_last();
        assert(set_state(states, key, s).drop_last() =~= set_state(d, key, s));
        lemma_set_state_count(d, key, s);
        if exists|i: int|
            0 <= i < states.len() && (#[trigger] states[i]).key@ == key && states[i].state
                == JobState::Created {
            let i = choose|i: int|
                0 <= i < states.len() && (#[trigger] states[i]).key@ == key && states[i].state
                    == JobState::Created;
            if i < states.len() - 1 {
                assert(d[i] == states[i]);
            }
        }
    }
}

proof fn lemma_apply_count(states: Seq<JobEntry>, changes: Seq<JobEntry>)
    requires
        forall|k: int| 0 <= k < changes.len() ==> (#[trigger] changes[k]).state != JobState::Created,
    ensures
        count_created(apply_changes(states, changes)) <= count_created(states),
        changes.len() > 0 && state_of(states, changes[0].key@) == Some(JobState::Created)
            ==> count_created(apply_changes(states, changes)) < count_created(states),
    decreases changes.len(),
{
    if changes.len() > 0 {
        let d = changes.drop_last();
        assert forall|k: int| 0 <= k < d.len() implies (#[trigger] d[k]).state != JobState::Created by {
            assert(d[k] == changes[k]);
        }
        lemma_apply_count(states, d);
        let last = changes.last();
        assert(last == changes[changes.len() - 1]);
        lemma_set_state_count(apply_changes(states, d), last.key@, last.state);
        if changes.len() == 1 && state_of(states, changes[0].key@) == Some(JobState::Created) {
            assert(apply_changes(states, d) == states);
            lemma_state_of_some(states, changes[0].key@);
        }
        if changes.len() > 1 {
            assert(d[0] == changes[0]);
        }
    }
}

proof fn lemma_round_changes_shape(jobs: Seq<PlannedJob>, states: Seq<JobEntry>)
    ensures
        forall|k: int|
            0 <= k < round_changes(jobs, states).len() ==> {
                &&& (#[trigger] round_changes(jobs, states)[k]).state != JobState::Created
                &&& state_of(states, round_changes(jobs, states)[k].key@) == Some(JobState::Created)
            },
    decreases jobs.len(),
{
    if jobs.len() > 0 {
        lemma_round_changes_shape(jobs.drop_last(), states);
        let rest = round_changes(jobs.drop_last(), states);
        let r = round_changes(jobs, states);
        assert forall|k: int| 0 <= k < r.len() implies {
            &&& (#[trigger] r[k]).state != JobState::Created
            &&& state_of(states, r[k].key@) == Some(JobState::Created)
        } by {
            if k < rest.len() {
                assert(r[k] == rest[k]);
            }
        }
    }
}

pub proof fn lemma_round_progress(jobs: Seq<PlannedJob>, states: Seq<JobEntry>)
    ensures
        count_created(apply_changes(states, round_changes(jobs, states))) <= count_created(states),
        round_changes(jobs, states).len() > 0 ==> count_created(
            apply_changes(states, round_changes(jobs, states)),
        ) < count_created(states),
{
    lemma_round_changes_shape(jobs, states);
    lemma_apply_count(states, round_changes(jobs, states));
}

/// The states after propagating to a fixpoint: rounds repeat while they change
/// something.
pub open spec fn propagate(jobs: Seq<PlannedJob>, states: Seq<JobEntry>) -> Seq<JobEntry>
    decreases count_created(states),
{
    let changes = round_changes(jobs, states);
    if changes.len() == 0 {
        states
    } else {
        proof {
            lemma_round_progress(jobs, states);
        }
        propagate(jobs, apply_changes(states, changes))
    }
}

/// Every change of every round, in the order in which they are applied.
pub open spec fn propagation_updates(jobs: Seq<PlannedJob>, states: Seq<JobEntry>) -> Seq<JobEntry>
    decreases count_created(states),
{
    let changes = round_changes(jobs, states);
    if changes.len() == 0 {
        Seq::empty()
    } else {
        proof {
            lemma_round_progress(jobs, states);
        }
        changes + propagation_updates(jobs, apply_changes(states, changes))
    }
}

pub open spec fn failed_outcome_state(s: JobState) -> bool {
    s == JobState::BlockedPolicy || s == JobState::Failed || s == JobState::TimedOut || s
        == JobState::Lost || s == JobState::Rejected
}

/// The final run state once every job is terminal or blocked by policy:
/// canceled when cancellation was requested or a job was canceled, failed when
/// a job is blocked, failed, timed out, lost or rejected, succeeded otherwise.
pub open spec fn run_outcome(states: Seq<JobEntry>, cancel_requested: bool) -> Option<RunState> {
    if exists|i: int|
        0 <= i < states.len() && !job_is_terminal((#[trigger] states[i]).state) && states[i].state
            != JobState::BlockedPolicy {
        None
    } else if cancel_requested || exists|i: int|
        0 <= i < states.len() && (#[trigger] states[i]).state == JobState::Canceled {
        Some(RunState::Canceled)
    } else if exists|i: int| 0 <= i < states.len() && failed_outcome_state((#[trigger] states[i]).state) {
        Some(RunState::Failed)
    } else {
        Some(RunState::Succeeded)
    }
}

/// How the settled jobs decide a run, with no cancellation requested and no
/// job canceled: the run succeeds exactly when every job succeeded or was
/// skipped, and fails as soon as one job failed, timed out, was lost, was
/// rejected or is blocked by policy. While some job is still neither
/// finished nor blocked, the run has no outcome yet; a requested or job
/// cancellation cancels it once all are settled.
pub proof fn law_run_outcome_from_jobs(states: Seq<JobEntry>, cancel_requested: bool)
    ensures
        (exists|i: int|
            0 <= i < states.len() && {
                let s = (#[trigger] states[i]).state;
                s == JobState::Created || s == JobState::AwaitingApproval || s == JobState::Queued || s
                    == JobState::Leased || s == JobState::Preparing || s == JobState::Running || s
                    == JobState::Finalizing
            }) ==> run_outcome(states, cancel_requested) is None,
        (forall|i: int|
            0 <= i < states.len() ==> {
                let s = (#[trigger] states[i]).state;
                s == JobState::Succeeded || s == JobState::Skipped
            }) ==> run_outcome(states, cancel_requested) == Some(
            if cancel_requested {
                RunState::Canceled
            } else {
                RunState::Succeeded
            },
        ),
        (forall|i: int|
            0 <= i < states.len() ==> {
                let s = (#[trigger] states[i]).state;
                s == JobState::Succeeded || s == JobState::Skipped || s == JobState::Failed || s
                    == JobState::TimedOut || s == JobState::Lost || s == JobState::Rejected || s
                    == JobState::BlockedPolicy
            }) && !cancel_requested && (exists|i: int|
            0 <= i < states.len() && {
                let s = (#[trigger] states[i]).state;
                s == JobState::Failed || s == JobState::TimedOut || s == JobState::Lost || s
                    == JobState::Rejected || s == JobState::BlockedPolicy
            }) ==> run_outcome(states, cancel_requested) == Some(RunState::Failed),
        run_outcome(states, cancel_requested) == Some(RunState::Succeeded) ==> !cancel_requested && forall|i: int|
            0 <= i < states.len() ==> {
                let s = (#[trigger] states[i]).state;
                s == JobState::Succeeded || s == JobState::Skipped
            },
        (forall|i: int|
            0 <= i < states.len() ==> {
                let s = (#[trigger] states[i]).state;
                s != JobState::Created && s != JobState::AwaitingApproval && s != JobState::Queued && s
                    != JobState::Leased && s != JobState::Preparing && s != JobState::Running && s
                    != JobState::Finalizing
            }) && (cancel_requested || exists|i: int|
            0 <= i < states.len() && (#[trigger] states[i]).state == JobState::Canceled) ==> run_outcome(
            states,
            cancel_requested,
        ) == Some(RunState::Canceled),
{
    if run_outcome(states, cancel_requested) == Some(RunState::Succeeded) {
        assert forall|i: int| 0 <= i < states.len() implies {
            let s = (#[trigger] states[i]).state;
            s == JobState::Succeeded || s == JobState::Skipped
        } by {
            let s = states[i].state;
            assert(!(!job_is_terminal(s) && s != JobState::BlockedPolicy));
            assert(s != JobState::Canceled);
            assert(!failed_outcome_state(s));
        }
    }
}

/// The state recorded for `key`.
pub fn lookup_job_state(states: &Vec<JobEntry>, key: &String) -> (res: Option<JobState>)
    requires
        keys_unique(states@),
    ensures
        res == state_of(states@, key@),
{
    let mut i: usize = 0;
    while i < states.len()
        invariant
            0 <= i <= states@.len(),
            keys_unique(states@),
            forall|j: int| 0 <= j < i ==> (#[trigger] states@[j]).key@ != key@,
        decreases states@.len() - i,
    {
        if states[i].key == *key {
            proof {
                lemma_state_of_at(states@, i as int);
            }
            return Some(states[i].state);
        }
        i += 1;
    }
    None
}

fn is_settled(s: Option<JobState>) -> (res: bool)
    ensures
        res == settled(s),
{
    match s {
        Some(x) => x.is_terminal() || x == JobState::BlockedPolicy,
        None => false,
    }
}

fn job_change_exec(states: &Vec<JobEntry>, job: &PlannedJob) -> (res: Option<JobState>)
    requires
        keys_unique(states@),
    ensures
        res == job_change(states@, *job),
{
    match lookup_job_state(states, &job.id) {
        Some(JobState::Created) => {},
        _ => {
            return None;
        },
    }
    let mut all_succeeded = true;
    let mut all_settled = true;
    let mut n: usize = 0;
    while n < job.needs.len()
        invariant
            0 <= n <= job.needs@.len(),
            keys_unique(states@),
            all_succeeded == (forall|m: int|
                0 <= m < n ==> state_of(states@, (#[trigger] job.needs@[m])@) == Some(
                    JobState::Succeeded,
                )),
            all_settled == (forall|m: int|
                0 <= m < n ==> settled(state_of(states@, (#[trigger] job.needs@[m])@))),
        decreases job.needs@.len() - n,
    {
        let s = lookup_job_state(states, &job.needs[n]);
        let succeeded = match s {
            Some(JobState::Succeeded) => true,
            _ => false,
        };
        let done = is_settled(s);
        proof {
            if all_succeeded && succeeded {
                assert forall|m: int| 0 <= m < n + 1 implies state_of(
                    states@,
                    (#[trigger] job.needs@[m])@,
                ) == Some(JobState::Succeeded) by {}
            }
            if all_settled && done {
                assert forall|m: int| 0 <= m < n + 1 implies settled(
                    state_of(states@, (#[trigger] job.needs@[m])@),
                ) by {}
            }
        }
        all_succeeded = all_succeeded && succeeded;
        all_settled = all_settled && done;
        n += 1;
    }
    if all_succeeded {
        Some(JobState::Queued)
    } else if all_settled {
        Some(JobState::Skipped)
    } else {
        None
    }
}

/// The changes of one propagation round.
pub fn round_changes_exec(jobs: &Vec<PlannedJob>, states: &Vec<JobEntry>) -> (res: Vec<JobEntry>)
    requires
        keys_unique(states@),
    ensures
        res@ == round_changes(jobs@, states@),
{
    let mut out: Vec<JobEntry> = Vec::new();
    let mut k: usize = 0;
    proof {
        assert(jobs@.take(0) =~= Seq::<PlannedJob>::empty());
    }
    while k < jobs.len()
        invariant
            0 <= k <= jobs@.len(),
            keys_unique(states@),
            out@ == round_changes(jobs@.take(k as int), states@),
        decreases jobs@.len() - k,
    {
        let change = job_change_exec(states, &jobs[k]);
        proof {
            assert(jobs@.take(k + 1).drop_last() =~= jobs@.take(k as int));
            assert(jobs@.take(k + 1).last() == jobs@[k as int]);
        }
        match change {
            Some(s) => {
                out.push(JobEntry { key: jobs[k].id.clone(), state: s });
            },
            None => {},
        }
        k += 1;
    }
    proof {
        assert(jobs@.take(k as int) =~= jobs@);
    }
    out
}

fn set_state_exec(states: &mut Vec<JobEntry>, key: &String, s: JobState)
    ensures
        final(states)@ == set_state(old(states)@, key@, s),
{
    let ghost orig = states@;
    let mut i: usize = 0;
    while i < states.len()
        invariant
            0 <= i <= states@.len(),
            states@.len() == orig.len(),
            forall|j: int| 0 <= j < i ==> states@[j] == set_state(orig, key@, s)[j],
            forall|j: int| i <= j < states@.len() ==> states@[j] == orig[j],
        decreases states@.len() - i,
    {
        if states[i].key == *key {
            states[i].state = s;
        }
        i += 1;
    }
    proof {
        assert(states@ =~= set_state(orig, key@, s));
    }
}

fn apply_changes_exec(states: &mut Vec<JobEntry>, changes: &Vec<JobEntry>)
    ensures
        final(states)@ == apply_changes(old(states)@, changes@),
{
    let ghost orig = states@;
    let mut k: usize = 0;
    proof {
        assert(changes@.take(0) =~= Seq::<JobEntry>::empty());
    }
    while k < changes.len()
        invariant
            0 <= k <= changes@.len(),
            states@ == apply_changes(orig, changes@.take(k as int)),
        decreases changes@.len() - k,
    {
        proof {
            assert(changes@.take(k + 1).drop_last() =~= changes@.take(k as int));
            assert(changes@.take(k + 1).last() == changes@[k as int]);
        }
        set_state_exec(states, &changes[k].key, changes[k].state);
        k += 1;
    }
    proof {
        assert(changes@.take(k as int) =~= changes@);
    }
}

/// How one job entry may change under propagation: its key stays, a job that
/// was not created keeps its state, and a created job stays created or becomes
/// queued or skipped.
pub open spec fn entry_evolves(before: JobEntry, after: JobEntry) -> bool {
    &&& after.key == before.key
    &&& before.state != JobState::Created ==> after.state == before.state
    &&& before.state == JobState::Created ==> (after.state == JobState::Created || after.state
        == JobState::Queued || after.state == JobState::Skipped)
}

pub open spec fn states_evolve(before: Seq<JobEntry>, after: Seq<JobEntry>) -> bool {
    &&& after.len() == before.len()
    &&& forall|i: int| 0 <= i < before.len() ==> entry_evolves(before[i], #[trigger] after[i])
}

proof fn lemma_apply_evolves(states: Seq<JobEntry>, changes: Seq<JobEntry>)
    requires
        keys_unique(states),
        forall|k: int|
            0 <= k < changes.len() ==> {
                &&& ((#[trigger] changes[k]).state == JobState::Queued || changes[k].state
                    == JobState::Skipped)
                &&& state_of(states, changes[k].key@) == Some(JobState::Created)
            },
    ensures
        states_evolve(states, apply_changes(states, changes)),
    decreases changes.len(),
{
    if changes.len() > 0 {
        let d = changes.drop_last();
        assert forall|k: int|
            0 <= k < d.len() implies {
                &&& ((#[trigger] d[k]).state == JobState::Queued || d[k].state == JobState::Skipped)
                &&& state_of(states, d[k].key@) == Some(JobState::Created)
            } by {
            assert(d[k] == changes[k]);
        }
        lemma_apply_evolves(states, d);
        let mid = apply_changes(states, d);
        let last = changes[changes.len() - 1];
        assert(changes.last() == last);
        lemma_state_of_some(states, last.key@);
        let fin = apply_changes(states, changes);
        assert forall|i: int| 0 <= i < states.len() implies entry_evolves(
            states[i],
            #[trigger] fin[i],
        ) by {
            assert(entry_evolves(states[i], mid[i]));
            if mid[i].key@ == last.key@ {
                let w = choose|w: int|
                    0 <= w < states.len() && (#[trigger] states[w]).key@ == last.key@
                        && states[w].state == JobState::Created;
                if w != i {
                    assert(states[w].key@ != states[i].key@);
                }
            }
        }
    }
}

proof fn lemma_round_changes_targets(jobs: Seq<PlannedJob>, states: Seq<JobEntry>)
    ensures
        forall|k: int|
            0 <= k < round_changes(jobs, states).len() ==> {
                &&& ((#[trigger] round_changes(jobs, states)[k]).state == JobState::Queued
                    || round_changes(jobs, states)[k].state == JobState::Skipped)
                &&& state_of(states, round_changes(jobs, states)[k].key@) == Some(JobState::Created)
            },
    decreases jobs.len(),
{
    if jobs.len() > 0 {
        lemma_round_changes_targets(jobs.drop_last(), states);
        let rest = round_changes(jobs.drop_last(), states);
        let r = round_changes(jobs, states);
        assert forall|k: int|
            0 <= k < r.len() implies {
                &&& ((#[trigger] r[k]).state == JobState::Queued || r[k].state == JobState::Skipped)
                &&& state_of(states, r[k].key@) == Some(JobState::Created)
            } by {
            if k < rest.len() {
                assert(r[k] == rest[k]);
            }
        }
    }
}

proof fn lemma_evolve_keys_unique(before: Seq<JobEntry>, after: Seq<JobEntry>)
    requires
        keys_unique(before),
        states_evolve(before, after),
    ensures
        keys_unique(after),
{
    assert forall|i: int, j: int|
        0 <= i < after.len() && 0 <= j < after.len() && i != j implies (#[trigger] after[i]).key@
        != (#[trigger] after[j]).key@ by {
        assert(entry_evolves(before[i], after[i]));
        assert(entry_evolves(before[j], after[j]));
    }
}

proof fn lemma_evolve_trans(a: Seq<JobEntry>, b: Seq<JobEntry>, c: Seq<JobEntry>)
    requires
        states_evolve(a, b),
        states_evolve(b, c),
    ensures
        states_evolve(a, c),
{
    assert forall|i: int| 0 <= i < a.len() implies entry_evolves(a[i], #[trigger] c[i]) by {
        assert(entry_evolves(a[i], b[i]));
        assert(entry_evolves(b[i], c[i]));
    }
}

pub proof fn lemma_round_evolves(jobs: Seq<PlannedJob>, states: Seq<JobEntry>)
    requires
        keys_unique(states),
    ensures
        states_evolve(states, apply_changes(states, round_changes(jobs, states))),
        keys_unique(apply_changes(states, round_changes(jobs, states))),
{
    lemma_round_changes_targets(jobs, states);
    lemma_apply_evolves(states, round_changes(jobs, states));
    lemma_evolve_keys_unique(states, apply_changes(states, round_changes(jobs, states)));
}

/// Propagation only moves created jobs to queued or skipped, keeps every other
/// job's state and every key, and ends at a fixpoint where no further round
/// changes anything.
pub proof fn lemma_propagate_evolves(jobs: Seq<PlannedJob>, states: Seq<JobEntry>)
    requires
        keys_unique(states),
    ensures
        states_evolve(states, propagate(jobs, states)),
        keys_unique(propagate(jobs, states)),
        round_changes(jobs, propagate(jobs, states)).len() == 0,
        forall|k: int|
            0 <= k < propagation_updates(jobs, states).len() ==> (
            #[trigger] propagation_updates(jobs, states)[k]).state == JobState::Queued
                || propagation_updates(jobs, states)[k].state == JobState::Skipped,
    decreases count_created(states),
{
    let changes = round_changes(jobs, states);
    if changes.len() == 0 {
        assert forall|i: int| 0 <= i < states.len() implies entry_evolves(
            states[i],
            #[trigger] states[i],
        ) by {}
    } else {
        lemma_round_progress(jobs, states);
        lemma_round_evolves(jobs, states);
        lemma_round_changes_targets(jobs, states);
        let next = apply_changes(states, changes);
        lemma_propagate_evolves(jobs, next);
        lemma_evolve_trans(states, next, propagate(jobs, next));
        let ups = propagation_updates(jobs, states);
        let rest = propagation_updates(jobs, next);
        assert(ups == changes + rest);
        assert forall|k: int| 0 <= k < ups.len() implies (#[trigger] ups[k]).state
            == JobState::Queued || ups[k].state == JobState::Skipped by {
            if k < changes.len() {
                assert(ups[k] == changes[k]);
            } else {
                assert(ups[k] == rest[k - changes.len()]);
            }
        }
    }
}

/// What propagation settles for a run, and the run state it concludes with.
#[derive(Debug, Clone, PartialEq, Eq)]
pub struct RunConclusion {
    /// Every job state change, in the order applied.
    pub updates: Vec<JobEntry>,
    /// The job states once no round changes anything.
    pub states: Vec<JobEntry>,
    /// The final run state when every job is terminal or blocked by policy.
    pub outcome: Option<RunState>,
}

fn run_outcome_exec(states: &Vec<JobEntry>, cancel_requested: bool) -> (res: Option<RunState>)
    ensures
        res == run_outcome(states@, cancel_requested),
{
    let mut open = false;
    let mut canceled = false;
    let mut failed = false;
    let mut i: usize = 0;
    while i < states.len()
        invariant
            0 <= i <= states@.len(),
            open == exists|j: int|
                0 <= j < i && !job_is_terminal((#[trigger] states@[j]).state) && states@[j].state
                    != JobState::BlockedPolicy,
            canceled == exists|j: int| 0 <= j < i && (#[trigger] states@[j]).state == JobState::Canceled,
            failed == exists|j: int| 0 <= j < i && failed_outcome_state((#[trigger] states@[j]).state),
        decreases states@.len() - i,
    {
        let s = states[i].state;
        if !s.is_terminal() && s != JobState::BlockedPolicy {
            open = true;
        }
        if s == JobState::Canceled {
            canceled = true;
        }
        if s == JobState::BlockedPolicy || s == JobState::Failed || s == JobState::TimedOut || s
            == JobState::Lost || s == JobState::Rejected {
            failed = true;
        }
        i += 1;
    }
    if open {
        None
    } else if cancel_requested || canceled {
        Some(RunState::Canceled)
    } else if failed {
        Some(RunState::Failed)
    } else {
        Some(RunState::Succeeded)
    }
}

/// The entries of `s` whose key is not `key`, in order.
pub open spec fn without_key(s: Seq<JobEntry>, key: Seq<char>) -> Seq<JobEntry>
    decreases s.len(),
{
    if s.len() == 0 {
        s
    } else {
        let r = without_key(s.drop_last(), key);
        if s.last().key@ == key {
            r
        } else {
            r.push(s.last())
        }
    }
}

/// The job states as a map by key holds them: for each key the last entry
/// written for it, in the order of those last entries.
pub open spec fn collapse_keys(s: Seq<JobEntry>) -> Seq<JobEntry>
    decreases s.len(),
{
    if s.len() == 0 {
        s
    } else {
        without_key(collapse_keys(s.drop_last()), s.last().key@).push(s.last())
    }
}

proof fn lemma_without_key(s: Seq<JobEntry>, key: Seq<char>)
    ensures
        forall|i: int|
            0 <= i < without_key(s, key).len() ==> (#[trigger] without_key(s, key)[i]).key@ != key
                && s.contains(without_key(s, key)[i]),
        keys_unique(s) ==> keys_unique(without_key(s, key)),
        (forall|i: int| 0 <= i < s.len() ==> (#[trigger] s[i]).key@ != key) ==> without_key(s, key) == s,
    decreases s.len(),
{
    if s.len() > 0 {
        let d = s.drop_last();
        lemma_without_key(d, key);
        let r = without_key(d, key);
        assert forall|i: int| 0 <= i < without_key(s, key).len() implies (#[trigger] without_key(s, key)[i]).key@
            != key && s.contains(without_key(s, key)[i]) by {
            if i < r.len() {
                assert(d.contains(r[i]));
                let j = choose|j: int| 0 <= j < d.len() && d[j] == r[i];
                assert(s[j] == r[i]);
            } else {
                assert(s[s.len() - 1] == s.last());
            }
        }
        if keys_unique(s) {
            assert(keys_unique(d)) by {
                assert forall|i: int, j: int| 0 <= i < d.len() && 0 <= j < d.len() && i != j implies (#[trigger] d[i]).key@
                    != (#[trigger] d[j]).key@ by {
                    assert(d[i] == s[i] && d[j] == s[j]);
                }
            }
            if s.last().key@ != key {
                let w = without_key(s, key);
                assert forall|i: int, j: int| 0 <= i < w.len() && 0 <= j < w.len() && i != j implies (#[trigger] w[i]).key@
                    != (#[trigger] w[j]).key@ by {
                    if i < r.len() && j < r.len() {
                        assert(w[i] == r[i] && w[j] == r[j]);
                    } else if i < r.len() {
                        assert(d.contains(r[i]));
                        let k = choose|k: int| 0 <= k < d.len() && d[k] == r[i];
                        assert(s[k] == r[i]);
                        assert(s[s.len() - 1] == w[j]);
                    } else {
                        assert(d.contains(r[j]));
                        let k = choose|k: int| 0 <= k < d.len() && d[k] == r[j];
                        assert(s[k] == r[j]);
                        assert(s[s.len() - 1] == w[i]);
                    }
                }
            }
        }
        if forall|i: int| 0 <= i < s.len() ==> (#[trigger] s[i]).key@ != key {
            assert forall|i: int| 0 <= i < d.len() implies (#[trigger] d[i]).key@ != key by {
                assert(d[i] == s[i]);
            }
            assert(s.last() == s[s.len() - 1]);
            assert(r.push(s.last()) =~= s);
        }
    }
}

/// The collapsed states have one entry per key; states whose keys are
/// unique already are kept as they are.
pub proof fn lemma_collapse_keys(s: Seq<JobEntry>)
    ensures
        keys_unique(collapse_keys(s)),
        keys_unique(s) ==> collapse_keys(s) == s,
    decreases s.len(),
{
    if s.len() > 0 {
        let d = s.drop_last();
        let e = s.last();
        lemma_collapse_keys(d);
        let c = collapse_keys(d);
        lemma_without_key(c, e.key@);
        let w = without_key(c, e.key@);
        let r = w.push(e);
        assert forall|i: int, j: int| 0 <= i < r.len() && 0 <= j < r.len() && i != j implies (#[trigger] r[i]).key@
            != (#[trigger] r[j]).key@ by {
            if i < w.len() && j < w.len() {
                assert(r[i] == w[i] && r[j] == w[j]);
            } else if i < w.len() {
                assert(r[i] == w[i]);
            } else {
                assert(r[j] == w[j]);
            }
        }
        if keys_unique(s) {
            assert(keys_unique(d)) by {
                assert forall|i: int, j: int| 0 <= i < d.len() && 0 <= j < d.len() && i != j implies (#[trigger] d[i]).key@
                    != (#[trigger] d[j]).key@ by {
                    assert(d[i] == s[i] && d[j] == s[j]);
                }
            }
            assert forall|i: int| 0 <= i < c.len() implies (#[trigger] c[i]).key@ != e.key@ by {
                assert(c[i] == s[i]);
                assert(e == s[s.len() - 1]);
            }
            assert(d.push(e) =~= s);
        }
    }
}

/// The entries of `v` whose key is not `key`.
fn remove_key(v: &Vec<JobEntry>, key: &String) -> (res: Vec<JobEntry>)
    ensures
        res@ == without_key(v@, key@),
{
    let mut out: Vec<JobEntry> = Vec::new();
    let mut i: usize = 0;
    while i < v.len()
        invariant
            0 <= i <= v@.len(),
            out@ == without_key(v@.take(i as int), key@),
        decreases v@.len() - i,
    {
        proof {
            assert(v@.take(i + 1).drop_last() =~= v@.take(i as int));
            assert(v@.take(i + 1).last() == v@[i as int]);
        }
        if v[i].key != *key {
            out.push(JobEntry { key: v[i].key.clone(), state: v[i].state });
        }
        i += 1;
    }
    proof {
        assert(v@.take(v@.len() as int) =~= v@);
    }
    out
}

/// The job states as a map by key holds them, the last entry for a key
/// winning.
pub fn collapse_job_entries(states: &Vec<JobEntry>) -> (res: Vec<JobEntry>)
    ensures
        res@ == collapse_keys(states@),
        keys_unique(res@),
{
    let mut out: Vec<JobEntry> = Vec::new();
    let mut i: usize = 0;
    while i < states.len()
        invariant
            0 <= i <= states@.len(),
            out@ == collapse_keys(states@.take(i as int)),
        decreases states@.len() - i,
    {
        proof {
            assert(states@.take(i + 1).drop_last() =~= states@.take(i as int));
            assert(states@.take(i + 1).last() == states@[i as int]);
        }
        let mut next = remove_key(&out, &states[i].key);
        next.push(JobEntry { key: states[i].key.clone(), state: states[i].state });
        out = next;
        i += 1;
    }
    proof {
        assert(states@.take(states@.len() as int) =~= states@);
        lemma_collapse_keys(states@);
    }
    out
}

/// Propagates job states through the capsule's dependencies until nothing
/// changes, then decides the run's final state: `None` while a job is neither
/// terminal nor blocked by policy.
pub fn conclude_run_if_terminal(
    jobs: &Vec<PlannedJob>,
    states: Vec<JobEntry>,
    cancel_requested: bool,
) -> (res: RunConclusion)
    ensures
        res.states@ == propagate(jobs@, collapse_keys(states@)),
        res.updates@ == propagation_updates(jobs@, collapse_keys(states@)),
        res.outcome == run_outcome(res.states@, cancel_requested),
        states_evolve(collapse_keys(states@), res.states@),
        round_changes(jobs@, res.states@).len() == 0,
        forall|k: int|
            0 <= k < res.updates@.len() ==> (#[trigger] res.updates@[k]).state == JobState::Queued
                || res.updates@[k].state == JobState::Skipped,
{
    let states = collapse_job_entries(&states);
    let ghost orig = states@;
    let mut cur = states;
    let mut updates: Vec<JobEntry> = Vec::new();
    proof {
        lemma_propagate_evolves(jobs@, orig);
    }
    loop
        invariant
            keys_unique(cur@),
            propagate(jobs@, orig) == propagate(jobs@, cur@),
            propagation_updates(jobs@, orig) == updates@ + propagation_updates(jobs@, cur@),
        ensures
            round_changes(jobs@, cur@).len() == 0,
            propagate(jobs@, orig) == cur@,
            propagation_updates(jobs@, orig) == updates@,
        decreases count_created(cur@),
    {
        let mut changes = round_changes_exec(jobs, &cur);
        if changes.len() == 0 {
            proof {
                assert(updates@ + Seq::<JobEntry>::empty() =~= updates@);
            }
            break;
        }
        let ghost before = cur@;
        let ghost round = changes@;
        proof {
            lemma_round_progress(jobs@, before);
            lemma_round_evolves(jobs@, before);
        }
        apply_changes_exec(&mut cur, &changes);
        let ghost old_updates = updates@;
        updates.append(&mut changes);
        proof {
            assert(propagation_updates(jobs@, before) == round + propagation_updates(jobs@, cur@));
            assert(updates@ == old_updates + round);
            assert(old_updates + (round + propagation_updates(jobs@, cur@)) =~= updates@
                + propagation_updates(jobs@, cur@));
        }
    }
    let outcome = run_outcome_exec(&cur, cancel_requested);
    RunConclusion { updates, states: cur, outcome }
}

/// What moving a job to a new state writes.
#[derive(Debug, Clone, Copy, PartialEq, Eq, Structural)]
pub struct JobTransition {
    /// The job's state changes.
    pub changes: bool,
    /// The completion time written with the change: `now` for a final state.
    pub completed_unix_ms: Option<u64>,
    /// The run's outcome is then settled again.
    pub concludes_run: bool,
}

/// How moving a job from `current` to `next` at `now` decides, where
/// `allowed` is whether the job lifecycle allows that change.
pub open spec fn job_transition(current: JobState, next: JobState, allowed: bool, now: u64) -> Result<
    JobTransition,
    ControlPlaneError,
> {
    let concludes = job_is_terminal(next) || next == JobState::BlockedPolicy;
    if current == next {
        Ok(JobTransition { changes: false, completed_unix_ms: None, concludes_run: concludes })
    } else if !allowed {
        Err(
            ControlPlaneError::InvalidTransition {
                entity: "job",
                from: job_state_text(current),
                to: job_state_text(next),
            },
        )
    } else if now > i64::MAX {
        Err(ControlPlaneError::IntegerRange { field: "job completion" })
    } else {
        Ok(
            JobTransition {
                changes: true,
                completed_unix_ms: if job_is_terminal(next) {
                    Some(now)
                } else {
                    None
                },
                concludes_run: concludes,
            },
        )
    }
}

/// Decides a job state change; `allowed` is the job lifecycle's verdict on
/// it.
pub fn decide_job_transition(current: JobState, next: JobState, allowed: bool, now: u64) -> (res: Result<
    JobTransition,
    ControlPlaneError,
>)
    ensures
        res == job_transition(current, next, allowed, now),
{
    let concludes = next.is_terminal() || next == JobState::BlockedPolicy;
    if current == next {
        return Ok(JobTransition { changes: false, completed_unix_ms: None, concludes_run: concludes });
    }
    if !allowed {
        return Err(
            ControlPlaneError::InvalidTransition {
                entity: "job",
                from: job_state_name(current),
                to: job_state_name(next),
            },
        );
    }
    if now > 0x7fff_ffff_ffff_ffffu64 {
        return Err(ControlPlaneError::IntegerRange { field: "job completion" });
    }
    let completed = if next.is_terminal() {
        Some(now)
    } else {
        None
    };
    Ok(JobTransition { changes: true, completed_unix_ms: completed, concludes_run: concludes })
}

} // verus!
