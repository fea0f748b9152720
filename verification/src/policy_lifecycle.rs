//! The lifecycle of a policy bundle draft (simulated, run in shadow, then
//! activated) and the counters of a tenant's policy state: each activation
//! moves the policy epoch and the decision cache generation on by one, and
//! each emergency deny replacement the cache generation.

use crate::digest::{digest_eq, ContentDigest};
use crate::config::{text_value_check, validate_text_value};
use crate::error::ControlPlaneError;
use crate::scm::text_eq;
use vstd::prelude::*;
use vstd::string::StringSliceAdditionalSpecFns;

verus! {

/// Where a policy bundle draft stands.
#[derive(Debug, Clone, Copy, PartialEq, Eq, Structural)]
pub enum PolicyDraftStatus {
    Draft,
    Simulated,
    Shadow,
    Activated,
}

/// A step of the draft lifecycle.
#[derive(Debug, Clone, Copy, PartialEq, Eq, Structural)]
pub enum PolicyStep {
    Simulate,
    Shadow,
    Activate,
}

/// The status a step moves a draft to.
pub open spec fn step_target(step: PolicyStep) -> PolicyDraftStatus {
    match step {
        PolicyStep::Simulate => PolicyDraftStatus::Simulated,
        PolicyStep::Shadow => PolicyDraftStatus::Shadow,
        PolicyStep::Activate => PolicyDraftStatus::Activated,
    }
}

/// The stored statuses a step may start from: a simulation from a draft
/// (or again), a shadow run from a simulated draft (or again), and an
/// activation only from a shadow run.
pub open spec fn step_allowed_from(step: PolicyStep, stored: PolicyDraftStatus) -> bool {
    match step {
        PolicyStep::Simulate => stored == PolicyDraftStatus::Draft || stored == PolicyDraftStatus::Simulated,
        PolicyStep::Shadow => stored == PolicyDraftStatus::Simulated || stored == PolicyDraftStatus::Shadow,
        PolicyStep::Activate => stored == PolicyDraftStatus::Shadow,
    }
}

/// Whether the step may start from the stored status.
pub fn policy_step_allowed(step: PolicyStep, stored: PolicyDraftStatus) -> (res: bool)
    ensures
        res == step_allowed_from(step, stored),
{
    match step {
        PolicyStep::Simulate => stored == PolicyDraftStatus::Draft || stored == PolicyDraftStatus::Simulated,
        PolicyStep::Shadow => stored == PolicyDraftStatus::Simulated || stored == PolicyDraftStatus::Shadow,
        PolicyStep::Activate => stored == PolicyDraftStatus::Shadow,
    }
}

/// The position of a status along the lifecycle.
pub open spec fn status_rank(s: PolicyDraftStatus) -> int {
    match s {
        PolicyDraftStatus::Draft => 0,
        PolicyDraftStatus::Simulated => 1,
        PolicyDraftStatus::Shadow => 2,
        PolicyDraftStatus::Activated => 3,
    }
}

/// A draft only moves forward: every allowed step leads to a status at
/// least as far along, an activated draft takes no step, and nothing
/// reaches activation without having run in shadow.
pub proof fn law_policy_drafts_move_forward(step: PolicyStep, stored: PolicyDraftStatus)
    ensures
        step_allowed_from(step, stored) ==> status_rank(stored) <= status_rank(step_target(step)),
        stored == PolicyDraftStatus::Activated ==> !step_allowed_from(step, stored),
        step_allowed_from(step, stored) && step_target(step) == PolicyDraftStatus::Activated
            ==> stored == PolicyDraftStatus::Shadow,
{
}

/// What the activation rules read of a draft.
#[derive(Debug, Clone, PartialEq, Eq)]
pub struct PolicyDraftFacts {
    pub id: String,
    pub tenant_id: String,
    pub author_id: String,
    pub digest: ContentDigest,
    pub simulation_digest: Option<ContentDigest>,
    pub status: PolicyDraftStatus,
}

pub const MSG_NEW_DRAFT: &'static str = "new policy draft lacks exact author or draft state";

/// How persisting a new draft decides, `created` being the draft's creation
/// time, `actor`, `correlation` and `occurred` its audit, and `stored`
/// whether a draft with its id is stored and, if so, whether it is this very
/// draft: the audit texts valid, the draft in draft state, authored by the
/// audited actor and audited no earlier than created; then written
/// (`Ok(true)`), replayed when the same draft is stored (`Ok(false)`), or
/// refused when another is.
pub open spec fn draft_persist_decision(
    d: PolicyDraftFacts,
    created: u64,
    actor: Seq<u8>,
    correlation: Seq<u8>,
    occurred: u64,
    stored: Option<bool>,
) -> Result<bool, ControlPlaneError> {
    if text_value_check(actor) is Err {
        Err(text_value_check(actor)->Err_0)
    } else if text_value_check(correlation) is Err {
        Err(text_value_check(correlation)->Err_0)
    } else if d.status != PolicyDraftStatus::Draft || vstd::utf8::encode_utf8(d.author_id@) != actor || occurred
        < created {
        Err(ControlPlaneError::InvalidInput(MSG_NEW_DRAFT))
    } else {
        match stored {
            None => Ok(true),
            Some(same) => if same {
                Ok(false)
            } else {
                Err(ControlPlaneError::IdempotencyConflict)
            },
        }
    }
}

/// Decides the persistence of a new policy draft.
pub fn decide_draft_persist(
    d: &PolicyDraftFacts,
    created: u64,
    actor: &str,
    correlation: &str,
    occurred: u64,
    stored: Option<bool>,
) -> (res: Result<bool, ControlPlaneError>)
    ensures
        res == draft_persist_decision(*d, created, actor.spec_bytes(), correlation.spec_bytes(), occurred, stored),
{
    validate_text_value(actor)?;
    validate_text_value(correlation)?;
    let author_is_actor = crate::bytes::str_is(d.author_id.as_str(), actor);
    if d.status != PolicyDraftStatus::Draft || !author_is_actor || occurred < created {
        return Err(ControlPlaneError::InvalidInput(MSG_NEW_DRAFT));
    }
    match stored {
        None => Ok(true),
        Some(same) => if same {
            Ok(false)
        } else {
            Err(ControlPlaneError::IdempotencyConflict)
        },
    }
}

/// A draft is written once: after a draft was written, persisting the same
/// draft again replays it and persisting another under its id is refused.
pub proof fn law_draft_persist_replays(
    d: PolicyDraftFacts,
    created: u64,
    actor: Seq<u8>,
    correlation: Seq<u8>,
    occurred: u64,
)
    requires
        draft_persist_decision(d, created, actor, correlation, occurred, None) == Ok::<bool, ControlPlaneError>(true),
    ensures
        draft_persist_decision(d, created, actor, correlation, occurred, Some(true)) == Ok::<bool, ControlPlaneError>(
            false,
        ),
        draft_persist_decision(d, created, actor, correlation, occurred, Some(false)) == Err::<bool, ControlPlaneError>(
            ControlPlaneError::IdempotencyConflict,
        ),
{
}

/// What the activation rules read of the bundle a state makes active.
#[derive(Debug, Clone, PartialEq, Eq)]
pub struct ActiveBundleFacts {
    pub draft_id: String,
    pub digest: ContentDigest,
    pub simulation_digest: ContentDigest,
    pub approved_by: String,
    pub policy_epoch: u64,
}

/// What the activation rules read of an activation request and its audit.
#[derive(Debug, Clone, PartialEq, Eq)]
pub struct ActivationFacts {
    pub draft_digest: ContentDigest,
    pub simulation_digest: ContentDigest,
    pub approved_by: String,
    pub approved_unix_ms: u64,
    pub expected_policy_epoch: u64,
    pub actor_id: String,
    pub occurred_unix_ms: u64,
}

/// The counters of a tenant's policy state.
#[derive(Debug, Clone, Copy, PartialEq, Eq, Structural)]
pub struct PolicyCounters {
    pub policy_epoch: u64,
    pub decision_cache_generation: u64,
}

pub const MSG_NO_ACTIVE_BUNDLE: &'static str = "activated policy state has no active bundle";

pub const MSG_ACTIVATION_EVIDENCE: &'static str = "policy activation evidence does not bind state, draft, and actor";

/// Two optional digests are the same.
pub open spec fn opt_digest_same(a: Option<ContentDigest>, b: Option<ContentDigest>) -> bool {
    match (a, b) {
        (None, None) => true,
        (Some(x), Some(y)) => x@ == y@,
        _ => false,
    }
}

fn opt_digest_eq(a: &Option<ContentDigest>, b: &Option<ContentDigest>) -> (res: bool)
    ensures
        res == opt_digest_same(*a, *b),
{
    match (a, b) {
        (None, None) => true,
        (Some(x), Some(y)) => digest_eq(x, y),
        _ => false,
    }
}

/// The activation evidence binds the new state, the draft and the actor:
/// the activated draft is the state's active bundle, approved by the actor
/// who is not its author, at the audited time.
pub open spec fn activation_evidence_ok(
    d: PolicyDraftFacts,
    state_tenant: Seq<char>,
    a: ActiveBundleFacts,
    x: ActivationFacts,
) -> bool {
    &&& d.status == PolicyDraftStatus::Activated
    &&& state_tenant == d.tenant_id@
    &&& a.draft_id@ == d.id@
    &&& a.digest@ == d.digest@
    &&& a.simulation_digest@ == x.simulation_digest@
    &&& x.draft_digest@ == d.digest@
    &&& a.approved_by@ == x.actor_id@
    &&& x.approved_by@ == x.actor_id@
    &&& d.author_id@ != x.actor_id@
    &&& x.occurred_unix_ms == x.approved_unix_ms
}

/// The stored draft is the shadow run of the same draft, and the actor did
/// not author it.
pub open spec fn stored_draft_activatable(old: PolicyDraftFacts, d: PolicyDraftFacts, actor: Seq<char>) -> bool {
    &&& old.status == PolicyDraftStatus::Shadow
    &&& old.digest@ == d.digest@
    &&& opt_digest_same(old.simulation_digest, d.simulation_digest)
    &&& old.author_id@ != actor
}

/// The new state moves the stored one on by exactly one policy epoch and one
/// cache generation, from the epoch the activation expected, with the
/// emergency denies unchanged.
pub open spec fn activation_counters_ok(
    current: PolicyCounters,
    state: PolicyCounters,
    a: ActiveBundleFacts,
    x: ActivationFacts,
    denies_unchanged: bool,
) -> bool {
    &&& x.expected_policy_epoch == current.policy_epoch
    &&& state.policy_epoch == current.policy_epoch + 1
    &&& state.decision_cache_generation == current.decision_cache_generation + 1
    &&& a.policy_epoch == current.policy_epoch + 1
    &&& denies_unchanged
}

/// How an activation decides. `active` is the state's active bundle;
/// `stored` the stored draft; `prior` whether an activation of this draft
/// is recorded already and, if so, whether it is this very one with the
/// same draft and state; `simulation` whether the simulation it names is
/// stored and, if so, whether it makes the draft eligible; `current` the
/// stored counters and `state` the new ones. `Ok(true)` when the
/// activation is to be written, `Ok(false)` when it replays.
pub open spec fn activation_decision(
    d: PolicyDraftFacts,
    state_tenant: Seq<char>,
    active: Option<ActiveBundleFacts>,
    x: ActivationFacts,
    stored: Option<PolicyDraftFacts>,
    prior: Option<bool>,
    simulation: Option<bool>,
    current: PolicyCounters,
    state: PolicyCounters,
    denies_unchanged: bool,
) -> Result<bool, ControlPlaneError> {
    match active {
        None => Err(ControlPlaneError::InvalidInput(MSG_NO_ACTIVE_BUNDLE)),
        Some(a) => if !activation_evidence_ok(d, state_tenant, a, x) {
            Err(ControlPlaneError::InvalidInput(MSG_ACTIVATION_EVIDENCE))
        } else {
            match stored {
                None => Err(ControlPlaneError::NotFound { kind: "policy draft", id: d.id }),
                Some(old) => match prior {
                    Some(identical) => if identical {
                        Ok(false)
                    } else {
                        Err(ControlPlaneError::IdempotencyConflict)
                    },
                    None => if !stored_draft_activatable(old, d, x.actor_id@) {
                        Err(ControlPlaneError::IdempotencyConflict)
                    } else {
                        match simulation {
                            None => Err(
                                ControlPlaneError::NotFound { kind: "eligible policy simulation", id: d.id },
                            ),
                            Some(eligible) => if !eligible {
                                Err(ControlPlaneError::IdempotencyConflict)
                            } else if current.policy_epoch == u64::MAX {
                                Err(ControlPlaneError::IntegerRange { field: "policy epoch" })
                            } else if current.decision_cache_generation == u64::MAX {
                                Err(
                                    ControlPlaneError::IntegerRange {
                                        field: "policy decision cache generation",
                                    },
                                )
                            } else if !activation_counters_ok(current, state, a, x, denies_unchanged) {
                                Err(ControlPlaneError::IdempotencyConflict)
                            } else {
                                Ok(true)
                            },
                        }
                    },
                },
            }
        }
    }
}

/// Decides a policy activation over the facts the store read.
pub fn decide_policy_activation(
    d: &PolicyDraftFacts,
    state_tenant: &str,
    active: &Option<ActiveBundleFacts>,
    x: &ActivationFacts,
    stored: &Option<PolicyDraftFacts>,
    prior: Option<bool>,
    simulation: Option<bool>,
    current: PolicyCounters,
    state: PolicyCounters,
    denies_unchanged: bool,
) -> (res: Result<bool, ControlPlaneError>)
    ensures
        res == activation_decision(
            *d,
            state_tenant@,
            *active,
            *x,
            *stored,
            prior,
            simulation,
            current,
            state,
            denies_unchanged,
        ),
{
    let a = match active {
        None => return Err(ControlPlaneError::InvalidInput(MSG_NO_ACTIVE_BUNDLE)),
        Some(a) => a,
    };
    if !(d.status == PolicyDraftStatus::Activated && text_eq(state_tenant, d.tenant_id.as_str())
        && text_eq(a.draft_id.as_str(), d.id.as_str()) && digest_eq(&a.digest, &d.digest)
        && digest_eq(&a.simulation_digest, &x.simulation_digest) && digest_eq(
        &x.draft_digest,
        &d.digest,
    ) && text_eq(a.approved_by.as_str(), x.actor_id.as_str()) && text_eq(
        x.approved_by.as_str(),
        x.actor_id.as_str(),
    ) && !text_eq(d.author_id.as_str(), x.actor_id.as_str()) && x.occurred_unix_ms
        == x.approved_unix_ms) {
        return Err(ControlPlaneError::InvalidInput(MSG_ACTIVATION_EVIDENCE));
    }
    let old = match stored {
        None => return Err(ControlPlaneError::NotFound { kind: "policy draft", id: d.id.clone() }),
        Some(old) => old,
    };
    if let Some(identical) = prior {
        if identical {
            return Ok(false);
        }
        return Err(ControlPlaneError::IdempotencyConflict);
    }
    if !(old.status == PolicyDraftStatus::Shadow && digest_eq(&old.digest, &d.digest) && opt_digest_eq(
        &old.simulation_digest,
        &d.simulation_digest,
    ) && !text_eq(old.author_id.as_str(), x.actor_id.as_str())) {
        return Err(ControlPlaneError::IdempotencyConflict);
    }
    let eligible = match simulation {
        None => return Err(
            ControlPlaneError::NotFound { kind: "eligible policy simulation", id: d.id.clone() },
        ),
        Some(e) => e,
    };
    if !eligible {
        return Err(ControlPlaneError::IdempotencyConflict);
    }
    let next_epoch = match current.policy_epoch.checked_add(1) {
        Some(e) => e,
        None => return Err(ControlPlaneError::IntegerRange { field: "policy epoch" }),
    };
    let next_cache = match current.decision_cache_generation.checked_add(1) {
        Some(c) => c,
        None => return Err(ControlPlaneError::IntegerRange { field: "policy decision cache generation" }),
    };
    if x.expected_policy_epoch != current.policy_epoch || state.policy_epoch != next_epoch
        || state.decision_cache_generation != next_cache || a.policy_epoch != next_epoch
        || !denies_unchanged {
        return Err(ControlPlaneError::IdempotencyConflict);
    }
    Ok(true)
}

/// How replacing the emergency denies decides. `unchanged` is whether the
/// stored state already equals the new one; `recorded` (read only then)
/// whether a replacement into the new state's cache generation is recorded
/// and, if so, whether it came from `expected` with the same denies;
/// `initial` whether the new state is the initial one (cache generation 0
/// and the default denies). Otherwise the new state must move the stored
/// cache generation on by one from `expected`, keep the epoch and the active
/// bundle, and change the denies. `Ok(true)` when the replacement is to be
/// written, `Ok(false)` when it replays.
pub open spec fn deny_replacement_decision(
    unchanged: bool,
    recorded: Option<bool>,
    initial: bool,
    expected: u64,
    current: PolicyCounters,
    state: PolicyCounters,
    same_active: bool,
    denies_changed: bool,
) -> Result<bool, ControlPlaneError> {
    if unchanged {
        if expected != state.decision_cache_generation {
            match recorded {
                None => Err(ControlPlaneError::IdempotencyConflict),
                Some(same) => if same {
                    Ok(false)
                } else {
                    Err(ControlPlaneError::IdempotencyConflict)
                },
            }
        } else if !initial {
            Err(ControlPlaneError::IdempotencyConflict)
        } else {
            Ok(false)
        }
    } else if current.decision_cache_generation == u64::MAX {
        Err(ControlPlaneError::IntegerRange { field: "policy decision cache generation" })
    } else if expected != current.decision_cache_generation || state.decision_cache_generation
        != current.decision_cache_generation + 1 || state.policy_epoch != current.policy_epoch
        || !same_active || !denies_changed {
        Err(ControlPlaneError::IdempotencyConflict)
    } else {
        Ok(true)
    }
}

/// Decides an emergency deny replacement over the facts the store read.
pub fn decide_deny_replacement(
    unchanged: bool,
    recorded: Option<bool>,
    initial: bool,
    expected: u64,
    current: PolicyCounters,
    state: PolicyCounters,
    same_active: bool,
    denies_changed: bool,
) -> (res: Result<bool, ControlPlaneError>)
    ensures
        res == deny_replacement_decision(
            unchanged,
            recorded,
            initial,
            expected,
            current,
            state,
            same_active,
            denies_changed,
        ),
{
    if unchanged {
        if expected != state.decision_cache_generation {
            return match recorded {
                None => Err(ControlPlaneError::IdempotencyConflict),
                Some(same) => if same {
                    Ok(false)
                } else {
                    Err(ControlPlaneError::IdempotencyConflict)
                },
            };
        }
        if !initial {
            return Err(ControlPlaneError::IdempotencyConflict);
        }
        return Ok(false);
    }
    let next = match current.decision_cache_generation.checked_add(1) {
        Some(n) => n,
        None => return Err(ControlPlaneError::IntegerRange { field: "policy decision cache generation" }),
    };
    if expected != current.decision_cache_generation || state.decision_cache_generation != next
        || state.policy_epoch != current.policy_epoch || !same_active || !denies_changed {
        return Err(ControlPlaneError::IdempotencyConflict);
    }
    Ok(true)
}

/// An activation is written once: after an activation was decided and
/// recorded, the identical request finds it recorded and replays, whatever
/// the store now holds of the draft's simulation and counters.
pub proof fn law_activation_replays(
    d: PolicyDraftFacts,
    state_tenant: Seq<char>,
    active: Option<ActiveBundleFacts>,
    x: ActivationFacts,
    stored: Option<PolicyDraftFacts>,
    simulation: Option<bool>,
    current: PolicyCounters,
    state: PolicyCounters,
    denies_unchanged: bool,
    stored_after: PolicyDraftFacts,
    simulation_after: Option<bool>,
    current_after: PolicyCounters,
)
    requires
        activation_decision(d, state_tenant, active, x, stored, None, simulation, current, state, denies_unchanged)
            == Ok::<bool, ControlPlaneError>(true),
    ensures
        activation_decision(
            d,
            state_tenant,
            active,
            x,
            Some(stored_after),
            Some(true),
            simulation_after,
            current_after,
            state,
            denies_unchanged,
        ) == Ok::<bool, ControlPlaneError>(false),
{
}

/// A deny replacement is written once: after a replacement was decided and
/// written, the stored state is the new one and the replacement is recorded,
/// so the identical request replays.
pub proof fn law_deny_replacement_replays(
    recorded: Option<bool>,
    initial: bool,
    expected: u64,
    current: PolicyCounters,
    state: PolicyCounters,
    same_active: bool,
    denies_changed: bool,
    initial_after: bool,
)
    requires
        deny_replacement_decision(false, recorded, initial, expected, current, state, same_active, denies_changed)
            == Ok::<bool, ControlPlaneError>(true),
    ensures
        deny_replacement_decision(true, Some(true), initial_after, expected, state, state, true, false)
            == Ok::<bool, ControlPlaneError>(false),
{
}

/// The policy counters only move forward one step at a time: a written
/// activation advances the epoch and the cache generation by exactly one,
/// and a written deny replacement advances the cache generation by exactly
/// one and keeps the epoch.
pub proof fn law_policy_counters_advance_by_one(
    d: PolicyDraftFacts,
    state_tenant: Seq<char>,
    active: Option<ActiveBundleFacts>,
    x: ActivationFacts,
    stored: Option<PolicyDraftFacts>,
    prior: Option<bool>,
    simulation: Option<bool>,
    unchanged: bool,
    recorded: Option<bool>,
    initial: bool,
    expected: u64,
    current: PolicyCounters,
    state: PolicyCounters,
    same_active: bool,
    denies_unchanged: bool,
    denies_changed: bool,
)
    ensures
        activation_decision(d, state_tenant, active, x, stored, prior, simulation, current, state, denies_unchanged)
            == Ok::<bool, ControlPlaneError>(true) ==> state.policy_epoch == current.policy_epoch + 1
            && state.decision_cache_generation == current.decision_cache_generation + 1
            && d.status == PolicyDraftStatus::Activated && stored.unwrap().status
            == PolicyDraftStatus::Shadow && d.author_id@ != x.actor_id@,
        deny_replacement_decision(unchanged, recorded, initial, expected, current, state, same_active, denies_changed)
            == Ok::<bool, ControlPlaneError>(true) ==> state.decision_cache_generation
            == current.decision_cache_generation + 1 && state.policy_epoch == current.policy_epoch
            && expected == current.decision_cache_generation,
{
}

/// What the simulation rules read of a simulation report.
#[derive(Debug, Clone, PartialEq, Eq)]
pub struct SimulationReportFacts {
    pub report_digest: ContentDigest,
    pub policy_digest: ContentDigest,
    pub results: u64,
    pub stored_case_count: u64,
    pub caller_case_count: u64,
    pub evaluation_error_count: u64,
    pub expectation_mismatch_count: u64,
}

pub const MSG_SIMULATION_BINDING: &'static str = "policy simulation does not bind the stored draft";

/// The most stored and caller cases a simulation runs.
pub const MAX_STORED_CASES: u64 = 1024;

pub const MAX_CALLER_CASES: u64 = 128;

/// `a + b`, saturated at the largest `u64`.
pub open spec fn saturating_sum(a: u64, b: u64) -> int {
    if a + b > u64::MAX {
        u64::MAX as int
    } else {
        a + b
    }
}

/// The report is the simulation of the draft it is stored with: the draft
/// is simulated with this report, the report covers the draft, and it has a
/// result for each of its bounded cases.
pub open spec fn simulation_binds(d: PolicyDraftFacts, r: SimulationReportFacts) -> bool {
    &&& d.status == PolicyDraftStatus::Simulated
    &&& d.simulation_digest matches Some(s) && s@ == r.report_digest@
    &&& d.digest@ == r.policy_digest@
    &&& r.results == saturating_sum(r.stored_case_count, r.caller_case_count)
    &&& r.stored_case_count <= MAX_STORED_CASES
    &&& r.caller_case_count <= MAX_CALLER_CASES
}

/// The stored draft may take the step: same draft and author, at a status
/// the step may start from.
pub open spec fn stored_draft_steps(old: PolicyDraftFacts, d: PolicyDraftFacts, step: PolicyStep) -> bool {
    &&& old.digest@ == d.digest@
    &&& old.author_id@ == d.author_id@
    &&& step_allowed_from(step, old.status)
}

/// How storing a simulation decides. `stored` is the stored draft;
/// `prior` whether a report with this digest is stored for the draft and,
/// if so, whether it is this very report with the draft unchanged.
/// `Ok(true)` when the simulation is to be written, `Ok(false)` when it
/// replays.
pub open spec fn simulation_decision(
    d: PolicyDraftFacts,
    r: SimulationReportFacts,
    stored: Option<PolicyDraftFacts>,
    prior: Option<bool>,
    occurred: u64,
) -> Result<bool, ControlPlaneError> {
    if !simulation_binds(d, r) {
        Err(ControlPlaneError::InvalidInput(MSG_SIMULATION_BINDING))
    } else {
        match stored {
            None => Err(ControlPlaneError::NotFound { kind: "policy draft", id: d.id }),
            Some(old) => if !stored_draft_steps(old, d, PolicyStep::Simulate) {
                Err(ControlPlaneError::IdempotencyConflict)
            } else {
                match prior {
                    Some(identical) => if identical {
                        Ok(false)
                    } else {
                        Err(ControlPlaneError::IdempotencyConflict)
                    },
                    None => if r.stored_case_count > i64::MAX {
                        Err(ControlPlaneError::IntegerRange { field: "stored simulation count" })
                    } else if r.caller_case_count > i64::MAX {
                        Err(ControlPlaneError::IntegerRange { field: "caller simulation count" })
                    } else if r.evaluation_error_count > i64::MAX {
                        Err(ControlPlaneError::IntegerRange { field: "simulation error count" })
                    } else if r.expectation_mismatch_count > i64::MAX {
                        Err(ControlPlaneError::IntegerRange { field: "simulation mismatch count" })
                    } else if occurred > i64::MAX {
                        Err(ControlPlaneError::IntegerRange { field: "policy simulation time" })
                    } else {
                        Ok(true)
                    },
                }
            },
        }
    }
}

fn stored_draft_steps_exec(old: &PolicyDraftFacts, d: &PolicyDraftFacts, step: PolicyStep) -> (res: bool)
    ensures
        res == stored_draft_steps(*old, *d, step),
{
    digest_eq(&old.digest, &d.digest) && text_eq(old.author_id.as_str(), d.author_id.as_str())
        && policy_step_allowed(step, old.status)
}

const I64_MAX: u64 = 0x7fff_ffff_ffff_ffff;

/// Decides whether a simulation is stored over the facts the store read.
pub fn decide_simulation_persist(
    d: &PolicyDraftFacts,
    r: &SimulationReportFacts,
    stored: &Option<PolicyDraftFacts>,
    prior: Option<bool>,
    occurred: u64,
) -> (res: Result<bool, ControlPlaneError>)
    ensures
        res == simulation_decision(*d, *r, *stored, prior, occurred),
{
    let same_report = match &d.simulation_digest {
        Some(s) => digest_eq(s, &r.report_digest),
        None => false,
    };
    let total = r.stored_case_count.saturating_add(r.caller_case_count);
    if !(d.status == PolicyDraftStatus::Simulated && same_report && digest_eq(&d.digest, &r.policy_digest)
        && r.results == total && r.stored_case_count <= MAX_STORED_CASES && r.caller_case_count
        <= MAX_CALLER_CASES) {
        return Err(ControlPlaneError::InvalidInput(MSG_SIMULATION_BINDING));
    }
    let old = match stored {
        None => return Err(ControlPlaneError::NotFound { kind: "policy draft", id: d.id.clone() }),
        Some(old) => old,
    };
    if !stored_draft_steps_exec(old, d, PolicyStep::Simulate) {
        return Err(ControlPlaneError::IdempotencyConflict);
    }
    if let Some(identical) = prior {
        if identical {
            return Ok(false);
        }
        return Err(ControlPlaneError::IdempotencyConflict);
    }
    if r.stored_case_count > I64_MAX {
        return Err(ControlPlaneError::IntegerRange { field: "stored simulation count" });
    }
    if r.caller_case_count > I64_MAX {
        return Err(ControlPlaneError::IntegerRange { field: "caller simulation count" });
    }
    if r.evaluation_error_count > I64_MAX {
        return Err(ControlPlaneError::IntegerRange { field: "simulation error count" });
    }
    if r.expectation_mismatch_count > I64_MAX {
        return Err(ControlPlaneError::IntegerRange { field: "simulation mismatch count" });
    }
    if occurred > I64_MAX {
        return Err(ControlPlaneError::IntegerRange { field: "policy simulation time" });
    }
    Ok(true)
}

/// What the shadow rules read of a shadow report.
#[derive(Debug, Clone, PartialEq, Eq)]
pub struct ShadowReportFacts {
    pub shadow_policy_digest: ContentDigest,
    pub results: u64,
    pub policy_epoch: u64,
    pub active_policy_digest: Option<ContentDigest>,
}

pub const MSG_SHADOW_STATE: &'static str = "policy shadow record requires shadow draft state";

pub const MSG_SHADOW_BINDING: &'static str = "policy shadow report does not bind the draft";

/// The most cases a shadow report holds.
pub const MAX_SHADOW_CASES: u64 = 512;

/// How storing a shadow run decides. `report` is the shadow report, if
/// one comes with it; `epoch` and `active_digest` are the tenant's current
/// policy epoch and active bundle digest; `prior` whether the report is
/// stored already and, if so, whether with the draft unchanged;
/// `unchanged` whether the stored draft equals the new one. `Ok(true)` when
/// the shadow run is to be written, `Ok(false)` when it replays.
pub open spec fn shadow_decision(
    d: PolicyDraftFacts,
    report: Option<ShadowReportFacts>,
    stored: Option<PolicyDraftFacts>,
    epoch: u64,
    active_digest: Option<ContentDigest>,
    prior: Option<bool>,
    unchanged: bool,
    occurred: u64,
) -> Result<bool, ControlPlaneError> {
    if d.status != PolicyDraftStatus::Shadow {
        Err(ControlPlaneError::InvalidInput(MSG_SHADOW_STATE))
    } else {
        match stored {
            None => Err(ControlPlaneError::NotFound { kind: "policy draft", id: d.id }),
            Some(old) => if !stored_draft_steps(old, d, PolicyStep::Shadow) {
                Err(ControlPlaneError::IdempotencyConflict)
            } else {
                match report {
                    Some(r) => if r.shadow_policy_digest@ != d.digest@ || r.results == 0 || r.results
                        > MAX_SHADOW_CASES {
                        Err(ControlPlaneError::InvalidInput(MSG_SHADOW_BINDING))
                    } else if r.policy_epoch != epoch || !opt_digest_same(
                        r.active_policy_digest,
                        active_digest,
                    ) {
                        Err(ControlPlaneError::IdempotencyConflict)
                    } else {
                        match prior {
                            Some(identical) => if identical {
                                Ok(false)
                            } else {
                                Err(ControlPlaneError::IdempotencyConflict)
                            },
                            None => if r.policy_epoch > i64::MAX {
                                Err(ControlPlaneError::IntegerRange { field: "policy epoch" })
                            } else if occurred > i64::MAX {
                                Err(ControlPlaneError::IntegerRange { field: "policy shadow time" })
                            } else {
                                Ok(true)
                            },
                        }
                    },
                    None => if unchanged {
                        Ok(false)
                    } else if occurred > i64::MAX {
                        Err(ControlPlaneError::IntegerRange { field: "policy shadow time" })
                    } else {
                        Ok(true)
                    },
                }
            },
        }
    }
}

/// Shadow runs repeat: a shadow run on a draft already in shadow is decided
/// exactly as the first one on the simulated draft, so a further or replayed
/// shadow report is never refused for the stored draft's status; likewise a
/// simulation repeats on a simulated draft. Only activation does not repeat.
pub proof fn law_policy_steps_repeat(
    d: PolicyDraftFacts,
    report: Option<ShadowReportFacts>,
    old: PolicyDraftFacts,
    epoch: u64,
    active_digest: Option<ContentDigest>,
    prior: Option<bool>,
    unchanged: bool,
    occurred: u64,
    sim: SimulationReportFacts,
    sim_prior: Option<bool>,
)
    ensures
        shadow_decision(
            d,
            report,
            Some(PolicyDraftFacts { status: PolicyDraftStatus::Shadow, ..old }),
            epoch,
            active_digest,
            prior,
            unchanged,
            occurred,
        ) == shadow_decision(
            d,
            report,
            Some(PolicyDraftFacts { status: PolicyDraftStatus::Simulated, ..old }),
            epoch,
            active_digest,
            prior,
            unchanged,
            occurred,
        ),
        simulation_decision(d, sim, Some(PolicyDraftFacts { status: PolicyDraftStatus::Simulated, ..old }), sim_prior, occurred)
            == simulation_decision(d, sim, Some(PolicyDraftFacts { status: PolicyDraftStatus::Draft, ..old }), sim_prior, occurred),
        step_allowed_from(PolicyStep::Shadow, PolicyDraftStatus::Shadow),
        step_allowed_from(PolicyStep::Simulate, PolicyDraftStatus::Simulated),
        !step_allowed_from(PolicyStep::Activate, PolicyDraftStatus::Activated),
        step_allowed_from(PolicyStep::Activate, PolicyDraftStatus::Shadow),
        step_allowed_from(PolicyStep::Simulate, PolicyDraftStatus::Draft),
        step_allowed_from(PolicyStep::Shadow, PolicyDraftStatus::Simulated),
        !step_allowed_from(PolicyStep::Simulate, PolicyDraftStatus::Shadow),
        !step_allowed_from(PolicyStep::Shadow, PolicyDraftStatus::Draft),
        !step_allowed_from(PolicyStep::Activate, PolicyDraftStatus::Simulated),
{
}

/// Decides whether a shadow run is stored over the facts the store read.
pub fn decide_shadow_persist(
    d: &PolicyDraftFacts,
    report: &Option<ShadowReportFacts>,
    stored: &Option<PolicyDraftFacts>,
    epoch: u64,
    active_digest: &Option<ContentDigest>,
    prior: Option<bool>,
    unchanged: bool,
    occurred: u64,
) -> (res: Result<bool, ControlPlaneError>)
    ensures
        res == shadow_decision(*d, *report, *stored, epoch, *active_digest, prior, unchanged, occurred),
{
    if d.status != PolicyDraftStatus::Shadow {
        return Err(ControlPlaneError::InvalidInput(MSG_SHADOW_STATE));
    }
    let old = match stored {
        None => return Err(ControlPlaneError::NotFound { kind: "policy draft", id: d.id.clone() }),
        Some(old) => old,
    };
    if !stored_draft_steps_exec(old, d, PolicyStep::Shadow) {
        return Err(ControlPlaneError::IdempotencyConflict);
    }
    match report {
        Some(r) => {
            if !digest_eq(&r.shadow_policy_digest, &d.digest) || r.results == 0 || r.results
                > MAX_SHADOW_CASES {
                return Err(ControlPlaneError::InvalidInput(MSG_SHADOW_BINDING));
            }
            if r.policy_epoch != epoch || !opt_digest_eq(&r.active_policy_digest, active_digest) {
                return Err(ControlPlaneError::IdempotencyConflict);
            }
            if let Some(identical) = prior {
                if identical {
                    return Ok(false);
                }
                return Err(ControlPlaneError::IdempotencyConflict);
            }
            if r.policy_epoch > I64_MAX {
                return Err(ControlPlaneError::IntegerRange { field: "policy epoch" });
            }
            if occurred > I64_MAX {
                return Err(ControlPlaneError::IntegerRange { field: "policy shadow time" });
            }
            Ok(true)
        },
        None => {
            if unchanged {
                return Ok(false);
            }
            if occurred > I64_MAX {
                return Err(ControlPlaneError::IntegerRange { field: "policy shadow time" });
            }
            Ok(true)
        },
    }
}

} // verus!
