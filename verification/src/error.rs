//! The error type of every fallible operation of the library.

use crate::digest::ContentDigest;
use vstd::prelude::*;

verus! {

/// Why an operation on the control-plane stores was refused.
#[derive(Debug, Clone, PartialEq, Eq)]
pub enum ControlPlaneError {
    /// The request itself is malformed; the text says which rule it breaks.
    InvalidInput(&'static str),
    /// A referenced record does not exist (or is not visible to the tenant).
    NotFound { kind: &'static str, id: String },
    /// Durable state breaks an invariant the store keeps; the text says which.
    CorruptState(&'static str),
    /// A durable state name that no state of the given kind has.
    UnknownState { kind: &'static str, value: String },
    /// A number does not fit the durable or in-memory integer type.
    IntegerRange { field: &'static str },
    /// An idempotency key or exact-replay identity was reused for a different request.
    IdempotencyConflict,
    /// An optimistic configuration-project update saw another version.
    ConfigurationProjectVersionConflict { id: String, expected: u64, actual: u64 },
    /// Several configuration projects bind a secret of the same name.
    AmbiguousSecretResolution { name: String, project_ids: Vec<String> },
    /// A GitHub lifecycle delivery is no longer leased to the caller.
    GitHubLifecycleLeaseLost,
    /// A runner request does not match its lease, ticket or fence.
    RunnerBrokerBindingMismatch,
    /// A GitHub App setup transaction is unknown to the caller, or not in a
    /// state that allows the step.
    InvalidGitHubSetupState,
    /// A state change that the state machine does not allow.
    InvalidTransition { entity: &'static str, from: &'static str, to: &'static str },
    /// A durable task is not claimed by the caller.
    TaskNotOwned,
    /// A durable task is not claimed by the caller under a live lease.
    TaskLeaseExpired,
    /// The installation is in safe mode: no task may make progress.
    InstallationSafeMode,
    /// The step needs an approval that is not granted.
    ApprovalRequired,
    /// An OIDC grant no longer matches the live lease it was issued for.
    StaleOidcGrant,
    /// More than one repository has the owner and name asked for.
    AmbiguousRepositoryIdentity { owner: String, name: String },
    /// Content does not hash to the digest it was submitted with.
    CapsuleDigestMismatch { expected: ContentDigest, actual: ContentDigest },
}

pub const MSG_TEXT: &'static str = "empty, oversized, or NUL text";

pub const MSG_IDEMPOTENCY_KEY: &'static str = "invalid idempotency key";

} // verus!
