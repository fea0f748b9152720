//! Configuration requests: project writes, secret metadata, secret creation
//! and rotation, variable writes, and the precedence that selects a secret
//! among its scopes.

use crate::bytes::{bytes_eq, contains_byte, push_bytes, str_is};
use crate::digest::{content_digest_sha256, sha256_text, ContentDigest};
use crate::json::{canonical_json, canonical_json_bytes, json_string, push_json_string};
use crate::error::{ControlPlaneError, MSG_IDEMPOTENCY_KEY, MSG_TEXT};
use crate::policy::IdempotentResult;
use crate::runs::str_bytes;
use vstd::prelude::*;
use vstd::string::{StringExecFns, StringSliceAdditionalSpecFns};

verus! {

/// Configuration text is non-empty, at most 64 KiB and free of NUL.
pub open spec fn text_value_check(b: Seq<u8>) -> Result<(), ControlPlaneError> {
    if b.len() == 0 || b.len() > 65536 || b.contains(0u8) {
        Err(ControlPlaneError::InvalidInput(MSG_TEXT))
    } else {
        Ok(())
    }
}

pub fn validate_text_value(value: &str) -> (res: Result<(), ControlPlaneError>)
    ensures
        res == text_value_check(value.spec_bytes()),
{
    let b = value.as_bytes();
    if b.len() == 0 || b.len() > 65536 || contains_byte(b, 0u8) {
        return Err(ControlPlaneError::InvalidInput(MSG_TEXT));
    }
    Ok(())
}

/// A configuration idempotency key is non-empty, at most 1024 bytes and free
/// of NUL.
pub open spec fn idempotency_check(b: Seq<u8>) -> Result<(), ControlPlaneError> {
    if b.len() == 0 || b.len() > 1024 || b.contains(0u8) {
        Err(ControlPlaneError::InvalidInput(MSG_IDEMPOTENCY_KEY))
    } else {
        Ok(())
    }
}

pub fn validate_idempotency(value: &str) -> (res: Result<(), ControlPlaneError>)
    ensures
        res == idempotency_check(value.spec_bytes()),
{
    let b = value.as_bytes();
    if b.len() == 0 || b.len() > 1024 || contains_byte(b, 0u8) {
        return Err(ControlPlaneError::InvalidInput(MSG_IDEMPOTENCY_KEY));
    }
    Ok(())
}

/// What a configuration project is bound to.
#[derive(Debug, Clone, Copy, PartialEq, Eq, Structural)]
pub enum ConfigurationProjectTargetKind {
    Repository,
    ScmAccount,
}

impl ConfigurationProjectTargetKind {
    /// The durable name of the target kind.
    pub fn as_str(&self) -> (res: &'static str)
        ensures
            res == (match *self {
                ConfigurationProjectTargetKind::Repository => "repository",
                ConfigurationProjectTargetKind::ScmAccount => "scm_account",
            }),
    {
        match self {
            ConfigurationProjectTargetKind::Repository => "repository",
            ConfigurationProjectTargetKind::ScmAccount => "scm_account",
        }
    }
}

/// A repository or SCM account that a configuration project applies to.
#[derive(Debug, Clone, PartialEq, Eq)]
pub struct ConfigurationProjectTarget {
    pub kind: ConfigurationProjectTargetKind,
    pub id: String,
    pub created_unix_ms: u64,
}

/// An optimistic write of a configuration project.
#[derive(Debug, Clone, PartialEq, Eq)]
pub struct PutConfigurationProject {
    pub id: String,
    pub tenant_id: String,
    pub name: String,
    pub description: String,
    pub status: String,
    pub expected_version: u64,
    pub targets: Vec<ConfigurationProjectTarget>,
    pub updated_unix_ms: u64,
}

pub const MSG_PROJECT: &'static str = "invalid configuration project";

pub const MSG_PROJECT_TARGETS: &'static str = "invalid configuration project targets";

pub open spec fn project_status_known(b: Seq<u8>) -> bool {
    b == "active".spec_bytes() || b == "archived".spec_bytes()
}

/// The check of target `k`, given the targets before it.
pub open spec fn project_target_check(input: PutConfigurationProject, k: int) -> Result<
    (),
    ControlPlaneError,
> {
    let t = input.targets@[k];
    match text_value_check(str_bytes(t.id)) {
        Err(e) => Err(e),
        Ok(()) => if t.created_unix_ms > input.updated_unix_ms || exists|j: int|
            0 <= j < k && (#[trigger] input.targets@[j]).kind == t.kind && str_bytes(
                input.targets@[j].id,
            ) == str_bytes(t.id) {
            Err(ControlPlaneError::InvalidInput(MSG_PROJECT_TARGETS))
        } else {
            Ok(())
        },
    }
}

pub open spec fn project_targets_check(input: PutConfigurationProject, n: nat) -> Result<
    (),
    ControlPlaneError,
>
    decreases n,
{
    if n == 0 {
        Ok(())
    } else {
        match project_targets_check(input, (n - 1) as nat) {
            Err(e) => Err(e),
            Ok(()) => project_target_check(input, n - 1),
        }
    }
}

/// What `validate_project` decides: text identity fields, a description of at
/// most 8 KiB, an `active` or `archived` status, and targets with valid ids,
/// created no later than the update, and no (kind, id) pair twice.
pub open spec fn project_check(input: PutConfigurationProject) -> Result<(), ControlPlaneError> {
    match text_value_check(str_bytes(input.id)) {
        Err(e) => Err(e),
        Ok(()) => match text_value_check(str_bytes(input.tenant_id)) {
            Err(e) => Err(e),
            Ok(()) => match text_value_check(str_bytes(input.name)) {
                Err(e) => Err(e),
                Ok(()) => if str_bytes(input.description).len() > 8192 || !project_status_known(
                    str_bytes(input.status),
                ) {
                    Err(ControlPlaneError::InvalidInput(MSG_PROJECT))
                } else {
                    project_targets_check(input, input.targets@.len())
                },
            },
        },
    }
}

proof fn lemma_targets_check_stops(input: PutConfigurationProject, n: nat, m: nat)
    requires
        n < m,
        project_targets_check(input, n) == Ok::<(), ControlPlaneError>(()),
        project_target_check(input, n as int) is Err,
    ensures
        project_targets_check(input, m) == project_target_check(input, n as int),
    decreases m,
{
    if m > n + 1 {
        lemma_targets_check_stops(input, n, (m - 1) as nat);
    }
}

/// A valid project write names each (kind, target id) pair once.
pub proof fn lemma_valid_project_targets_distinct(input: PutConfigurationProject, n: nat)
    requires
        n <= input.targets@.len(),
        project_targets_check(input, n) == Ok::<(), ControlPlaneError>(()),
    ensures
        forall|i: int, j: int|
            0 <= i < j < n ==> !(input.targets@[i].kind == input.targets@[j].kind && str_bytes(
                input.targets@[i].id,
            ) == str_bytes(input.targets@[j].id)),
    decreases n,
{
    if n > 0 {
        lemma_valid_project_targets_distinct(input, (n - 1) as nat);
        assert(project_target_check(input, n - 1) == Ok::<(), ControlPlaneError>(()));
        assert forall|i: int, j: int|
            0 <= i < j < n implies !(input.targets@[i].kind == input.targets@[j].kind && str_bytes(
            input.targets@[i].id,
        ) == str_bytes(input.targets@[j].id)) by {
            if j == n - 1 {
                if input.targets@[i].kind == input.targets@[j].kind && str_bytes(input.targets@[i].id)
                    == str_bytes(input.targets@[j].id) {
                    assert(input.targets@[i] == input.targets@[i]);
                }
            }
        }
    }
}

/// Validates a configuration project write before it touches storage.
pub fn validate_project(input: &PutConfigurationProject) -> (res: Result<(), ControlPlaneError>)
    ensures
        res == project_check(*input),
{
    validate_text_value(input.id.as_str())?;
    validate_text_value(input.tenant_id.as_str())?;
    validate_text_value(input.name.as_str())?;
    if input.description.as_str().as_bytes().len() > 8192 || !(str_is(
        input.status.as_str(),
        "active",
    ) || str_is(input.status.as_str(), "archived")) {
        return Err(ControlPlaneError::InvalidInput(MSG_PROJECT));
    }
    let targets = &input.targets;
    let mut k: usize = 0;
    while k < targets.len()
        invariant
            0 <= k <= targets@.len(),
            targets == input.targets,
            project_check(*input) == project_targets_check(*input, targets@.len()),
            project_targets_check(*input, k as nat) == Ok::<(), ControlPlaneError>(()),
        decreases targets@.len() - k,
    {
        proof {
            if project_target_check(*input, k as int) is Err {
                lemma_targets_check_stops(*input, k as nat, targets@.len());
            }
        }
        validate_text_value(targets[k].id.as_str())?;
        if targets[k].created_unix_ms > input.updated_unix_ms {
            return Err(ControlPlaneError::InvalidInput(MSG_PROJECT_TARGETS));
        }
        let mut j: usize = 0;
        while j < k
            invariant
                0 <= j <= k < targets@.len(),
                targets == input.targets,
                project_check(*input) == project_targets_check(*input, targets@.len()),
                project_targets_check(*input, k as nat) == Ok::<(), ControlPlaneError>(()),
                text_value_check(str_bytes(targets@[k as int].id)) == Ok::<(), ControlPlaneError>(
                    (),
                ),
                targets@[k as int].created_unix_ms <= input.updated_unix_ms,
                forall|i: int|
                    0 <= i < j ==> !((#[trigger] targets@[i]).kind == targets@[k as int].kind
                        && str_bytes(targets@[i].id) == str_bytes(targets@[k as int].id)),
            decreases k - j,
        {
            if targets[j].kind == targets[k].kind && str_is(
                targets[j].id.as_str(),
                targets[k].id.as_str(),
            ) {
                proof {
                    assert(project_target_check(*input, k as int) is Err);
                    lemma_targets_check_stops(*input, k as nat, targets@.len());
                }
                return Err(ControlPlaneError::InvalidInput(MSG_PROJECT_TARGETS));
            }
            j += 1;
        }
        proof {
            assert(project_target_check(*input, k as int) == Ok::<(), ControlPlaneError>(()));
        }
        k += 1;
    }
    Ok(())
}

/// The version conflict of an optimistic project write that found `actual`.
pub fn project_conflict(input: &PutConfigurationProject, actual: u64) -> (res: ControlPlaneError)
    ensures
        res == (ControlPlaneError::ConfigurationProjectVersionConflict {
            id: input.id,
            expected: input.expected_version,
            actual,
        }),
{
    ControlPlaneError::ConfigurationProjectVersionConflict {
        id: input.id.clone(),
        expected: input.expected_version,
        actual,
    }
}

/// The error for a missing configuration record of the given kind.
pub fn pg_not_found(kind: &'static str, id: &str) -> (res: ControlPlaneError)
    ensures
        res matches ControlPlaneError::NotFound { kind: k, id: i } && k == kind && i@ == id@,
{
    ControlPlaneError::NotFound { kind, id: id.to_owned() }
}

pub const MSG_SECRET_METADATA: &'static str = "invalid secret metadata";

/// The metadata of a secret, without its value.
#[derive(Debug, Clone, PartialEq, Eq)]
pub struct SecretMetadataReference {
    pub id: String,
    pub tenant_id: String,
    pub scope: String,
    pub name: String,
    pub provider: String,
    pub provider_reference: Option<String>,
    pub secret_type: String,
    pub status: String,
    pub current_version: Option<u64>,
    pub created_unix_ms: u64,
    pub updated_unix_ms: u64,
}

pub open spec fn chain_check(first: Result<(), ControlPlaneError>, rest: Result<(), ControlPlaneError>) -> Result<
    (),
    ControlPlaneError,
> {
    match first {
        Err(e) => Err(e),
        Ok(()) => rest,
    }
}

/// What `validate_secret_metadata` decides: every text field valid, in field
/// order, then a non-zero current version and an update no earlier than the
/// creation.
pub open spec fn secret_metadata_check(v: SecretMetadataReference) -> Result<(), ControlPlaneError> {
    chain_check(
        text_value_check(str_bytes(v.id)),
        chain_check(
            text_value_check(str_bytes(v.tenant_id)),
            chain_check(
                text_value_check(str_bytes(v.scope)),
                chain_check(
                    text_value_check(str_bytes(v.name)),
                    chain_check(
                        text_value_check(str_bytes(v.provider)),
                        chain_check(
                            text_value_check(str_bytes(v.secret_type)),
                            chain_check(
                                text_value_check(str_bytes(v.status)),
                                chain_check(
                                    match v.provider_reference {
                                        Some(r) => text_value_check(str_bytes(r)),
                                        None => Ok(()),
                                    },
                                    if v.current_version == Some(0u64) || v.updated_unix_ms
                                        < v.created_unix_ms {
                                        Err(ControlPlaneError::InvalidInput(MSG_SECRET_METADATA))
                                    } else {
                                        Ok(())
                                    },
                                ),
                            ),
                        ),
                    ),
                ),
            ),
        ),
    )
}

/// Validates secret metadata before it is stored.
pub fn validate_secret_metadata(value: &SecretMetadataReference) -> (res: Result<
    (),
    ControlPlaneError,
>)
    ensures
        res == secret_metadata_check(*value),
{
    validate_text_value(value.id.as_str())?;
    validate_text_value(value.tenant_id.as_str())?;
    validate_text_value(value.scope.as_str())?;
    validate_text_value(value.name.as_str())?;
    validate_text_value(value.provider.as_str())?;
    validate_text_value(value.secret_type.as_str())?;
    validate_text_value(value.status.as_str())?;
    match &value.provider_reference {
        Some(reference) => {
            validate_text_value(reference.as_str())?;
        },
        None => {},
    }
    let zero_version = match value.current_version {
        Some(v) => v == 0,
        None => false,
    };
    if zero_version || value.updated_unix_ms < value.created_unix_ms {
        return Err(ControlPlaneError::InvalidInput(MSG_SECRET_METADATA));
    }
    Ok(())
}

/// The scopes a secret can be defined at.
#[derive(Debug, Clone, Copy, PartialEq, Eq, Structural)]
pub enum SecretScopeKind {
    Repository,
    Project,
    ScmAccount,
    Workspace,
}

/// A scope a secret is defined at.
#[derive(Debug, Clone, PartialEq, Eq)]
pub struct SecretScope {
    pub kind: SecretScopeKind,
    pub id: String,
}

/// An active secret of the requested name at one scope.
#[derive(Debug, Clone, PartialEq, Eq)]
pub struct SecretResolutionCandidate {
    pub scope: SecretScope,
    pub metadata_id: String,
    pub version: Option<u64>,
}

pub open spec fn same_candidate(a: SecretResolutionCandidate, b: SecretResolutionCandidate) -> bool {
    &&& a.scope.kind == b.scope.kind
    &&& a.scope.id@ == b.scope.id@
    &&& a.metadata_id@ == b.metadata_id@
    &&& a.version == b.version
}

fn candidate_eq(a: &SecretResolutionCandidate, b: &SecretResolutionCandidate) -> (res: bool)
    ensures
        res == same_candidate(*a, *b),
{
    let same_version = match (a.version, b.version) {
        (Some(x), Some(y)) => x == y,
        (None, None) => true,
        _ => false,
    };
    a.scope.kind == b.scope.kind && a.scope.id == b.scope.id && a.metadata_id == b.metadata_id
        && same_version
}

fn clone_candidate(c: &SecretResolutionCandidate) -> (res: SecretResolutionCandidate)
    ensures
        res == *c,
{
    SecretResolutionCandidate {
        scope: SecretScope { kind: c.scope.kind, id: c.scope.id.clone() },
        metadata_id: c.metadata_id.clone(),
        version: c.version,
    }
}

/// The selected secret and the candidates it shadows.
#[derive(Debug, Clone, PartialEq, Eq)]
pub struct SecretSelection {
    pub selected: SecretResolutionCandidate,
    pub shadowed: Vec<SecretResolutionCandidate>,
}

pub open spec fn option_seq(o: Option<SecretResolutionCandidate>) -> Seq<SecretResolutionCandidate> {
    match o {
        Some(c) => seq![c],
        None => Seq::empty(),
    }
}

/// The candidates of `s` that are not `selected`, in order.
pub open spec fn without_candidate(
    s: Seq<SecretResolutionCandidate>,
    selected: SecretResolutionCandidate,
) -> Seq<SecretResolutionCandidate>
    decreases s.len(),
{
    if s.len() == 0 {
        Seq::empty()
    } else {
        let rest = without_candidate(s.drop_last(), selected);
        if same_candidate(s.last(), selected) {
            rest
        } else {
            rest.push(s.last())
        }
    }
}

/// The precedence of secret scopes: the repository first, then the one
/// project bound to the repository or SCM account (several are ambiguous when
/// the repository defines none), then the SCM account, then the workspace.
pub open spec fn selected_candidate(
    repository: Option<SecretResolutionCandidate>,
    projects: Seq<SecretResolutionCandidate>,
    scm_account: Option<SecretResolutionCandidate>,
    workspace: Option<SecretResolutionCandidate>,
) -> Option<SecretResolutionCandidate> {
    if repository is Some {
        repository
    } else if projects.len() > 0 {
        Some(projects[0])
    } else if scm_account is Some {
        scm_account
    } else {
        workspace
    }
}

/// Scope precedence: a more specific scope always shadows a less specific
/// one. A repository secret wins over everything; without one, the project
/// secret; without either, the SCM account secret, whatever workspace secret
/// there is; the workspace secret only when no other scope has one.
pub proof fn law_secret_scope_precedence(
    repository: Option<SecretResolutionCandidate>,
    projects: Seq<SecretResolutionCandidate>,
    scm_account: Option<SecretResolutionCandidate>,
    workspace: Option<SecretResolutionCandidate>,
)
    ensures
        repository is Some ==> selected_candidate(repository, projects, scm_account, workspace) == repository,
        repository is None && projects.len() > 0 ==> selected_candidate(repository, projects, scm_account, workspace)
            == Some(projects[0]),
        repository is None && projects.len() == 0 && scm_account is Some ==> selected_candidate(
            repository,
            projects,
            scm_account,
            workspace,
        ) == scm_account,
        repository is None && projects.len() == 0 && scm_account is None ==> selected_candidate(
            repository,
            projects,
            scm_account,
            workspace,
        ) == workspace,
{
}

/// The rank of a scope: the lower, the more specific.
pub open spec fn scope_rank(k: SecretScopeKind) -> int {
    match k {
        SecretScopeKind::Repository => 0,
        SecretScopeKind::Project => 1,
        SecretScopeKind::ScmAccount => 2,
        SecretScopeKind::Workspace => 3,
    }
}

/// With each candidate found at its own scope, the selected secret comes
/// from the most specific scope that has one: no candidate found is more
/// specific than the selected one.
pub proof fn law_secret_most_specific_scope(
    repository: Option<SecretResolutionCandidate>,
    projects: Seq<SecretResolutionCandidate>,
    scm_account: Option<SecretResolutionCandidate>,
    workspace: Option<SecretResolutionCandidate>,
)
    requires
        repository matches Some(c) ==> c.scope.kind == SecretScopeKind::Repository,
        forall|i: int| 0 <= i < projects.len() ==> (#[trigger] projects[i]).scope.kind == SecretScopeKind::Project,
        scm_account matches Some(c) ==> c.scope.kind == SecretScopeKind::ScmAccount,
        workspace matches Some(c) ==> c.scope.kind == SecretScopeKind::Workspace,
        selected_candidate(repository, projects, scm_account, workspace) is Some,
    ensures
        ({
            let sel = selected_candidate(repository, projects, scm_account, workspace)->Some_0;
            &&& repository matches Some(c) ==> scope_rank(sel.scope.kind) <= scope_rank(c.scope.kind)
            &&& forall|i: int| 0 <= i < projects.len() ==> scope_rank(sel.scope.kind) <= scope_rank(
                (#[trigger] projects[i]).scope.kind,
            )
            &&& scm_account matches Some(c) ==> scope_rank(sel.scope.kind) <= scope_rank(c.scope.kind)
            &&& workspace matches Some(c) ==> scope_rank(sel.scope.kind) <= scope_rank(c.scope.kind)
        }),
{
    if repository is None && projects.len() > 0 {
        assert(projects[0].scope.kind == SecretScopeKind::Project);
    }
}

pub open spec fn project_ids(projects: Seq<SecretResolutionCandidate>) -> Seq<Seq<char>> {
    projects.map_values(|c: SecretResolutionCandidate| c.scope.id@)
}

/// Selects the secret among the candidates found at each scope, and lists the
/// candidates that the selection shadows.
pub fn select_secret_candidate(
    name: &str,
    repository: Option<SecretResolutionCandidate>,
    projects: Vec<SecretResolutionCandidate>,
    scm_account: Option<SecretResolutionCandidate>,
    workspace: Option<SecretResolutionCandidate>,
) -> (res: Result<SecretSelection, ControlPlaneError>)
    ensures
        repository is None && projects@.len() > 1 ==> (res matches Err(
            ControlPlaneError::AmbiguousSecretResolution { name: n, project_ids: ids },
        ) && n@ == name@ && ids@.map_values(|s: String| s@) == project_ids(projects@)),
        !(repository is None && projects@.len() > 1) && selected_candidate(
            repository,
            projects@,
            scm_account,
            workspace,
        ) is None ==> (res matches Err(ControlPlaneError::NotFound { kind, id }) && kind == "secret"
            && id@ == name@),
        !(repository is None && projects@.len() > 1) && selected_candidate(
            repository,
            projects@,
            scm_account,
            workspace,
        ) is Some ==> (res matches Ok(sel) && sel.selected == selected_candidate(
            repository,
            projects@,
            scm_account,
            workspace,
        ).unwrap() && sel.shadowed@ == without_candidate(
            projects@ + option_seq(scm_account) + option_seq(workspace),
            sel.selected,
        )),
{
    if repository.is_none() && projects.len() > 1 {
        let mut ids: Vec<String> = Vec::new();
        let mut i: usize = 0;
        while i < projects.len()
            invariant
                0 <= i <= projects@.len(),
                ids@.len() == i,
                ids@.map_values(|s: String| s@) == project_ids(projects@.take(i as int)),
            decreases projects@.len() - i,
        {
            let ghost before = ids@;
            let id = projects[i].scope.id.clone();
            let ghost idv = id;
            ids.push(id);
            proof {
                let m = ids@.map_values(|s: String| s@);
                let p = project_ids(projects@.take(i + 1));
                assert(before.map_values(|s: String| s@) == project_ids(projects@.take(i as int)));
                assert forall|k: int| 0 <= k < m.len() implies m[k] == p[k] by {
                    assert(ids@[k] == before.push(idv)[k]);
                    if k < i {
                        assert(m[k] == before.map_values(|s: String| s@)[k]);
                        assert(p[k] == project_ids(projects@.take(i as int))[k]);
                    }
                }
                assert(m =~= p);
            }
            i += 1;
        }
        proof {
            assert(projects@.take(i as int) =~= projects@);
        }
        return Err(ControlPlaneError::AmbiguousSecretResolution { name: name.to_owned(), project_ids: ids });
    }
    let selected = match &repository {
        Some(c) => clone_candidate(c),
        None => {
            if projects.len() > 0 {
                clone_candidate(&projects[0])
            } else {
                match &scm_account {
                    Some(c) => clone_candidate(c),
                    None => match &workspace {
                        Some(c) => clone_candidate(c),
                        None => {
                            return Err(ControlPlaneError::NotFound { kind: "secret", id: name.to_owned() });
                        },
                    },
                }
            }
        },
    };
    let ghost all = projects@ + option_seq(scm_account) + option_seq(workspace);
    let mut pool: Vec<SecretResolutionCandidate> = projects;
    match scm_account {
        Some(c) => pool.push(c),
        None => {},
    }
    match workspace {
        Some(c) => pool.push(c),
        None => {},
    }
    proof {
        assert(pool@ =~= all);
    }
    let mut shadowed: Vec<SecretResolutionCandidate> = Vec::new();
    let mut i: usize = 0;
    while i < pool.len()
        invariant
            0 <= i <= pool@.len(),
            shadowed@ == without_candidate(pool@.take(i as int), selected),
        decreases pool@.len() - i,
    {
        proof {
            assert(pool@.take(i + 1).drop_last() =~= pool@.take(i as int));
            assert(pool@.take(i + 1).last() == pool@[i as int]);
        }
        if !candidate_eq(&pool[i], &selected) {
            shadowed.push(clone_candidate(&pool[i]));
        }
        i += 1;
    }
    proof {
        assert(pool@.take(i as int) =~= pool@);
    }
    Ok(SecretSelection { selected, shadowed })
}

pub const MSG_SECRET_KIND: &'static str = "built-in secrets require a value; external secrets require only a provider reference";

/// A built-in secret carries a value and no provider reference; an external
/// one carries only a provider reference.
pub open spec fn secret_kind_ok(v: SecretMetadataReference, has_value: bool) -> bool {
    let built_in = str_bytes(v.provider) == "built-in".spec_bytes();
    built_in == has_value && !(built_in && v.provider_reference is Some) && !(!built_in
        && v.provider_reference is None)
}

/// Checks a secret creation: the idempotency key, the metadata, and that a
/// value comes exactly with a built-in secret.
pub fn validate_secret_creation(key: &str, metadata: &SecretMetadataReference, has_value: bool) -> (res:
    Result<(), ControlPlaneError>)
    ensures
        res == match idempotency_check(key.spec_bytes()) {
            Err(e) => Err(e),
            Ok(()) => match secret_metadata_check(*metadata) {
                Err(e) => Err(e),
                Ok(()) => if secret_kind_ok(*metadata, has_value) {
                    Ok(())
                } else {
                    Err(ControlPlaneError::InvalidInput(MSG_SECRET_KIND))
                },
            },
        },
{
    validate_idempotency(key)?;
    validate_secret_metadata(metadata)?;
    let built_in = str_is(metadata.provider.as_str(), "built-in");
    if built_in != has_value || (built_in && metadata.provider_reference.is_some()) || (!built_in
        && metadata.provider_reference.is_none()) {
        return Err(ControlPlaneError::InvalidInput(MSG_SECRET_KIND));
    }
    Ok(())
}

pub const MSG_SECRET_ROTATION: &'static str = "only active built-in secrets can rotate values";

/// Only an active built-in secret can take a new value.
pub fn check_secret_rotatable(metadata: &SecretMetadataReference) -> (res: Result<(), ControlPlaneError>)
    ensures
        res == if str_bytes(metadata.provider) == "built-in".spec_bytes() && str_bytes(metadata.status)
            == "active".spec_bytes() {
            Ok::<(), ControlPlaneError>(())
        } else {
            Err(ControlPlaneError::InvalidInput(MSG_SECRET_ROTATION))
        },
{
    if !str_is(metadata.provider.as_str(), "built-in") || !str_is(metadata.status.as_str(), "active") {
        return Err(ControlPlaneError::InvalidInput(MSG_SECRET_ROTATION));
    }
    Ok(())
}

pub const MSG_VARIABLE_SIZE: &'static str = "variable value is too large";

pub const FIELD_VARIABLE_VERSION: &'static str = "variable version";

/// Checks a variable write: the idempotency key, the tenant, scope and name,
/// and a canonical JSON value of at most 16 MiB (`encoded_len` bytes).
pub fn validate_variable_put(key: &str, tenant_id: &str, scope: &str, name: &str, encoded_len: usize) -> (res:
    Result<(), ControlPlaneError>)
    ensures
        res == chain_check(
            idempotency_check(key.spec_bytes()),
            chain_check(
                text_value_check(tenant_id.spec_bytes()),
                chain_check(
                    text_value_check(scope.spec_bytes()),
                    chain_check(
                        text_value_check(name.spec_bytes()),
                        if encoded_len > 16 * 1024 * 1024 {
                            Err(ControlPlaneError::InvalidInput(MSG_VARIABLE_SIZE))
                        } else {
                            Ok(())
                        },
                    ),
                ),
            ),
        ),
{
    validate_idempotency(key)?;
    validate_text_value(tenant_id)?;
    validate_text_value(scope)?;
    validate_text_value(name)?;
    if encoded_len > 16 * 1024 * 1024 {
        return Err(ControlPlaneError::InvalidInput(MSG_VARIABLE_SIZE));
    }
    Ok(())
}

/// The version a variable write stores: one more than the current version,
/// 1 for a new variable.
pub fn next_variable_version(current: Option<u64>) -> (res: Result<u64, ControlPlaneError>)
    ensures
        match current {
            None => res == Ok::<u64, ControlPlaneError>(1),
            Some(v) => if v == u64::MAX {
                res == Err::<u64, ControlPlaneError>(
                    ControlPlaneError::IntegerRange { field: FIELD_VARIABLE_VERSION },
                )
            } else {
                res == Ok::<u64, ControlPlaneError>((v + 1) as u64)
            },
        },
{
    match current {
        None => Ok(1),
        Some(v) => match v.checked_add(1) {
            Some(n) => Ok(n),
            None => Err(ControlPlaneError::IntegerRange { field: FIELD_VARIABLE_VERSION }),
        },
    }
}

/// The idempotency scope of a variable write: `variable.put:` and the
/// tenant, scope and name, separated by colons.
pub open spec fn variable_operation_text(tenant: Seq<char>, scope: Seq<char>, name: Seq<char>) -> Seq<char> {
    "variable.put:"@ + tenant + ":"@ + scope + ":"@ + name
}

/// The idempotency scope of a variable write.
pub fn variable_operation(tenant: &str, scope: &str, name: &str) -> (res: String)
    ensures
        res@ == variable_operation_text(tenant@, scope@, name@),
{
    let mut out = String::from_str("variable.put:");
    out.append(tenant);
    out.append(":");
    out.append(scope);
    out.append(":");
    out.append(name);
    out
}

/// The idempotency scope of a secret creation: `secret.create:` and the
/// tenant and scope.
pub open spec fn secret_create_operation_text(tenant: Seq<char>, scope: Seq<char>) -> Seq<char> {
    "secret.create:"@ + tenant + ":"@ + scope
}

/// The idempotency scope of a secret creation.
pub fn secret_create_operation(tenant: &str, scope: &str) -> (res: String)
    ensures
        res@ == secret_create_operation_text(tenant@, scope@),
{
    let mut out = String::from_str("secret.create:");
    out.append(tenant);
    out.append(":");
    out.append(scope);
    out
}

/// The idempotency scope of a secret rotation: `secret.rotate:` and the
/// tenant, scope and name.
pub open spec fn secret_rotate_operation_text(tenant: Seq<char>, scope: Seq<char>, name: Seq<char>) -> Seq<char> {
    "secret.rotate:"@ + tenant + ":"@ + scope + ":"@ + name
}

/// The idempotency scope of a secret rotation.
pub fn secret_rotate_operation(tenant: &str, scope: &str, name: &str) -> (res: String)
    ensures
        res@ == secret_rotate_operation_text(tenant@, scope@, name@),
{
    let mut out = String::from_str("secret.rotate:");
    out.append(tenant);
    out.append(":");
    out.append(scope);
    out.append(":");
    out.append(name);
    out
}

pub const MSG_VARIABLE_JSON: &'static str = "variable value is not JSON";

/// A variable value is one JSON value whose canonical encoding is at most
/// 16 MiB.
pub open spec fn variable_value_check(canonical: Option<Seq<u8>>) -> Result<(), ControlPlaneError> {
    match canonical {
        None => Err(ControlPlaneError::InvalidInput(MSG_VARIABLE_JSON)),
        Some(c) => if c.len() > 16 * 1024 * 1024 {
            Err(ControlPlaneError::InvalidInput(MSG_VARIABLE_SIZE))
        } else {
            Ok(())
        },
    }
}

/// What a variable write checks, in order: the idempotency key, the tenant,
/// scope and name, then the value in its canonical encoding.
pub open spec fn variable_put_check(
    key: Seq<u8>,
    tenant: Seq<u8>,
    scope: Seq<u8>,
    name: Seq<u8>,
    canonical: Option<Seq<u8>>,
) -> Result<(), ControlPlaneError> {
    chain_check(
        idempotency_check(key),
        chain_check(
            text_value_check(tenant),
            chain_check(
                text_value_check(scope),
                chain_check(text_value_check(name), variable_value_check(canonical)),
            ),
        ),
    )
}

/// A variable write ready to be stored: the canonical encoding of the value,
/// the request hash its idempotency key is recorded with, and the
/// idempotency scope.
#[derive(Debug, Clone, PartialEq, Eq)]
pub struct VariablePut {
    pub canonical: Vec<u8>,
    pub request_hash: ContentDigest,
    pub operation: String,
}

/// Plans a variable write of the JSON value `value_json`: checks the request,
/// encodes the value canonically, and hashes that encoding.
pub fn plan_variable_put(key: &str, tenant_id: &str, scope: &str, name: &str, value_json: &[u8]) -> (res: Result<
    VariablePut,
    ControlPlaneError,
>)
    ensures
        match variable_put_check(
            key.spec_bytes(),
            tenant_id.spec_bytes(),
            scope.spec_bytes(),
            name.spec_bytes(),
            canonical_json(value_json@),
        ) {
            Err(e) => res == Err::<VariablePut, ControlPlaneError>(e),
            Ok(()) => res matches Ok(p) && canonical_json(value_json@) == Some(p.canonical@)
                && p.request_hash@ == sha256_text(p.canonical@) && p.operation@ == variable_operation_text(
                tenant_id@,
                scope@,
                name@,
            ),
        },
{
    validate_idempotency(key)?;
    validate_text_value(tenant_id)?;
    validate_text_value(scope)?;
    validate_text_value(name)?;
    let canonical = match canonical_json_bytes(value_json) {
        Some(c) => c,
        None => return Err(ControlPlaneError::InvalidInput(MSG_VARIABLE_JSON)),
    };
    if canonical.len() > 16 * 1024 * 1024 {
        return Err(ControlPlaneError::InvalidInput(MSG_VARIABLE_SIZE));
    }
    let request_hash = content_digest_sha256(canonical.as_slice());
    let operation = variable_operation(tenant_id, scope, name);
    Ok(VariablePut { canonical, request_hash, operation })
}

pub const MSG_VARIABLE_NOT_CANONICAL: &'static str = "variable value is not canonical";

/// Checks a stored variable value: its bytes must be the canonical encoding
/// of the value they hold.
pub fn check_stored_variable_value(value_json: &[u8]) -> (res: Result<(), ControlPlaneError>)
    ensures
        res == (if canonical_json(value_json@) == Some(value_json@) {
            Ok::<(), ControlPlaneError>(())
        } else {
            Err::<(), ControlPlaneError>(ControlPlaneError::CorruptState(MSG_VARIABLE_NOT_CANONICAL))
        }),
{
    match canonical_json_bytes(value_json) {
        Some(c) => {
            if bytes_eq(c.as_slice(), value_json) {
                Ok(())
            } else {
                Err(ControlPlaneError::CorruptState(MSG_VARIABLE_NOT_CANONICAL))
            }
        },
        None => Err(ControlPlaneError::CorruptState(MSG_VARIABLE_NOT_CANONICAL)),
    }
}

/// One named value of a variable snapshot, the value as JSON text.
#[derive(Debug, Clone, PartialEq, Eq)]
pub struct VariableValue {
    pub name: String,
    pub value_json: Vec<u8>,
}

/// The members `"name":value` of a JSON object, comma separated, in order.
pub open spec fn json_members(values: Seq<VariableValue>) -> Seq<u8>
    decreases values.len(),
{
    if values.len() == 0 {
        Seq::empty()
    } else {
        let m = json_string(values.last().name@) + seq![58u8] + values.last().value_json@;
        if values.len() == 1 {
            m
        } else {
            json_members(values.drop_last()) + seq![44u8] + m
        }
    }
}

/// The JSON object of the named values.
pub open spec fn json_object_of(values: Seq<VariableValue>) -> Seq<u8> {
    seq![123u8] + json_members(values) + seq![125u8]
}

/// The first name among `values` that is not valid configuration text.
pub open spec fn names_check(values: Seq<VariableValue>) -> Result<(), ControlPlaneError>
    decreases values.len(),
{
    if values.len() == 0 {
        Ok(())
    } else {
        chain_check(names_check(values.drop_last()), text_value_check(str_bytes(values.last().name)))
    }
}

pub const MSG_SNAPSHOT_VERSION: &'static str = "variable snapshot version starts at one";

pub const MSG_SNAPSHOT_SIZE: &'static str = "variable snapshot exceeds its bound";

/// The values of a snapshot form one JSON object whose canonical encoding
/// is at most 16 MiB.
pub open spec fn snapshot_values_check(canonical: Option<Seq<u8>>) -> Result<(), ControlPlaneError> {
    match canonical {
        None => Err(ControlPlaneError::InvalidInput(MSG_VARIABLE_JSON)),
        Some(c) => if c.len() > 16 * 1024 * 1024 {
            Err(ControlPlaneError::InvalidInput(MSG_SNAPSHOT_SIZE))
        } else {
            Ok(())
        },
    }
}

/// What creating a variable snapshot checks, in order: the id, tenant and
/// scope, a version of at least 1, each value's name, then the values in
/// their canonical encoding.
pub open spec fn variable_snapshot_check(
    id: Seq<u8>,
    tenant: Seq<u8>,
    scope: Seq<u8>,
    version: u64,
    values: Seq<VariableValue>,
) -> Result<(), ControlPlaneError> {
    chain_check(
        text_value_check(id),
        chain_check(
            text_value_check(tenant),
            chain_check(
                text_value_check(scope),
                chain_check(
                    if version == 0 {
                        Err(ControlPlaneError::InvalidInput(MSG_SNAPSHOT_VERSION))
                    } else {
                        Ok(())
                    },
                    chain_check(names_check(values), snapshot_values_check(canonical_json(json_object_of(values)))),
                ),
            ),
        ),
    )
}

/// A failing prefix decides the name check of the whole sequence.
proof fn lemma_names_prefix(s: Seq<VariableValue>, k: int)
    requires
        0 <= k <= s.len(),
        names_check(s.take(k)) is Err,
    ensures
        names_check(s) == names_check(s.take(k)),
    decreases s.len() - k,
{
    if k == s.len() {
        assert(s.take(k) =~= s);
    } else {
        assert(s.take(k + 1).drop_last() =~= s.take(k));
        lemma_names_prefix(s, k + 1);
    }
}

/// Plans a variable snapshot: checks the request, encodes the values as one
/// canonical JSON object, and gives that encoding with its digest.
pub fn plan_variable_snapshot(
    id: &str,
    tenant_id: &str,
    scope: &str,
    version: u64,
    values: &Vec<VariableValue>,
) -> (res: Result<(Vec<u8>, ContentDigest), ControlPlaneError>)
    ensures
        match variable_snapshot_check(id.spec_bytes(), tenant_id.spec_bytes(), scope.spec_bytes(), version, values@) {
            Err(e) => res == Err::<(Vec<u8>, ContentDigest), ControlPlaneError>(e),
            Ok(()) => res matches Ok(p) && canonical_json(json_object_of(values@)) == Some(p.0@) && p.1@
                == sha256_text(p.0@),
        },
{
    validate_text_value(id)?;
    validate_text_value(tenant_id)?;
    validate_text_value(scope)?;
    if version == 0 {
        return Err(ControlPlaneError::InvalidInput(MSG_SNAPSHOT_VERSION));
    }
    let mut j: usize = 0;
    while j < values.len()
        invariant
            0 <= j <= values@.len(),
            names_check(values@.take(j as int)) == Ok::<(), ControlPlaneError>(()),
            text_value_check(id.spec_bytes()) == Ok::<(), ControlPlaneError>(()),
            text_value_check(tenant_id.spec_bytes()) == Ok::<(), ControlPlaneError>(()),
            text_value_check(scope.spec_bytes()) == Ok::<(), ControlPlaneError>(()),
            version != 0,
        decreases values@.len() - j,
    {
        proof {
            assert(values@.take(j + 1).drop_last() =~= values@.take(j as int));
        }
        let checked = validate_text_value(values[j].name.as_str());
        if let Err(e) = checked {
            proof {
                lemma_names_prefix(values@, j + 1);
            }
            return Err(e);
        }
        j = j + 1;
    }
    proof {
        assert(values@.take(values@.len() as int) =~= values@);
    }
    let mut framed: Vec<u8> = Vec::new();
    framed.push(123u8);
    let mut i: usize = 0;
    while i < values.len()
        invariant
            0 <= i <= values@.len(),
            framed@ == seq![123u8] + json_members(values@.take(i as int)),
        decreases values@.len() - i,
    {
        let ghost before = framed@;
        proof {
            assert(values@.take(i + 1).drop_last() =~= values@.take(i as int));
            assert(values@.take(i + 1).last() == values@[i as int]);
        }
        if i > 0 {
            framed.push(44u8);
        }
        push_json_string(&mut framed, values[i].name.as_str());
        framed.push(58u8);
        push_bytes(&mut framed, values[i].value_json.as_slice());
        proof {
            let v = values@[i as int];
            let m = json_string(v.name@) + seq![58u8] + v.value_json@;
            if i == 0 {
                assert(values@.take(0) =~= Seq::<VariableValue>::empty());
                assert(framed@ =~= seq![123u8] + m);
            } else {
                assert(framed@ =~= seq![123u8] + (json_members(values@.take(i as int)) + seq![44u8] + m));
            }
        }
        i = i + 1;
    }
    framed.push(125u8);
    proof {
        assert(values@.take(values@.len() as int) =~= values@);
        assert(framed@ =~= json_object_of(values@));
    }
    let canonical = match canonical_json_bytes(framed.as_slice()) {
        Some(c) => c,
        None => return Err(ControlPlaneError::InvalidInput(MSG_VARIABLE_JSON)),
    };
    if canonical.len() > 16 * 1024 * 1024 {
        return Err(ControlPlaneError::InvalidInput(MSG_SNAPSHOT_SIZE));
    }
    let digest = content_digest_sha256(canonical.as_slice());
    Ok((canonical, digest))
}

pub const MSG_SNAPSHOT_CHANGED: &'static str = "variable snapshot digest changed";

/// A stored snapshot holds the canonical encoding of its values and the
/// digest of those bytes.
pub open spec fn stored_snapshot_check(values_json: Seq<u8>, digest: Seq<char>) -> Result<(), ControlPlaneError> {
    if canonical_json(values_json) == Some(values_json) && sha256_text(values_json) == digest {
        Ok(())
    } else {
        Err(ControlPlaneError::CorruptState(MSG_SNAPSHOT_CHANGED))
    }
}

/// A snapshot as created reads back: the bytes and digest that creation
/// stores pass the read-side check, whenever serde_json reads its own
/// canonical encoding of the values back to the same encoding (it need not
/// for a float that its default parser reads back inexactly).
pub proof fn law_snapshot_reads_back(id: Seq<u8>, tenant: Seq<u8>, scope: Seq<u8>, version: u64, values: Seq<VariableValue>)
    requires
        variable_snapshot_check(id, tenant, scope, version, values) is Ok,
        ({
            let c = canonical_json(json_object_of(values))->0;
            canonical_json(c) == Some(c)
        }),
    ensures
        ({
            let c = canonical_json(json_object_of(values))->0;
            stored_snapshot_check(c, sha256_text(c)) == Ok::<(), ControlPlaneError>(())
        }),
{
}

/// Two writes of values with the same canonical encoding carry the same
/// request hash, so the second is recognized as the recorded request and
/// replays; in particular an object whose keys come in another order, when
/// serde_json encodes it to the same bytes.
pub proof fn law_variable_put_replays(first_json: Seq<u8>, again_json: Seq<u8>)
    requires
        canonical_json(first_json) is Some,
        canonical_json(again_json) == canonical_json(first_json),
    ensures
        stored_request_check(
            sha256_text(canonical_json(first_json)->0),
            sha256_text(canonical_json(again_json)->0),
        ) == Ok::<(), ControlPlaneError>(()),
{
}

/// Checks a stored variable snapshot: its bytes must be the canonical
/// encoding of the values they hold and hash to the stored digest.
pub fn check_stored_variable_snapshot(values_json: &[u8], digest: &ContentDigest) -> (res: Result<
    (),
    ControlPlaneError,
>)
    ensures
        res == stored_snapshot_check(values_json@, digest@),
{
    let canonical = match canonical_json_bytes(values_json) {
        Some(c) => c,
        None => return Err(ControlPlaneError::CorruptState(MSG_SNAPSHOT_CHANGED)),
    };
    if !bytes_eq(canonical.as_slice(), values_json) {
        return Err(ControlPlaneError::CorruptState(MSG_SNAPSHOT_CHANGED));
    }
    let actual = content_digest_sha256(values_json);
    if actual.text != digest.text {
        return Err(ControlPlaneError::CorruptState(MSG_SNAPSHOT_CHANGED));
    }
    Ok(())
}

/// What a secret rotation is recorded under: its idempotency scope and the
/// request hash, the SHA-256 digest of the new value.
#[derive(Debug, Clone, PartialEq, Eq)]
pub struct SecretRotationPlan {
    pub operation: String,
    pub request_hash: ContentDigest,
}

/// Plans a secret rotation under an idempotency key.
pub fn plan_secret_rotation(key: &str, tenant_id: &str, scope: &str, name: &str, plaintext: &[u8]) -> (res: Result<
    SecretRotationPlan,
    ControlPlaneError,
>)
    ensures
        match idempotency_check(key.spec_bytes()) {
            Err(e) => res == Err::<SecretRotationPlan, ControlPlaneError>(e),
            Ok(()) => res matches Ok(p) && p.operation@ == secret_rotate_operation_text(tenant_id@, scope@, name@)
                && p.request_hash@ == sha256_text(plaintext@),
        },
{
    validate_idempotency(key)?;
    let request_hash = content_digest_sha256(plaintext);
    let operation = secret_rotate_operation(tenant_id, scope, name);
    Ok(SecretRotationPlan { operation, request_hash })
}

/// A request recorded under an idempotency key with the hash `stored` is
/// the request with the hash `hash` when the two are the same.
pub open spec fn stored_request_check(stored: Seq<char>, hash: Seq<char>) -> Result<(), ControlPlaneError> {
    if stored == hash {
        Ok(())
    } else {
        Err(ControlPlaneError::IdempotencyConflict)
    }
}

/// A rotation is written once per key: the first rotation of an active
/// built-in secret moves it to the new version at `now`, keeping every other
/// field, and the same value under the same key is then recognized as the
/// recorded request, so the stored metadata is returned.
pub proof fn law_secret_rotation_replays(m: SecretMetadataReference, plaintext: Seq<u8>, version: u64, now: u64)
    ensures
        stored_request_check(sha256_text(plaintext), sha256_text(plaintext)) == Ok::<(), ControlPlaneError>(()),
        rotated_secret(m, version, now).current_version == Some(version),
        rotated_secret(m, version, now).updated_unix_ms == now,
        rotated_secret(m, version, now) == (SecretMetadataReference {
            current_version: Some(version),
            updated_unix_ms: now,
            ..m
        }),
{
}

pub const MSG_VARIABLE_VERSION_RESOURCE: &'static str = "variable idempotency version";

/// The version a variable write recorded under its idempotency key, read
/// back from the record's resource text.
pub fn variable_version_resource(resource: &str) -> (res: Result<u64, ControlPlaneError>)
    ensures
        match crate::bytes::parse_u64_spec(resource.spec_bytes()) {
            Some(v) => res == Ok::<u64, ControlPlaneError>(v),
            None => res == Err::<u64, ControlPlaneError>(
                ControlPlaneError::CorruptState(MSG_VARIABLE_VERSION_RESOURCE),
            ),
        },
{
    match crate::bytes::parse_u64(resource.as_bytes()) {
        Some(v) => Ok(v),
        None => Err(ControlPlaneError::CorruptState(MSG_VARIABLE_VERSION_RESOURCE)),
    }
}

/// The metadata of a secret after a rotation to `version` at `now`.
pub open spec fn rotated_secret(m: SecretMetadataReference, version: u64, now: u64) -> SecretMetadataReference {
    SecretMetadataReference { current_version: Some(version), updated_unix_ms: now, ..m }
}

/// Records a secret's new value version on its metadata.
pub fn rotate_secret_metadata(m: SecretMetadataReference, version: u64, now: u64) -> (res: Result<
    SecretMetadataReference,
    ControlPlaneError,
>)
    ensures
        res == if version > i64::MAX {
            Err(ControlPlaneError::IntegerRange { field: "secret version" })
        } else if now > i64::MAX {
            Err(ControlPlaneError::IntegerRange { field: "secret update" })
        } else {
            Ok::<SecretMetadataReference, ControlPlaneError>(rotated_secret(m, version, now))
        },
{
    if version > 0x7fff_ffff_ffff_ffffu64 {
        return Err(ControlPlaneError::IntegerRange { field: "secret version" });
    }
    if now > 0x7fff_ffff_ffff_ffffu64 {
        return Err(ControlPlaneError::IntegerRange { field: "secret update" });
    }
    Ok(SecretMetadataReference { current_version: Some(version), updated_unix_ms: now, ..m })
}

/// What tombstoning `m` at `now` gives: a tombstoned secret as it is
/// (`replayed`), any other marked tombstoned at `now` with its other fields
/// kept.
pub open spec fn tombstone_outcome(
    m: SecretMetadataReference,
    now: u64,
    res: Result<IdempotentResult<SecretMetadataReference>, ControlPlaneError>,
) -> bool {
    &&& str_bytes(m.status) == "tombstoned".spec_bytes() ==> res == Ok::<
        IdempotentResult<SecretMetadataReference>,
        ControlPlaneError,
    >(IdempotentResult { value: m, replayed: true })
    &&& str_bytes(m.status) != "tombstoned".spec_bytes() && now > i64::MAX ==> res == Err::<
        IdempotentResult<SecretMetadataReference>,
        ControlPlaneError,
    >(ControlPlaneError::IntegerRange { field: "secret update" })
    &&& str_bytes(m.status) != "tombstoned".spec_bytes() && now <= i64::MAX ==> (res matches Ok(v) && !v.replayed
        && v.value == (SecretMetadataReference { status: v.value.status, updated_unix_ms: now, ..m })
        && str_bytes(v.value.status) == "tombstoned".spec_bytes())
}

/// Deleting a secret's configuration is idempotent: once tombstoned, a
/// later delete returns the tombstoned record unchanged, at any time.
pub proof fn law_tombstone_is_idempotent(
    m: SecretMetadataReference,
    now: u64,
    later: u64,
    first: Result<IdempotentResult<SecretMetadataReference>, ControlPlaneError>,
    second: Result<IdempotentResult<SecretMetadataReference>, ControlPlaneError>,
)
    requires
        tombstone_outcome(m, now, first),
        first is Ok,
        tombstone_outcome(first->Ok_0.value, later, second),
    ensures
        second == Ok::<IdempotentResult<SecretMetadataReference>, ControlPlaneError>(
            IdempotentResult { value: first->Ok_0.value, replayed: true },
        ),
        str_bytes(first->Ok_0.value.status) == "tombstoned".spec_bytes(),
        first->Ok_0.value.updated_unix_ms == if str_bytes(m.status) == "tombstoned".spec_bytes() {
            m.updated_unix_ms
        } else {
            now
        },
{
}

/// Tombstones a secret's configuration: a tombstoned secret is returned as it
/// is (`replayed`), any other is marked tombstoned at `now`.
pub fn tombstone_secret(m: SecretMetadataReference, now: u64) -> (res: Result<
    IdempotentResult<SecretMetadataReference>,
    ControlPlaneError,
>)
    ensures
        tombstone_outcome(m, now, res),
{
    if str_is(m.status.as_str(), "tombstoned") {
        return Ok(IdempotentResult { value: m, replayed: true });
    }
    if now > 0x7fff_ffff_ffff_ffffu64 {
        return Err(ControlPlaneError::IntegerRange { field: "secret update" });
    }
    let status = String::from_str("tombstoned");
    proof {
        reveal_strlit("tombstoned");
    }
    Ok(
        IdempotentResult {
            value: SecretMetadataReference { status, updated_unix_ms: now, ..m },
            replayed: false,
        },
    )
}

} // verus!
