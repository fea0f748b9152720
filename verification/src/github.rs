//! GitHub installation reconciliation: the validation of a reconciliation
//! request, the decision how the installation itself is written, and the plan
//! that brings the repository catalog in line with the selected repositories.

use crate::bytes::{bytes_eq, contains_byte, is_ascii_control, is_ascii_whitespace, push_bytes, str_is};
use crate::error::ControlPlaneError;
use crate::policy::IdempotentResult;
use crate::scm::{
    github_permissions_valid, origins_check, positive_id, positive_id_exec, sb, scm_text_check,
    status_known, status_known_exec, then_check, valid_github_installation_permissions,
    validate_origins, validate_text, GitHubRepositorySelection, ScmInstallationRecord, opt_sb, PermissionEntry,
    GitHubPermissions, status_transition_allowed, valid_status_transition,
};
use vstd::prelude::*;
use vstd::string::StringSliceAdditionalSpecFns;

verus! {

/// The kind of account a GitHub installation belongs to.
#[derive(Debug, Clone, Copy, PartialEq, Eq, Structural)]
pub enum GitHubAccountKind {
    Organization,
    User,
}

/// A GitHub installation with its provider profile.
#[derive(Debug, Clone, PartialEq, Eq)]
pub struct GitHubInstallationRecord {
    pub installation: ScmInstallationRecord,
    pub web_origin: String,
    pub api_origin: String,
    pub account_external_id: String,
    pub account_login: String,
    pub account_kind: GitHubAccountKind,
    pub repository_selection: GitHubRepositorySelection,
    pub lifecycle_generation: u64,
    pub synchronized_unix_ms: u64,
    pub suspended_unix_ms: Option<u64>,
    pub revoked_unix_ms: Option<u64>,
    pub version: u64,
}

/// A repository that a GitHub installation currently grants.
#[derive(Debug, Clone, PartialEq, Eq)]
pub struct GitHubSelectedRepository {
    pub external_repository_id: String,
    pub owner: String,
    pub name: String,
    pub full_name: String,
    pub clone_url: String,
    pub visibility: String,
    pub default_branch: String,
}

/// A provider snapshot of an installation and the repositories it grants.
#[derive(Debug, Clone, PartialEq, Eq)]
pub struct ReconcileGitHubInstallation {
    pub installation: GitHubInstallationRecord,
    pub expected_version: Option<u64>,
    pub selected_repositories: Vec<GitHubSelectedRepository>,
    pub now_unix_ms: u64,
}

pub const FIELD_INSTALLATION_IDENTITY: &'static str = "GitHub installation identity";

pub const FIELD_SELECTED_REPOSITORY: &'static str = "GitHub selected repository";

pub const MSG_RECONCILIATION: &'static str = "invalid GitHub installation reconciliation";

pub const MSG_SELECTED_REPOSITORY: &'static str = "invalid GitHub selected repository";

/// The suspension and revocation times that go with an installation status.
pub open spec fn status_timestamps_valid(status: Seq<u8>, suspended: Option<u64>, revoked: Option<
    u64,
>) -> bool {
    if status == "active".spec_bytes() {
        suspended is None && revoked is None
    } else if status == "suspended".spec_bytes() {
        suspended is Some && revoked is None
    } else if status == "revoked".spec_bytes() {
        revoked is Some
    } else {
        false
    }
}

/// Whether some byte of `b` is an ASCII control or whitespace byte.
pub open spec fn has_control_or_space(b: Seq<u8>) -> bool {
    exists|k: int| 0 <= k < b.len() && (is_ascii_control(#[trigger] b[k]) || is_ascii_whitespace(b[k]))
}

pub open spec fn after(t: Option<u64>, limit: u64) -> bool {
    match t {
        Some(v) => v > limit,
        None => false,
    }
}

/// The installation-level rules of a reconciliation, all answered with the
/// same error: the snapshot is taken now, by the GitHub provider, with a known
/// status whose timestamps fit, positive provider ids, a login without `/`,
/// control or whitespace bytes, valid permissions, positive version and
/// generation, consistent times, and at most 1000 repositories.
pub open spec fn reconciliation_invalid(r: ReconcileGitHubInstallation) -> bool {
    let rec = r.installation;
    let i = rec.installation;
    ||| r.now_unix_ms != rec.synchronized_unix_ms
    ||| i.updated_unix_ms != r.now_unix_ms
    ||| sb(i.provider) != "github".spec_bytes()
    ||| !status_known(sb(i.status))
    ||| i.updated_unix_ms < i.created_unix_ms
    ||| !positive_id(sb(i.external_id))
    ||| !positive_id(sb(rec.account_external_id))
    ||| sb(rec.account_login).contains(47u8)
    ||| has_control_or_space(sb(rec.account_login))
    ||| !github_permissions_valid(i.permissions)
    ||| !status_timestamps_valid(sb(i.status), rec.suspended_unix_ms, rec.revoked_unix_ms)
    ||| rec.version == 0
    ||| rec.lifecycle_generation == 0
    ||| rec.synchronized_unix_ms < i.created_unix_ms
    ||| after(rec.suspended_unix_ms, rec.synchronized_unix_ms)
    ||| after(rec.revoked_unix_ms, rec.synchronized_unix_ms)
    ||| r.selected_repositories@.len() > 1000
}

pub open spec fn visibility_known(b: Seq<u8>) -> bool {
    b == "public".spec_bytes() || b == "private".spec_bytes() || b == "internal".spec_bytes()
}

/// The text fields of a selected repository, in the order they are checked.
pub open spec fn selected_text_check(x: GitHubSelectedRepository) -> Result<(), ControlPlaneError> {
    then_check(
        scm_text_check(FIELD_SELECTED_REPOSITORY, sb(x.external_repository_id)),
        then_check(
            scm_text_check(FIELD_SELECTED_REPOSITORY, sb(x.owner)),
            then_check(
                scm_text_check(FIELD_SELECTED_REPOSITORY, sb(x.name)),
                then_check(
                    scm_text_check(FIELD_SELECTED_REPOSITORY, sb(x.full_name)),
                    then_check(
                        scm_text_check(FIELD_SELECTED_REPOSITORY, sb(x.clone_url)),
                        scm_text_check(FIELD_SELECTED_REPOSITORY, sb(x.default_branch)),
                    ),
                ),
            ),
        ),
    )
}

/// Repository `k` of the snapshot: a positive id that no earlier repository
/// has, an owner and name pair no earlier repository has, neither with `/`,
/// the full name `owner/name`, the clone URL `web_origin/owner/name.git`, and
/// a known visibility.
pub open spec fn selected_repository_ok(r: ReconcileGitHubInstallation, k: int) -> bool {
    let s = r.selected_repositories@;
    let x = s[k];
    &&& positive_id(sb(x.external_repository_id))
    &&& !exists|j: int|
        0 <= j < k && sb((#[trigger] s[j]).external_repository_id) == sb(x.external_repository_id)
    &&& !exists|j: int|
        0 <= j < k && sb((#[trigger] s[j]).owner) == sb(x.owner) && sb(s[j].name) == sb(x.name)
    &&& !sb(x.owner).contains(47u8)
    &&& !sb(x.name).contains(47u8)
    &&& sb(x.full_name) == sb(x.owner) + seq![47u8] + sb(x.name)
    &&& sb(x.clone_url) == sb(r.installation.web_origin) + seq![47u8] + sb(x.owner) + seq![47u8]
        + sb(x.name) + ".git".spec_bytes()
    &&& visibility_known(sb(x.visibility))
}

pub open spec fn selected_check(r: ReconcileGitHubInstallation, k: int) -> Result<(), ControlPlaneError> {
    then_check(
        selected_text_check(r.selected_repositories@[k]),
        if selected_repository_ok(r, k) {
            Ok(())
        } else {
            Err(ControlPlaneError::InvalidInput(MSG_SELECTED_REPOSITORY))
        },
    )
}

/// The checks of the first `n` selected repositories, in order.
pub open spec fn selected_prefix_check(r: ReconcileGitHubInstallation, n: nat) -> Result<
    (),
    ControlPlaneError,
>
    decreases n,
{
    if n == 0 {
        Ok(())
    } else {
        then_check(selected_prefix_check(r, (n - 1) as nat), selected_check(r, n - 1))
    }
}

/// What `validate_github_reconciliation_pg` decides: the installation's text
/// fields and origins, then the installation-level rules, then each selected
/// repository in order.
pub open spec fn reconciliation_check(r: ReconcileGitHubInstallation) -> Result<(), ControlPlaneError> {
    let rec = r.installation;
    let i = rec.installation;
    let f = FIELD_INSTALLATION_IDENTITY;
    then_check(
        scm_text_check(f, sb(i.id)),
        then_check(
            scm_text_check(f, sb(i.tenant_id)),
            then_check(
                scm_text_check(f, sb(i.external_id)),
                then_check(
                    scm_text_check(f, sb(i.credential_reference)),
                    then_check(
                        scm_text_check(f, sb(rec.web_origin)),
                        then_check(
                            scm_text_check(f, sb(rec.api_origin)),
                            then_check(
                                scm_text_check(f, sb(rec.account_external_id)),
                                then_check(
                                    scm_text_check(f, sb(rec.account_login)),
                                    then_check(
                                        origins_check(sb(rec.web_origin), sb(rec.api_origin)),
                                        if reconciliation_invalid(r) {
                                            Err(ControlPlaneError::InvalidInput(MSG_RECONCILIATION))
                                        } else {
                                            selected_prefix_check(
                                                r,
                                                r.selected_repositories@.len(),
                                            )
                                        },
                                    ),
                                ),
                            ),
                        ),
                    ),
                ),
            ),
        ),
    )
}

fn any_control_or_space(b: &[u8]) -> (res: bool)
    ensures
        res == has_control_or_space(b@),
{
    let mut i: usize = 0;
    while i < b.len()
        invariant
            0 <= i <= b@.len(),
            forall|k: int|
                0 <= k < i ==> !(is_ascii_control(#[trigger] b@[k]) || is_ascii_whitespace(b@[k])),
        decreases b@.len() - i,
    {
        let c = b[i];
        if c < 32 || c == 127 || c == 32 || c == 9 || c == 10 || c == 12 || c == 13 {
            return true;
        }
        i += 1;
    }
    false
}

fn status_timestamps_valid_exec(status: &str, suspended: Option<u64>, revoked: Option<u64>) -> (res:
    bool)
    ensures
        res == status_timestamps_valid(status.spec_bytes(), suspended, revoked),
{
    if str_is(status, "active") {
        suspended.is_none() && revoked.is_none()
    } else if str_is(status, "suspended") {
        suspended.is_some() && revoked.is_none()
    } else if str_is(status, "revoked") {
        revoked.is_some()
    } else {
        false
    }
}

fn after_exec(t: Option<u64>, limit: u64) -> (res: bool)
    ensures
        res == after(t, limit),
{
    match t {
        Some(v) => v > limit,
        None => false,
    }
}

fn reconciliation_invalid_exec(r: &ReconcileGitHubInstallation) -> (res: bool)
    ensures
        res == reconciliation_invalid(*r),
{
    let rec = &r.installation;
    let i = &rec.installation;
    let login = rec.account_login.as_str().as_bytes();
    r.now_unix_ms != rec.synchronized_unix_ms || i.updated_unix_ms != r.now_unix_ms || !str_is(
        i.provider.as_str(),
        "github",
    ) || !status_known_exec(i.status.as_str()) || i.updated_unix_ms < i.created_unix_ms
        || !positive_id_exec(i.external_id.as_str()) || !positive_id_exec(
        rec.account_external_id.as_str(),
    ) || contains_byte(login, 47u8) || any_control_or_space(login)
        || !valid_github_installation_permissions(&i.permissions)
        || !status_timestamps_valid_exec(
        i.status.as_str(),
        rec.suspended_unix_ms,
        rec.revoked_unix_ms,
    ) || rec.version == 0 || rec.lifecycle_generation == 0 || rec.synchronized_unix_ms
        < i.created_unix_ms || after_exec(rec.suspended_unix_ms, rec.synchronized_unix_ms)
        || after_exec(rec.revoked_unix_ms, rec.synchronized_unix_ms)
        || r.selected_repositories.len() > 1000
}

/// Whether `full` is `a`, the byte `sep`, then `b`.
fn is_joined(full: &[u8], a: &[u8], sep: u8, b: &[u8]) -> (res: bool)
    ensures
        res == (full@ == a@ + seq![sep] + b@),
{
    let mut expected: Vec<u8> = Vec::new();
    push_bytes(&mut expected, a);
    expected.push(sep);
    push_bytes(&mut expected, b);
    proof {
        assert(expected@ =~= a@ + seq![sep] + b@);
    }
    bytes_eq(full, expected.as_slice())
}

/// Whether `url` is `web/owner/name.git`.
fn is_clone_url(url: &[u8], web: &[u8], owner: &[u8], name: &[u8]) -> (res: bool)
    ensures
        res == (url@ == web@ + seq![47u8] + owner@ + seq![47u8] + name@ + ".git".spec_bytes()),
{
    let mut expected: Vec<u8> = Vec::new();
    push_bytes(&mut expected, web);
    expected.push(47u8);
    push_bytes(&mut expected, owner);
    expected.push(47u8);
    push_bytes(&mut expected, name);
    push_bytes(&mut expected, ".git".as_bytes());
    proof {
        assert(expected@ =~= web@ + seq![47u8] + owner@ + seq![47u8] + name@ + ".git".spec_bytes());
    }
    bytes_eq(url, expected.as_slice())
}

fn visibility_known_exec(v: &str) -> (res: bool)
    ensures
        res == visibility_known(v.spec_bytes()),
{
    str_is(v, "public") || str_is(v, "private") || str_is(v, "internal")
}

proof fn lemma_selected_check_stops(r: ReconcileGitHubInstallation, n: nat, m: nat)
    requires
        n < m,
        selected_prefix_check(r, n) == Ok::<(), ControlPlaneError>(()),
        selected_check(r, n as int) is Err,
    ensures
        selected_prefix_check(r, m) == selected_check(r, n as int),
    decreases m,
{
    if m > n + 1 {
        lemma_selected_check_stops(r, n, (m - 1) as nat);
    }
}

/// Checks one selected repository against the repositories before it.
fn check_selected(r: &ReconcileGitHubInstallation, k: usize) -> (res: Result<(), ControlPlaneError>)
    requires
        k < r.selected_repositories@.len(),
    ensures
        res == selected_check(*r, k as int),
{
    let s = &r.selected_repositories;
    let x = &s[k];
    validate_text(FIELD_SELECTED_REPOSITORY, x.external_repository_id.as_str())?;
    validate_text(FIELD_SELECTED_REPOSITORY, x.owner.as_str())?;
    validate_text(FIELD_SELECTED_REPOSITORY, x.name.as_str())?;
    validate_text(FIELD_SELECTED_REPOSITORY, x.full_name.as_str())?;
    validate_text(FIELD_SELECTED_REPOSITORY, x.clone_url.as_str())?;
    validate_text(FIELD_SELECTED_REPOSITORY, x.default_branch.as_str())?;
    let owner = x.owner.as_str().as_bytes();
    let name = x.name.as_str().as_bytes();
    let mut ok = positive_id_exec(x.external_repository_id.as_str()) && !contains_byte(owner, 47u8)
        && !contains_byte(name, 47u8) && is_joined(
        x.full_name.as_str().as_bytes(),
        owner,
        47u8,
        name,
    ) && is_clone_url(
        x.clone_url.as_str().as_bytes(),
        r.installation.web_origin.as_str().as_bytes(),
        owner,
        name,
    ) && visibility_known_exec(x.visibility.as_str());
    let mut j: usize = 0;
    while j < k
        invariant
            0 <= j <= k < s@.len(),
            s == r.selected_repositories,
            x == s@[k as int],
            ok ==> forall|i: int|
                0 <= i < j ==> sb((#[trigger] s@[i]).external_repository_id) != sb(
                    x.external_repository_id,
                ) && !(sb(s@[i].owner) == sb(x.owner) && sb(s@[i].name) == sb(x.name)),
            !ok ==> !selected_repository_ok(*r, k as int),
            ok ==> (positive_id(sb(x.external_repository_id)) && !sb(x.owner).contains(47u8)
                && !sb(x.name).contains(47u8) && sb(x.full_name) == sb(x.owner) + seq![47u8]
                + sb(x.name) && sb(x.clone_url) == sb(r.installation.web_origin) + seq![47u8]
                + sb(x.owner) + seq![47u8] + sb(x.name) + ".git".spec_bytes() && visibility_known(
                sb(x.visibility),
            )),
        decreases k - j,
    {
        if ok {
            let y = &s[j];
            if str_is(y.external_repository_id.as_str(), x.external_repository_id.as_str()) || (
            str_is(y.owner.as_str(), x.owner.as_str()) && str_is(y.name.as_str(), x.name.as_str())) {
                ok = false;
            }
        }
        j += 1;
    }
    if !ok {
        return Err(ControlPlaneError::InvalidInput(MSG_SELECTED_REPOSITORY));
    }
    Ok(())
}

/// Validates a GitHub installation reconciliation before any row is read.
pub fn validate_github_reconciliation_pg(r: &ReconcileGitHubInstallation) -> (res: Result<
    (),
    ControlPlaneError,
>)
    ensures
        res == reconciliation_check(*r),
{
    let rec = &r.installation;
    let i = &rec.installation;
    let f = FIELD_INSTALLATION_IDENTITY;
    validate_text(f, i.id.as_str())?;
    validate_text(f, i.tenant_id.as_str())?;
    validate_text(f, i.external_id.as_str())?;
    validate_text(f, i.credential_reference.as_str())?;
    validate_text(f, rec.web_origin.as_str())?;
    validate_text(f, rec.api_origin.as_str())?;
    validate_text(f, rec.account_external_id.as_str())?;
    validate_text(f, rec.account_login.as_str())?;
    validate_origins(rec.web_origin.as_str(), rec.api_origin.as_str())?;
    if reconciliation_invalid_exec(r) {
        return Err(ControlPlaneError::InvalidInput(MSG_RECONCILIATION));
    }
    let n = r.selected_repositories.len();
    let mut k: usize = 0;
    while k < n
        invariant
            0 <= k <= n,
            n == r.selected_repositories@.len(),
            reconciliation_check(*r) == selected_prefix_check(*r, n as nat),
            selected_prefix_check(*r, k as nat) == Ok::<(), ControlPlaneError>(()),
        decreases n - k,
    {
        let step = check_selected(r, k);
        if step.is_err() {
            proof {
                lemma_selected_check_stops(*r, k as nat, n as nat);
            }
            return step;
        }
        k += 1;
    }
    Ok(())
}


/// Whether `k` is the first entry named `n`.
pub open spec fn first_named(s: Seq<PermissionEntry>, n: Seq<u8>, k: int) -> bool {
    &&& 0 <= k < s.len()
    &&& sb(s[k].name) == n
    &&& forall|j: int| 0 <= j < k ==> sb((#[trigger] s[j]).name) != n
}

/// The permission named `n`, as a JSON object holds it: absent, or the
/// level of its (first) entry.
pub open spec fn permission_of(s: Seq<PermissionEntry>, n: Seq<u8>) -> Option<Option<Seq<u8>>> {
    if exists|k: int| first_named(s, n, k) {
        Some(opt_sb(s[choose|k: int| first_named(s, n, k)].level))
    } else {
        None
    }
}

/// Whether two permission values are the same: both absent, or the same
/// object, that is, every permission name with the same level in both,
/// whatever order the entries come in.
pub open spec fn permissions_same(a: GitHubPermissions, b: GitHubPermissions) -> bool {
    match (a, b) {
        (None, None) => true,
        (Some(x), Some(y)) => forall|n: Seq<u8>| #[trigger] permission_of(x@, n) == permission_of(y@, n),
        _ => false,
    }
}

/// The same entries, in the same order.
pub open spec fn entries_equal(x: Seq<PermissionEntry>, y: Seq<PermissionEntry>) -> bool {
    &&& x.len() == y.len()
    &&& forall|i: int|
        0 <= i < x.len() ==> sb((#[trigger] x[i]).name) == sb(y[i].name) && opt_sb(x[i].level) == opt_sb(y[i].level)
}

proof fn lemma_first_named_unique(s: Seq<PermissionEntry>, n: Seq<u8>, k1: int, k2: int)
    requires
        first_named(s, n, k1),
        first_named(s, n, k2),
    ensures
        k1 == k2,
{
    if k1 < k2 {
        assert(sb(s[k1].name) != n);
    } else if k2 < k1 {
        assert(sb(s[k2].name) != n);
    }
}

/// The permission named `n` is the level of its first entry.
proof fn lemma_permission_of_at(s: Seq<PermissionEntry>, n: Seq<u8>, k: int)
    requires
        first_named(s, n, k),
    ensures
        permission_of(s, n) == Some(opt_sb(s[k].level)),
{
    let c = choose|k: int| first_named(s, n, k);
    lemma_first_named_unique(s, n, c, k);
}

/// A name no entry has is absent.
proof fn lemma_permission_of_absent(s: Seq<PermissionEntry>, n: Seq<u8>)
    requires
        forall|j: int| 0 <= j < s.len() ==> sb((#[trigger] s[j]).name) != n,
    ensures
        permission_of(s, n) is None,
{
}

/// Equal entries hold the same permissions.
proof fn lemma_entries_equal_same(x: Seq<PermissionEntry>, y: Seq<PermissionEntry>)
    requires
        entries_equal(x, y),
    ensures
        forall|n: Seq<u8>| #[trigger] permission_of(x, n) == permission_of(y, n),
{
    assert forall|n: Seq<u8>| #[trigger] permission_of(x, n) == permission_of(y, n) by {
        if exists|k: int| first_named(x, n, k) {
            let k = choose|k: int| first_named(x, n, k);
            assert forall|j: int| 0 <= j < k implies sb((#[trigger] y[j]).name) != n by {
                assert(sb(x[j].name) != n);
            }
            assert(first_named(y, n, k));
            lemma_permission_of_at(x, n, k);
            lemma_permission_of_at(y, n, k);
        } else {
            if exists|k: int| first_named(y, n, k) {
                let k = choose|k: int| first_named(y, n, k);
                assert forall|j: int| 0 <= j < k implies sb((#[trigger] x[j]).name) != n by {
                    assert(sb(y[j].name) != n);
                }
                assert(first_named(x, n, k));
            }
        }
    }
}

/// Whether two installation records hold the same values in every field.
pub open spec fn installation_same(a: GitHubInstallationRecord, b: GitHubInstallationRecord) -> bool {
    let x = a.installation;
    let y = b.installation;
    &&& sb(x.id) == sb(y.id)
    &&& sb(x.tenant_id) == sb(y.tenant_id)
    &&& sb(x.provider) == sb(y.provider)
    &&& sb(x.external_id) == sb(y.external_id)
    &&& sb(x.status) == sb(y.status)
    &&& sb(x.credential_reference) == sb(y.credential_reference)
    &&& permissions_same(x.permissions, y.permissions)
    &&& x.created_unix_ms == y.created_unix_ms
    &&& x.updated_unix_ms == y.updated_unix_ms
    &&& sb(a.web_origin) == sb(b.web_origin)
    &&& sb(a.api_origin) == sb(b.api_origin)
    &&& sb(a.account_external_id) == sb(b.account_external_id)
    &&& sb(a.account_login) == sb(b.account_login)
    &&& a.account_kind == b.account_kind
    &&& a.repository_selection == b.repository_selection
    &&& a.lifecycle_generation == b.lifecycle_generation
    &&& a.synchronized_unix_ms == b.synchronized_unix_ms
    &&& a.suspended_unix_ms == b.suspended_unix_ms
    &&& a.revoked_unix_ms == b.revoked_unix_ms
    &&& a.version == b.version
}

/// Whether the incoming installation keeps the durable identity of the
/// SCM installation `base`.
pub open spec fn base_identity_same(incoming: ScmInstallationRecord, base: ScmInstallationRecord) -> bool {
    &&& sb(incoming.id) == sb(base.id)
    &&& sb(incoming.tenant_id) == sb(base.tenant_id)
    &&& sb(incoming.provider) == sb(base.provider)
    &&& sb(incoming.external_id) == sb(base.external_id)
    &&& sb(incoming.credential_reference) == sb(base.credential_reference)
    &&& incoming.created_unix_ms == base.created_unix_ms
}

/// Whether the incoming installation keeps the identity and provider account
/// of the current one, and its status may follow the current status.
pub open spec fn profile_identity_same(incoming: GitHubInstallationRecord, current: GitHubInstallationRecord) -> bool {
    &&& base_identity_same(incoming.installation, current.installation)
    &&& sb(incoming.web_origin) == sb(current.web_origin)
    &&& sb(incoming.api_origin) == sb(current.api_origin)
    &&& sb(incoming.account_external_id) == sb(current.account_external_id)
    &&& incoming.account_kind == current.account_kind
    &&& status_transition_allowed(sb(current.installation.status), sb(incoming.installation.status))
}

/// How a reconciliation writes the installation itself.
#[derive(Debug, Clone, Copy, PartialEq, Eq, Structural)]
pub enum InstallationWrite {
    /// The durable installation already holds exactly the incoming values.
    Replay,
    /// The next version of an existing GitHub profile.
    UpdateProfile,
    /// The first GitHub profile of an existing SCM installation.
    AttachProfile,
    /// A new SCM installation with its first GitHub profile.
    CreateInstallation,
}

pub const FIELD_INSTALLATION_VERSION: &'static str = "GitHub installation version";

pub const FIELD_INSTALLATION_GENERATION: &'static str = "GitHub installation lifecycle generation";

/// The installation write a reconciliation asks for, given the durable GitHub
/// installation and SCM installation with the same tenant and id. A changed
/// profile must name the current version, advance version and lifecycle
/// generation by one, keep its identity and account, and follow an allowed
/// status transition; a first profile starts at version and generation one.
pub open spec fn installation_decision(
    r: ReconcileGitHubInstallation,
    current: Option<GitHubInstallationRecord>,
    base: Option<ScmInstallationRecord>,
) -> Result<InstallationWrite, ControlPlaneError> {
    let incoming = r.installation;
    match current {
        Some(c) => if installation_same(c, incoming) {
            Ok(InstallationWrite::Replay)
        } else if r.expected_version != Some(c.version) {
            Err(ControlPlaneError::IdempotencyConflict)
        } else if c.version == u64::MAX {
            Err(ControlPlaneError::IntegerRange { field: FIELD_INSTALLATION_VERSION })
        } else if incoming.version != c.version + 1 {
            Err(ControlPlaneError::IdempotencyConflict)
        } else if c.lifecycle_generation == u64::MAX {
            Err(ControlPlaneError::IntegerRange { field: FIELD_INSTALLATION_GENERATION })
        } else if incoming.lifecycle_generation != c.lifecycle_generation + 1
            || !profile_identity_same(incoming, c) {
            Err(ControlPlaneError::IdempotencyConflict)
        } else {
            Ok(InstallationWrite::UpdateProfile)
        },
        None => if r.expected_version is Some || incoming.version != 1
            || incoming.lifecycle_generation != 1 {
            Err(ControlPlaneError::IdempotencyConflict)
        } else {
            match base {
                Some(b) => if base_identity_same(incoming.installation, b) {
                    Ok(InstallationWrite::AttachProfile)
                } else {
                    Err(ControlPlaneError::IdempotencyConflict)
                },
                None => Ok(InstallationWrite::CreateInstallation),
            }
        },
    }
}

fn opt_str_same(a: &Option<String>, b: &Option<String>) -> (res: bool)
    ensures
        res == (opt_sb(*a) == opt_sb(*b)),
{
    match (a, b) {
        (None, None) => true,
        (Some(x), Some(y)) => str_is(x.as_str(), y.as_str()),
        (Some(x), None) => false,
        (None, Some(y)) => false,
    }
}

/// The first entry named `n`, if any.
fn find_permission(s: &Vec<PermissionEntry>, n: &str) -> (res: Option<usize>)
    ensures
        match res {
            Some(k) => first_named(s@, n.spec_bytes(), k as int),
            None => forall|j: int| 0 <= j < s@.len() ==> sb((#[trigger] s@[j]).name) != n.spec_bytes(),
        },
{
    let mut i: usize = 0;
    while i < s.len()
        invariant
            0 <= i <= s@.len(),
            forall|j: int| 0 <= j < i ==> sb((#[trigger] s@[j]).name) != n.spec_bytes(),
        decreases s@.len() - i,
    {
        if str_is(s[i].name.as_str(), n) {
            return Some(i);
        }
        i += 1;
    }
    None
}

/// Whether the permission named `n` is the same in both entry lists.
fn permission_agrees(x: &Vec<PermissionEntry>, y: &Vec<PermissionEntry>, n: &str) -> (res: bool)
    ensures
        res == (permission_of(x@, n.spec_bytes()) == permission_of(y@, n.spec_bytes())),
{
    let a = find_permission(x, n);
    let b = find_permission(y, n);
    proof {
        match a {
            Some(k) => lemma_permission_of_at(x@, n.spec_bytes(), k as int),
            None => lemma_permission_of_absent(x@, n.spec_bytes()),
        }
        match b {
            Some(k) => lemma_permission_of_at(y@, n.spec_bytes(), k as int),
            None => lemma_permission_of_absent(y@, n.spec_bytes()),
        }
    }
    match (a, b) {
        (None, None) => true,
        (Some(i), Some(j)) => opt_str_same(&x[i].level, &y[j].level),
        _ => false,
    }
}

/// Whether every name of `x` holds the same permission in `x` and `y`.
fn names_agree(x: &Vec<PermissionEntry>, y: &Vec<PermissionEntry>) -> (res: bool)
    ensures
        res == (forall|j: int|
            0 <= j < x@.len() ==> permission_of(x@, sb((#[trigger] x@[j]).name)) == permission_of(
                y@,
                sb(x@[j].name),
            )),
{
    let mut i: usize = 0;
    while i < x.len()
        invariant
            0 <= i <= x@.len(),
            forall|j: int|
                0 <= j < i ==> permission_of(x@, sb((#[trigger] x@[j]).name)) == permission_of(y@, sb(x@[j].name)),
        decreases x@.len() - i,
    {
        if !permission_agrees(x, y, x[i].name.as_str()) {
            return false;
        }
        i += 1;
    }
    true
}

fn permissions_same_exec(a: &GitHubPermissions, b: &GitHubPermissions) -> (res: bool)
    ensures
        res == permissions_same(*a, *b),
{
    match (a, b) {
        (None, None) => true,
        (Some(x), Some(y)) => {
            let xy = names_agree(x, y);
            let yx = names_agree(y, x);
            proof {
                if xy && yx {
                    assert forall|n: Seq<u8>| #[trigger] permission_of(x@, n) == permission_of(y@, n) by {
                        if exists|j: int| 0 <= j < x@.len() && sb(#[trigger] x@[j].name) == n {
                            let j = choose|j: int| 0 <= j < x@.len() && sb(#[trigger] x@[j].name) == n;
                            assert(permission_of(x@, sb(x@[j].name)) == permission_of(y@, sb(x@[j].name)));
                        } else if exists|j: int| 0 <= j < y@.len() && sb(#[trigger] y@[j].name) == n {
                            let j = choose|j: int| 0 <= j < y@.len() && sb(#[trigger] y@[j].name) == n;
                            assert(permission_of(y@, sb(y@[j].name)) == permission_of(x@, sb(y@[j].name)));
                        } else {
                            lemma_permission_of_absent(x@, n);
                            lemma_permission_of_absent(y@, n);
                        }
                    }
                }
            }
            xy && yx
        },
        (Some(x), None) => false,
        (None, Some(y)) => false,
    }
}

fn base_identity_same_exec(incoming: &ScmInstallationRecord, base: &ScmInstallationRecord) -> (res:
    bool)
    ensures
        res == base_identity_same(*incoming, *base),
{
    str_is(incoming.id.as_str(), base.id.as_str()) && str_is(
        incoming.tenant_id.as_str(),
        base.tenant_id.as_str(),
    ) && str_is(incoming.provider.as_str(), base.provider.as_str()) && str_is(
        incoming.external_id.as_str(),
        base.external_id.as_str(),
    ) && str_is(incoming.credential_reference.as_str(), base.credential_reference.as_str())
        && incoming.created_unix_ms == base.created_unix_ms
}

/// Whether two installation records hold the same values.
pub fn installation_same_exec(a: &GitHubInstallationRecord, b: &GitHubInstallationRecord) -> (res:
    bool)
    ensures
        res == installation_same(*a, *b),
{
    let x = &a.installation;
    let y = &b.installation;
    str_is(x.id.as_str(), y.id.as_str()) && str_is(x.tenant_id.as_str(), y.tenant_id.as_str())
        && str_is(x.provider.as_str(), y.provider.as_str()) && str_is(
        x.external_id.as_str(),
        y.external_id.as_str(),
    ) && str_is(x.status.as_str(), y.status.as_str()) && str_is(
        x.credential_reference.as_str(),
        y.credential_reference.as_str(),
    ) && permissions_same_exec(&x.permissions, &y.permissions) && x.created_unix_ms
        == y.created_unix_ms && x.updated_unix_ms == y.updated_unix_ms && str_is(
        a.web_origin.as_str(),
        b.web_origin.as_str(),
    ) && str_is(a.api_origin.as_str(), b.api_origin.as_str()) && str_is(
        a.account_external_id.as_str(),
        b.account_external_id.as_str(),
    ) && str_is(a.account_login.as_str(), b.account_login.as_str()) && a.account_kind
        == b.account_kind && a.repository_selection == b.repository_selection
        && a.lifecycle_generation == b.lifecycle_generation && a.synchronized_unix_ms
        == b.synchronized_unix_ms && a.suspended_unix_ms == b.suspended_unix_ms
        && a.revoked_unix_ms == b.revoked_unix_ms && a.version == b.version
}

/// Decides how a reconciliation writes the installation, given the durable
/// GitHub installation and SCM installation with the request's tenant and id.
pub fn decide_installation_write(
    r: &ReconcileGitHubInstallation,
    current: Option<&GitHubInstallationRecord>,
    base: Option<&ScmInstallationRecord>,
) -> (res: Result<InstallationWrite, ControlPlaneError>)
    ensures
        res == installation_decision(
            *r,
            match current {
                Some(c) => Some(*c),
                None => None,
            },
            match base {
                Some(b) => Some(*b),
                None => None,
            },
        ),
{
    let incoming = &r.installation;
    match current {
        Some(c) => {
            if installation_same_exec(c, incoming) {
                return Ok(InstallationWrite::Replay);
            }
            if r.expected_version != Some(c.version) {
                return Err(ControlPlaneError::IdempotencyConflict);
            }
            if c.version == u64::MAX {
                return Err(ControlPlaneError::IntegerRange { field: FIELD_INSTALLATION_VERSION });
            }
            if incoming.version != c.version + 1 {
                return Err(ControlPlaneError::IdempotencyConflict);
            }
            if c.lifecycle_generation == u64::MAX {
                return Err(
                    ControlPlaneError::IntegerRange { field: FIELD_INSTALLATION_GENERATION },
                );
            }
            if incoming.lifecycle_generation != c.lifecycle_generation + 1
                || !base_identity_same_exec(&incoming.installation, &c.installation) || !str_is(
                incoming.web_origin.as_str(),
                c.web_origin.as_str(),
            ) || !str_is(incoming.api_origin.as_str(), c.api_origin.as_str()) || !str_is(
                incoming.account_external_id.as_str(),
                c.account_external_id.as_str(),
            ) || incoming.account_kind != c.account_kind || !valid_status_transition(
                c.installation.status.as_str(),
                incoming.installation.status.as_str(),
            ) {
                return Err(ControlPlaneError::IdempotencyConflict);
            }
            Ok(InstallationWrite::UpdateProfile)
        },
        None => {
            if r.expected_version.is_some() || incoming.version != 1
                || incoming.lifecycle_generation != 1 {
                return Err(ControlPlaneError::IdempotencyConflict);
            }
            match base {
                Some(b) => {
                    if base_identity_same_exec(&incoming.installation, b) {
                        Ok(InstallationWrite::AttachProfile)
                    } else {
                        Err(ControlPlaneError::IdempotencyConflict)
                    }
                },
                None => Ok(InstallationWrite::CreateInstallation),
            }
        },
    }
}

/// A row of an installation's repository catalog.
#[derive(Debug, Clone, PartialEq, Eq)]
pub struct GitHubRepositoryCatalogRecord {
    pub installation_id: String,
    pub external_repository_id: String,
    pub tenant_id: String,
    pub web_origin: String,
    pub api_origin: String,
    pub owner: String,
    pub name: String,
    pub full_name: String,
    pub clone_url: String,
    pub visibility: String,
    pub default_branch: String,
    pub status: String,
    pub selection_generation: u64,
    pub first_seen_unix_ms: u64,
    pub last_seen_unix_ms: u64,
    pub removed_unix_ms: Option<u64>,
    pub version: u64,
}

/// How many catalog rows a reconciliation selected, inserted, updated and
/// removed.
#[derive(Debug, Clone, Copy, PartialEq, Eq, Structural)]
pub struct GitHubRepositoryReconciliationSummary {
    pub selected: u64,
    pub inserted: u64,
    pub updated: u64,
    pub removed: u64,
}

/// The index of the first of the first `n` catalog rows with the external
/// repository id `ext`.
#[verifier::opaque]
pub open spec fn find_catalog(catalog: Seq<GitHubRepositoryCatalogRecord>, ext: Seq<u8>, n: nat) -> Option<
    int,
>
    decreases n,
{
    if n == 0 {
        None
    } else {
        match find_catalog(catalog, ext, (n - 1) as nat) {
            Some(j) => Some(j),
            None => if sb(catalog[n - 1].external_repository_id) == ext {
                Some(n - 1)
            } else {
                None
            },
        }
    }
}

/// What the catalog row of a selected repository needs.
#[derive(Debug, Clone, Copy, PartialEq, Eq, Structural)]
pub enum CatalogAction {
    /// No row yet: insert one, selected at this generation.
    Insert,
    /// The row already records this exact selection.
    Keep,
    /// The row is older: rewrite it as selected at this generation.
    Update,
    /// The row belongs to other origins (where rows are bound to their
    /// origins) or records a different selection at this or a later
    /// generation.
    Conflict,
}

/// Whether a catalog row records exactly the selected repository at the
/// incoming generation and synchronization time.
pub open spec fn catalog_exact(
    c: GitHubRepositoryCatalogRecord,
    x: GitHubSelectedRepository,
    incoming: GitHubInstallationRecord,
) -> bool {
    &&& sb(c.owner) == sb(x.owner)
    &&& sb(c.name) == sb(x.name)
    &&& sb(c.full_name) == sb(x.full_name)
    &&& sb(c.clone_url) == sb(x.clone_url)
    &&& sb(c.visibility) == sb(x.visibility)
    &&& sb(c.default_branch) == sb(x.default_branch)
    &&& sb(c.status) == "selected".spec_bytes()
    &&& c.selection_generation == incoming.lifecycle_generation
    &&& c.last_seen_unix_ms == incoming.synchronized_unix_ms
}

pub open spec fn catalog_action(
    incoming: GitHubInstallationRecord,
    x: GitHubSelectedRepository,
    found: Option<GitHubRepositoryCatalogRecord>,
    origins_bound: bool,) -> CatalogAction {
    match found {
        None => CatalogAction::Insert,
        Some(c) => if origins_bound && (sb(c.web_origin) != sb(incoming.web_origin) || sb(
            c.api_origin,
        ) != sb(incoming.api_origin)) {
            CatalogAction::Conflict
        } else if catalog_exact(c, x, incoming) {
            CatalogAction::Keep
        } else if c.selection_generation >= incoming.lifecycle_generation {
            CatalogAction::Conflict
        } else {
            CatalogAction::Update
        },
    }
}

/// The action for selected repository `i` against the catalog.
pub open spec fn repository_action(
    r: ReconcileGitHubInstallation,
    catalog: Seq<GitHubRepositoryCatalogRecord>,
    origins_bound: bool,
    i: int,) -> CatalogAction {
    let x = r.selected_repositories@[i];
    catalog_action(
        r.installation,
        x,
        match find_catalog(catalog, sb(x.external_repository_id), catalog.len()) {
            Some(j) => Some(catalog[j]),
            None => None,
        },
        origins_bound,)
}

/// Whether some selected repository has the external id `ext`.
pub open spec fn is_selected(r: ReconcileGitHubInstallation, ext: Seq<u8>) -> bool {
    exists|i: int|
        0 <= i < r.selected_repositories@.len() && sb(
            (#[trigger] r.selected_repositories@[i]).external_repository_id,
        ) == ext
}

/// Whether catalog row `j` is selected now but no longer in the snapshot.
pub open spec fn catalog_removed(
    r: ReconcileGitHubInstallation,
    catalog: Seq<GitHubRepositoryCatalogRecord>,
    j: int,
) -> bool {
    sb(catalog[j].status) == "selected".spec_bytes() && !is_selected(
        r,
        sb(catalog[j].external_repository_id),
    )
}

/// `s` lists, in increasing order, exactly the indices below `n` where `p`
/// holds.
pub open spec fn lists_exactly(s: Seq<usize>, n: int, p: spec_fn(int) -> bool) -> bool {
    &&& forall|a: int, b: int| 0 <= a < b < s.len() ==> s[a] < s[b]
    &&& forall|k: int| 0 <= k < s.len() ==> s[k] < n && p(#[trigger] s[k] as int)
    &&& forall|i: int| 0 <= i < n && #[trigger] p(i) ==> exists|k: int| 0 <= k < s.len() && s[k] == i
}

/// The catalog writes of a reconciliation: the selected repositories (by
/// index) whose rows are inserted and updated, the catalog rows (by index)
/// that are marked removed, and the counts.
#[derive(Debug, Clone, PartialEq, Eq)]
pub struct CatalogPlan {
    pub inserts: Vec<usize>,
    pub updates: Vec<usize>,
    pub removals: Vec<usize>,
    pub summary: GitHubRepositoryReconciliationSummary,
}

/// The catalog plan of a reconciliation whose repositories have no conflict.
pub open spec fn catalog_plan_exact(
    r: ReconcileGitHubInstallation,
    catalog: Seq<GitHubRepositoryCatalogRecord>,
    origins_bound: bool,
    p: CatalogPlan,) -> bool {
    let n = r.selected_repositories@.len() as int;
    &&& lists_exactly(p.inserts@, n, |i: int| repository_action(r, catalog, origins_bound, i) == CatalogAction::Insert)
    &&& lists_exactly(p.updates@, n, |i: int| repository_action(r, catalog, origins_bound, i) == CatalogAction::Update)
    &&& lists_exactly(p.removals@, catalog.len() as int, |j: int| catalog_removed(r, catalog, j))
    &&& p.summary.selected == n
    &&& p.summary.inserted == p.inserts@.len()
    &&& p.summary.updated == p.updates@.len()
    &&& p.summary.removed == p.removals@.len()
}

fn find_catalog_exec(catalog: &Vec<GitHubRepositoryCatalogRecord>, ext: &str) -> (res: Option<usize>)
    ensures
        match res {
            Some(j) => j < catalog@.len() && find_catalog(catalog@, ext.spec_bytes(), catalog@.len())
                == Some(j as int),
            None => find_catalog(catalog@, ext.spec_bytes(), catalog@.len()) is None,
        },
{
    let mut j: usize = 0;
    proof {
        reveal(find_catalog);
    }
    while j < catalog.len()
        invariant
            0 <= j <= catalog@.len(),
            find_catalog(catalog@, ext.spec_bytes(), j as nat) is None,
        decreases catalog@.len() - j,
    {
        proof {
            reveal(find_catalog);
        }
        if str_is(catalog[j].external_repository_id.as_str(), ext) {
            proof {
                assert(find_catalog(catalog@, ext.spec_bytes(), (j + 1) as nat) == Some(j as int));
                lemma_find_catalog_stays(catalog@, ext.spec_bytes(), (j + 1) as nat, catalog@.len());
            }
            return Some(j);
        }
        j += 1;
    }
    None
}

proof fn lemma_find_catalog_stays(
    catalog: Seq<GitHubRepositoryCatalogRecord>,
    ext: Seq<u8>,
    n: nat,
    m: nat,
)
    requires
        n <= m,
        find_catalog(catalog, ext, n) is Some,
    ensures
        find_catalog(catalog, ext, m) == find_catalog(catalog, ext, n),
    decreases m,
{
    reveal(find_catalog);
    if m > n {
        lemma_find_catalog_stays(catalog, ext, n, (m - 1) as nat);
    }
}

fn catalog_exact_exec(
    c: &GitHubRepositoryCatalogRecord,
    x: &GitHubSelectedRepository,
    incoming: &GitHubInstallationRecord,
) -> (res: bool)
    ensures
        res == catalog_exact(*c, *x, *incoming),
{
    str_is(c.owner.as_str(), x.owner.as_str()) && str_is(c.name.as_str(), x.name.as_str())
        && str_is(c.full_name.as_str(), x.full_name.as_str()) && str_is(
        c.clone_url.as_str(),
        x.clone_url.as_str(),
    ) && str_is(c.visibility.as_str(), x.visibility.as_str()) && str_is(
        c.default_branch.as_str(),
        x.default_branch.as_str(),
    ) && str_is(c.status.as_str(), "selected") && c.selection_generation
        == incoming.lifecycle_generation && c.last_seen_unix_ms == incoming.synchronized_unix_ms
}

/// The catalog action for one selected repository.
fn catalog_action_exec(
    r: &ReconcileGitHubInstallation,
    catalog: &Vec<GitHubRepositoryCatalogRecord>,
    origins_bound: bool,
    i: usize,) -> (res: CatalogAction)
    requires
        i < r.selected_repositories@.len(),
    ensures
        res == repository_action(*r, catalog@, origins_bound, i as int),
{
    let x = &r.selected_repositories[i];
    let incoming = &r.installation;
    let ext = x.external_repository_id.as_str();
    let found = find_catalog_exec(catalog, ext);
    match found {
        None => CatalogAction::Insert,
        Some(j) => {
            let c = &catalog[j];
            if origins_bound && (!str_is(c.web_origin.as_str(), incoming.web_origin.as_str())
                || !str_is(c.api_origin.as_str(), incoming.api_origin.as_str())) {
                CatalogAction::Conflict
            } else if catalog_exact_exec(c, x, incoming) {
                CatalogAction::Keep
            } else if c.selection_generation >= incoming.lifecycle_generation {
                CatalogAction::Conflict
            } else {
                CatalogAction::Update
            }
        },
    }
}

fn is_selected_exec(r: &ReconcileGitHubInstallation, ext: &str) -> (res: bool)
    ensures
        res == is_selected(*r, ext.spec_bytes()),
{
    let s = &r.selected_repositories;
    let mut i: usize = 0;
    while i < s.len()
        invariant
            0 <= i <= s@.len(),
            s == r.selected_repositories,
            forall|k: int| 0 <= k < i ==> sb((#[trigger] s@[k]).external_repository_id) != ext.spec_bytes(),
        decreases s@.len() - i,
    {
        if str_is(s[i].external_repository_id.as_str(), ext) {
            return true;
        }
        i += 1;
    }
    false
}

/// Plans the catalog writes of a reconciliation against the installation's
/// current catalog: every selected repository is inserted, kept or updated,
/// and every selected row that left the snapshot is removed. Any conflicting
/// repository refuses the whole reconciliation.
pub fn plan_catalog_reconciliation(
    r: &ReconcileGitHubInstallation,
    catalog: &Vec<GitHubRepositoryCatalogRecord>,
    origins_bound: bool,) -> (res: Result<CatalogPlan, ControlPlaneError>)
    ensures
        res is Err <==> exists|i: int|
            0 <= i < r.selected_repositories@.len() && repository_action(*r, catalog@, origins_bound, i)
                == CatalogAction::Conflict,
        res is Err ==> res == Err::<CatalogPlan, ControlPlaneError>(
            ControlPlaneError::IdempotencyConflict,
        ),
        res matches Ok(p) ==> catalog_plan_exact(*r, catalog@, origins_bound, p),
{
    let n = r.selected_repositories.len();
    let ghost ins = |i: int| repository_action(*r, catalog@, origins_bound, i) == CatalogAction::Insert;
    let ghost upd = |i: int| repository_action(*r, catalog@, origins_bound, i) == CatalogAction::Update;
    let mut inserts: Vec<usize> = Vec::new();
    let mut updates: Vec<usize> = Vec::new();
    let mut i: usize = 0;
    while i < n
        invariant
            0 <= i <= n,
            n == r.selected_repositories@.len(),
            forall|k: int| 0 <= k < i ==> repository_action(*r, catalog@, origins_bound, k) != CatalogAction::Conflict,
            lists_exactly(inserts@, i as int, ins),
            lists_exactly(updates@, i as int, upd),
            ins == (|i: int| repository_action(*r, catalog@, origins_bound, i) == CatalogAction::Insert),
            upd == (|i: int| repository_action(*r, catalog@, origins_bound, i) == CatalogAction::Update),
        decreases n - i,
    {
        let action = catalog_action_exec(r, catalog, origins_bound, i);
        match action {
            CatalogAction::Conflict => {
                return Err(ControlPlaneError::IdempotencyConflict);
            },
            CatalogAction::Insert => {
                let ghost old_ins = inserts@;
                inserts.push(i);
                proof {
                    assert forall|j: int| 0 <= j < i + 1 && #[trigger] ins(j) implies exists|k: int|
                        0 <= k < inserts@.len() && inserts@[k] == j by {
                        if j == i {
                            assert(inserts@[old_ins.len() as int] == j);
                        } else {
                            let k = choose|k: int| 0 <= k < old_ins.len() && old_ins[k] == j;
                            assert(inserts@[k] == j);
                        }
                    }
                }
            },
            CatalogAction::Update => {
                let ghost old_upd = updates@;
                updates.push(i);
                proof {
                    assert forall|j: int| 0 <= j < i + 1 && #[trigger] upd(j) implies exists|k: int|
                        0 <= k < updates@.len() && updates@[k] == j by {
                        if j == i {
                            assert(updates@[old_upd.len() as int] == j);
                        } else {
                            let k = choose|k: int| 0 <= k < old_upd.len() && old_upd[k] == j;
                            assert(updates@[k] == j);
                        }
                    }
                }
            },
            CatalogAction::Keep => {},
        }
        i += 1;
    }
    let ghost rem = |j: int| catalog_removed(*r, catalog@, j);
    let mut removals: Vec<usize> = Vec::new();
    let mut j: usize = 0;
    while j < catalog.len()
        invariant
            0 <= j <= catalog@.len(),
            lists_exactly(removals@, j as int, rem),
            rem == (|j: int| catalog_removed(*r, catalog@, j)),
        decreases catalog@.len() - j,
    {
        if str_is(catalog[j].status.as_str(), "selected") && !is_selected_exec(
            r,
            catalog[j].external_repository_id.as_str(),
        ) {
            let ghost old_rem = removals@;
            removals.push(j);
            proof {
                assert forall|x: int| 0 <= x < j + 1 && #[trigger] rem(x) implies exists|k: int|
                    0 <= k < removals@.len() && removals@[k] == x by {
                    if x == j {
                        assert(removals@[old_rem.len() as int] == x);
                    } else {
                        let k = choose|k: int| 0 <= k < old_rem.len() && old_rem[k] == x;
                        assert(removals@[k] == x);
                    }
                }
            }
        }
        j += 1;
    }
    let summary = GitHubRepositoryReconciliationSummary {
        selected: n as u64,
        inserted: inserts.len() as u64,
        updated: updates.len() as u64,
        removed: removals.len() as u64,
    };
    Ok(CatalogPlan { inserts, updates, removals, summary })
}

/// Whether some selected repository conflicts with its catalog row.
pub open spec fn catalog_conflict(r: ReconcileGitHubInstallation, catalog: Seq<GitHubRepositoryCatalogRecord>, origins_bound: bool) -> bool {
    exists|i: int|
        0 <= i < r.selected_repositories@.len() && repository_action(r, catalog, origins_bound, i)
            == CatalogAction::Conflict
}

/// Everything a reconciliation writes: the installation write, the catalog
/// plan, whether the repository links take the installation's status (they
/// keep their own while it is active), and whether nothing changed at all.
#[derive(Debug, Clone, PartialEq, Eq)]
pub struct GitHubReconciliationPlan {
    pub write: InstallationWrite,
    pub catalog: CatalogPlan,
    pub links_take_status: bool,
    pub replayed: bool,
}

/// The outcome `reconcile_github_installation` owes, given the durable
/// installation, SCM installation and catalog of the request's installation.
pub open spec fn reconciliation_outcome(
    r: ReconcileGitHubInstallation,
    current: Option<GitHubInstallationRecord>,
    base: Option<ScmInstallationRecord>,
    catalog: Seq<GitHubRepositoryCatalogRecord>,
    origins_bound: bool,
    res: Result<GitHubReconciliationPlan, ControlPlaneError>,) -> bool {
    match reconciliation_check(r) {
        Err(e) => res == Err::<GitHubReconciliationPlan, ControlPlaneError>(e),
        Ok(()) => match installation_decision(r, current, base) {
            Err(e) => res == Err::<GitHubReconciliationPlan, ControlPlaneError>(e),
            Ok(w) => if catalog_conflict(r, catalog, origins_bound) {
                res == Err::<GitHubReconciliationPlan, ControlPlaneError>(
                    ControlPlaneError::IdempotencyConflict,
                )
            } else {
                res matches Ok(p) && p.write == w && catalog_plan_exact(r, catalog, origins_bound, p.catalog)
                    && p.links_take_status == (sb(r.installation.installation.status)
                    != "active".spec_bytes()) && p.replayed == (w == InstallationWrite::Replay
                    && p.catalog.summary.inserted == 0 && p.catalog.summary.updated == 0
                    && p.catalog.summary.removed == 0)
            },
        },
    }
}

/// The decisions of a GitHub installation reconciliation: validates the
/// request, decides the installation write against the durable installation
/// (`current`) and SCM installation (`base`), and plans the catalog writes
/// against the installation's catalog rows; with `origins_bound`, a row of
/// other origins is a conflict (as when a setup completes). A replay changes
/// nothing.
pub fn plan_github_reconciliation(
    r: &ReconcileGitHubInstallation,
    current: Option<&GitHubInstallationRecord>,
    base: Option<&ScmInstallationRecord>,
    catalog: &Vec<GitHubRepositoryCatalogRecord>,
    origins_bound: bool,) -> (res: Result<GitHubReconciliationPlan, ControlPlaneError>)
    ensures
        reconciliation_outcome(
            *r,
            match current {
                Some(c) => Some(*c),
                None => None,
            },
            match base {
                Some(b) => Some(*b),
                None => None,
            },
            catalog@,
            origins_bound,
            res,),
{
    validate_github_reconciliation_pg(r)?;
    let write = decide_installation_write(r, current, base)?;
    let plan = plan_catalog_reconciliation(r, catalog, origins_bound)?;
    let replayed = write == InstallationWrite::Replay && plan.summary.inserted == 0
        && plan.summary.updated == 0 && plan.summary.removed == 0;
    let links_take_status = !str_is(r.installation.installation.status.as_str(), "active");
    Ok(GitHubReconciliationPlan { write, catalog: plan, links_take_status, replayed })
}

proof fn lemma_find_catalog_first(catalog: Seq<GitHubRepositoryCatalogRecord>, ext: Seq<u8>, n: nat)
    requires
        n <= catalog.len(),
    ensures
        find_catalog(catalog, ext, n) matches Some(j) ==> 0 <= j < n && sb(
            catalog[j].external_repository_id,
        ) == ext && forall|k: int| 0 <= k < j ==> sb((#[trigger] catalog[k]).external_repository_id) != ext,
        find_catalog(catalog, ext, n) is None ==> forall|k: int|
            0 <= k < n ==> sb((#[trigger] catalog[k]).external_repository_id) != ext,
    decreases n,
{
    reveal(find_catalog);
    if n > 0 {
        lemma_find_catalog_first(catalog, ext, (n - 1) as nat);
    }
}

proof fn lemma_find_catalog_is(catalog: Seq<GitHubRepositoryCatalogRecord>, ext: Seq<u8>, n: nat, j: int)
    requires
        n <= catalog.len(),
        0 <= j < n,
        sb(catalog[j].external_repository_id) == ext,
        forall|k: int| 0 <= k < j ==> sb((#[trigger] catalog[k]).external_repository_id) != ext,
    ensures
        find_catalog(catalog, ext, n) == Some(j),
{
    lemma_find_catalog_first(catalog, ext, n);
}

proof fn lemma_selected_ids_distinct(r: ReconcileGitHubInstallation, n: nat)
    requires
        n <= r.selected_repositories@.len(),
        selected_prefix_check(r, n) == Ok::<(), ControlPlaneError>(()),
    ensures
        forall|i: int, j: int|
            0 <= i < j < n ==> sb((#[trigger] r.selected_repositories@[i]).external_repository_id)
                != sb((#[trigger] r.selected_repositories@[j]).external_repository_id),
    decreases n,
{
    if n > 0 {
        lemma_selected_ids_distinct(r, (n - 1) as nat);
        assert(selected_check(r, n - 1) == Ok::<(), ControlPlaneError>(()));
        assert(selected_repository_ok(r, n - 1));
    }
}

/// The catalog row `c` records the selected repository `x` as the incoming
/// snapshot selects it.
pub open spec fn row_records(
    c: GitHubRepositoryCatalogRecord,
    x: GitHubSelectedRepository,
    incoming: GitHubInstallationRecord,
) -> bool {
    &&& sb(c.external_repository_id) == sb(x.external_repository_id)
    &&& sb(c.web_origin) == sb(incoming.web_origin)
    &&& sb(c.api_origin) == sb(incoming.api_origin)
    &&& catalog_exact(c, x, incoming)
}

/// The selected repository whose row `j` a reconciliation rewrites.
pub open spec fn updated_by(r: ReconcileGitHubInstallation, catalog: Seq<GitHubRepositoryCatalogRecord>, origins_bound: bool, j: int, i: int) -> bool {
    &&& 0 <= i < r.selected_repositories@.len()
    &&& repository_action(r, catalog, origins_bound, i) == CatalogAction::Update
    &&& find_catalog(catalog, sb(r.selected_repositories@[i].external_repository_id), catalog.len())
        == Some(j)
}

/// `catalog2` is `catalog` after the writes a reconciliation plans: each
/// updated row records its repository, each removed row keeps its id with
/// the status `removed`, every other row stays, and the rows after the old
/// ones are exactly rows recording the inserted repositories.
pub open spec fn catalog_applied(
    r: ReconcileGitHubInstallation,
    catalog: Seq<GitHubRepositoryCatalogRecord>,
    catalog2: Seq<GitHubRepositoryCatalogRecord>,
    origins_bound: bool,) -> bool {
    let n = catalog.len() as int;
    let sel = r.selected_repositories@;
    let incoming = r.installation;
    &&& catalog2.len() >= n
    &&& forall|j: int, i: int|
        0 <= j < n && #[trigger] updated_by(r, catalog, origins_bound, j, i) ==> row_records(catalog2[j], sel[i], incoming)
    &&& forall|j: int|
        0 <= j < n && (forall|i: int| !#[trigger] updated_by(r, catalog, origins_bound, j, i)) && catalog_removed(r, catalog, j)
            ==> sb((#[trigger] catalog2[j]).external_repository_id) == sb(catalog[j].external_repository_id)
            && sb(catalog2[j].status) == "removed".spec_bytes()
    &&& forall|j: int|
        0 <= j < n && (forall|i: int| !#[trigger] updated_by(r, catalog, origins_bound, j, i)) && !catalog_removed(r, catalog, j)
            ==> #[trigger] catalog2[j] == catalog[j]
    &&& forall|i: int|
        0 <= i < sel.len() && #[trigger] repository_action(r, catalog, origins_bound, i) == CatalogAction::Insert
            ==> exists|k: int| n <= k < catalog2.len() && row_records(#[trigger] catalog2[k], sel[i], incoming)
    &&& forall|k: int|
        n <= k < catalog2.len() ==> exists|i: int|
            0 <= i < sel.len() && repository_action(r, catalog, origins_bound, i) == CatalogAction::Insert && row_records(
                #[trigger] catalog2[k],
                sel[i],
                incoming,
            )
}

proof fn lemma_installation_same_refl(a: GitHubInstallationRecord)
    ensures
        installation_same(a, a),
{
}

/// What the replay lemmas share: a valid snapshot without catalog
/// conflicts, an old catalog with one row per id, and its writes in place.
pub open spec fn replay_setup(
    r: ReconcileGitHubInstallation,
    catalog: Seq<GitHubRepositoryCatalogRecord>,
    catalog2: Seq<GitHubRepositoryCatalogRecord>,
    origins_bound: bool,) -> bool {
    &&& reconciliation_check(r) is Ok
    &&& !catalog_conflict(r, catalog, origins_bound)
    &&& forall|a: int, b: int|
        0 <= a < b < catalog.len() ==> sb((#[trigger] catalog[a]).external_repository_id) != sb(
            (#[trigger] catalog[b]).external_repository_id,
        )
    &&& catalog_applied(r, catalog, catalog2, origins_bound)
}

proof fn lemma_replay_selected_distinct(r: ReconcileGitHubInstallation)
    requires
        reconciliation_check(r) is Ok,
    ensures
        forall|i: int, j: int|
            0 <= i < r.selected_repositories@.len() && 0 <= j < r.selected_repositories@.len() && i != j
                ==> sb((#[trigger] r.selected_repositories@[i]).external_repository_id) != sb(
                (#[trigger] r.selected_repositories@[j]).external_repository_id,
            ),
{
    assert(selected_prefix_check(r, r.selected_repositories@.len()) == Ok::<(), ControlPlaneError>(()));
    lemma_selected_ids_distinct(r, r.selected_repositories@.len());
    assert forall|i: int, j: int|
        0 <= i < r.selected_repositories@.len() && 0 <= j < r.selected_repositories@.len() && i != j
            implies sb((#[trigger] r.selected_repositories@[i]).external_repository_id) != sb(
            (#[trigger] r.selected_repositories@[j]).external_repository_id,
        ) by {
        if i > j {
            assert(sb(r.selected_repositories@[j].external_repository_id) != sb(
                r.selected_repositories@[i].external_repository_id,
            ));
        }
    }
}

/// An old row keeps its external id, and is selected afterwards only when
/// its id is in the snapshot.
proof fn lemma_replay_old_row(
    r: ReconcileGitHubInstallation,
    catalog: Seq<GitHubRepositoryCatalogRecord>,
    catalog2: Seq<GitHubRepositoryCatalogRecord>,
    origins_bound: bool,
    j: int,)
    requires
        catalog_applied(r, catalog, catalog2, origins_bound),
        0 <= j < catalog.len(),
    ensures
        sb(catalog2[j].external_repository_id) == sb(catalog[j].external_repository_id),
        !catalog_removed(r, catalog2, j),
{
    let sel = r.selected_repositories@;
    if exists|ii: int| updated_by(r, catalog, origins_bound, j, ii) {
        let ii = choose|ii: int| updated_by(r, catalog, origins_bound, j, ii);
        lemma_find_catalog_first(catalog, sb(sel[ii].external_repository_id), catalog.len());
        assert(row_records(catalog2[j], sel[ii], r.installation));
        assert(sb(sel[ii].external_repository_id) == sb(catalog2[j].external_repository_id));
    } else if catalog_removed(r, catalog, j) {
        assert("removed".spec_bytes() != "selected".spec_bytes()) by {
            broadcast use vstd::string::is_ascii_spec_bytes;
            reveal_strlit("removed");
            reveal_strlit("selected");
            assert(vstd::string::is_ascii("removed"));
            assert(vstd::string::is_ascii("selected"));
            assert("removed".spec_bytes()[0] != "selected".spec_bytes()[0]);
        }
    } else {
        assert(catalog2[j] == catalog[j]);
    }
}

/// A new row records an inserted repository of the snapshot.
proof fn lemma_replay_new_row(
    r: ReconcileGitHubInstallation,
    catalog: Seq<GitHubRepositoryCatalogRecord>,
    catalog2: Seq<GitHubRepositoryCatalogRecord>,
    origins_bound: bool,
    k: int,)
    requires
        catalog_applied(r, catalog, catalog2, origins_bound),
        catalog.len() <= k < catalog2.len(),
    ensures
        !catalog_removed(r, catalog2, k),
{
    let sel = r.selected_repositories@;
    let i = choose|i: int|
        0 <= i < sel.len() && repository_action(r, catalog, origins_bound, i) == CatalogAction::Insert
            && row_records(#[trigger] catalog2[k], sel[i], r.installation);
    assert(sb(sel[i].external_repository_id) == sb(catalog2[k].external_repository_id));
}

/// After the writes, each selected repository finds a row that records it.
proof fn lemma_replay_keeps(r: ReconcileGitHubInstallation, catalog: Seq<GitHubRepositoryCatalogRecord>, catalog2: Seq<GitHubRepositoryCatalogRecord>, origins_bound: bool, i: int)
    requires
        replay_setup(r, catalog, catalog2, origins_bound),
        0 <= i < r.selected_repositories@.len(),
    ensures
        repository_action(r, catalog2, origins_bound, i) == CatalogAction::Keep,
{
    let sel = r.selected_repositories@;
    let incoming = r.installation;
    let n = catalog.len() as int;
    let x = sel[i];
    let e = sb(x.external_repository_id);
    lemma_replay_selected_distinct(r);
    lemma_find_catalog_first(catalog, e, catalog.len());
    lemma_find_catalog_first(catalog2, e, catalog2.len());
    let a = repository_action(r, catalog, origins_bound, i);
    assert(a != CatalogAction::Conflict);
    if a == CatalogAction::Insert {
        let k = choose|k: int| n <= k < catalog2.len() && row_records(#[trigger] catalog2[k], sel[i], incoming);
        assert(sb(catalog2[k].external_repository_id) == e);
        let j = find_catalog(catalog2, e, catalog2.len()).unwrap();
        if j < n {
            lemma_replay_old_row(r, catalog, catalog2, origins_bound, j);
            assert(sb(catalog[j].external_repository_id) != e);
        }
        let i2 = choose|i2: int|
            0 <= i2 < sel.len() && repository_action(r, catalog, origins_bound, i2) == CatalogAction::Insert
                && row_records(#[trigger] catalog2[j], sel[i2], incoming);
        assert(sb(sel[i2].external_repository_id) == e);
        assert(i2 == i);
    } else {
        let j = find_catalog(catalog, e, catalog.len()).unwrap();
        assert forall|k: int| 0 <= k < j implies sb((#[trigger] catalog2[k]).external_repository_id) != e by {
            lemma_replay_old_row(r, catalog, catalog2, origins_bound, k);
        }
        if a == CatalogAction::Update {
            assert(updated_by(r, catalog, origins_bound, j, i));
        } else {
            assert forall|ii: int| !#[trigger] updated_by(r, catalog, origins_bound, j, ii) by {
                if updated_by(r, catalog, origins_bound, j, ii) {
                    lemma_find_catalog_first(catalog, sb(sel[ii].external_repository_id), catalog.len());
                    assert(sb(sel[ii].external_repository_id) == e);
                }
            }
            assert(is_selected(r, sb(catalog[j].external_repository_id)));
            assert(catalog2[j] == catalog[j]);
        }
        lemma_find_catalog_is(catalog2, e, catalog2.len(), j);
    }
}

/// Reconciling the same snapshot again, once its writes are in place, is a
/// replay: nothing is inserted, updated or removed. The old catalog has one
/// row per external repository id, as the durable catalog does.
pub proof fn law_reconciliation_replay(
    r: ReconcileGitHubInstallation,
    current: Option<GitHubInstallationRecord>,
    base: Option<ScmInstallationRecord>,
    catalog: Seq<GitHubRepositoryCatalogRecord>,
    origins_bound: bool,
    p: GitHubReconciliationPlan,
    catalog2: Seq<GitHubRepositoryCatalogRecord>,
    res: Result<GitHubReconciliationPlan, ControlPlaneError>,)
    requires
        reconciliation_outcome(r, current, base, catalog, origins_bound, Ok(p)),
        forall|a: int, b: int|
            0 <= a < b < catalog.len() ==> sb((#[trigger] catalog[a]).external_repository_id) != sb(
                (#[trigger] catalog[b]).external_repository_id,
            ),
        catalog_applied(r, catalog, catalog2, origins_bound),
        reconciliation_outcome(
            r,
            Some(r.installation),
            Some(r.installation.installation),
            catalog2,
            origins_bound,
            res,),
    ensures
        res matches Ok(p2) && p2.replayed && p2.write == InstallationWrite::Replay,
{
    lemma_installation_same_refl(r.installation);
    assert(replay_setup(r, catalog, catalog2, origins_bound));
    assert forall|i: int| 0 <= i < r.selected_repositories@.len() implies #[trigger] repository_action(
        r,
        catalog2,
        origins_bound,
        i,) == CatalogAction::Keep by {
        lemma_replay_keeps(r, catalog, catalog2, origins_bound, i);
    }
    assert forall|j: int| 0 <= j < catalog2.len() implies !#[trigger] catalog_removed(r, catalog2, j) by {
        if j < catalog.len() {
            lemma_replay_old_row(r, catalog, catalog2, origins_bound, j);
        } else {
            lemma_replay_new_row(r, catalog, catalog2, origins_bound, j);
        }
    }
    let p2 = res.unwrap();
    if p2.catalog.inserts@.len() > 0 {
        assert(repository_action(r, catalog2, origins_bound, p2.catalog.inserts@[0] as int) == CatalogAction::Insert);
    }
    if p2.catalog.updates@.len() > 0 {
        assert(repository_action(r, catalog2, origins_bound, p2.catalog.updates@[0] as int) == CatalogAction::Update);
    }
    if p2.catalog.removals@.len() > 0 {
        assert(catalog_removed(r, catalog2, p2.catalog.removals@[0] as int));
    }
}

/// A request to move a GitHub installation to another status.
#[derive(Debug, Clone, PartialEq, Eq)]
pub struct SetGitHubInstallationStatus {
    pub tenant_id: String,
    pub installation_id: String,
    pub status: String,
    pub expected_version: u64,
    pub lifecycle_generation: u64,
    pub now_unix_ms: u64,
}

pub const MSG_STATUS_TRANSITION: &'static str = "invalid GitHub installation status transition";

/// What `validate_installation_status_request` decides: the tenant and
/// installation ids, then a positive expected version and generation and a
/// known status.
pub open spec fn status_request_check(r: SetGitHubInstallationStatus) -> Result<(), ControlPlaneError> {
    then_check(
        scm_text_check("GitHub installation tenant", sb(r.tenant_id)),
        then_check(
            scm_text_check("GitHub installation id", sb(r.installation_id)),
            if r.expected_version == 0 || r.lifecycle_generation == 0 || !status_known(sb(r.status)) {
                Err(ControlPlaneError::InvalidInput(MSG_STATUS_TRANSITION))
            } else {
                Ok(())
            },
        ),
    )
}

/// Checks a status change request before the installation is read.
pub fn validate_installation_status_request(r: &SetGitHubInstallationStatus) -> (res: Result<
    (),
    ControlPlaneError,
>)
    ensures
        res == status_request_check(*r),
{
    validate_text("GitHub installation tenant", r.tenant_id.as_str())?;
    validate_text("GitHub installation id", r.installation_id.as_str())?;
    if r.expected_version == 0 || r.lifecycle_generation == 0 || !status_known_exec(r.status.as_str()) {
        return Err(ControlPlaneError::InvalidInput(MSG_STATUS_TRANSITION));
    }
    Ok(())
}

/// The installation after a status change at the request's time: the new
/// status, generation and synchronization time; suspended now when the new
/// status is `suspended` (else not suspended), revoked now when it is
/// `revoked` (else as before); the next version.
pub open spec fn status_changed(c: GitHubInstallationRecord, r: SetGitHubInstallationStatus) -> GitHubInstallationRecord {
    GitHubInstallationRecord {
        installation: ScmInstallationRecord {
            status: r.status,
            updated_unix_ms: r.now_unix_ms,
            ..c.installation
        },
        lifecycle_generation: r.lifecycle_generation,
        synchronized_unix_ms: r.now_unix_ms,
        suspended_unix_ms: if sb(r.status) == "suspended".spec_bytes() {
            Some(r.now_unix_ms)
        } else {
            None
        },
        revoked_unix_ms: if sb(r.status) == "revoked".spec_bytes() {
            Some(r.now_unix_ms)
        } else {
            c.revoked_unix_ms
        },
        version: (c.version + 1) as u64,
        ..c
    }
}

/// Whether the installation already has the requested status at the
/// requested generation.
pub open spec fn status_already_set(c: GitHubInstallationRecord, r: SetGitHubInstallationStatus) -> bool {
    sb(c.installation.status) == sb(r.status) && c.lifecycle_generation == r.lifecycle_generation
}

/// Whether a status change of the installation `c` is refused: a revoked
/// installation stays revoked, and a change names the current version,
/// advances the generation by one and does not go back in time.
pub open spec fn status_change_refused(c: GitHubInstallationRecord, r: SetGitHubInstallationStatus) -> bool {
    sb(c.installation.status) == "revoked".spec_bytes() || c.version != r.expected_version
        || r.lifecycle_generation != c.lifecycle_generation + 1 || r.now_unix_ms
        < c.synchronized_unix_ms
}

fn clone_permissions(p: &GitHubPermissions) -> (res: GitHubPermissions)
    ensures
        permissions_same(res, *p),
{
    match p {
        None => None,
        Some(entries) => {
            let mut out: Vec<crate::scm::PermissionEntry> = Vec::new();
            let mut i: usize = 0;
            while i < entries.len()
                invariant
                    0 <= i <= entries@.len(),
                    out@.len() == i,
                    forall|k: int|
                        0 <= k < i ==> sb((#[trigger] out@[k]).name) == sb(entries@[k].name)
                            && opt_sb(out@[k].level) == opt_sb(entries@[k].level),
                decreases entries@.len() - i,
            {
                let e = &entries[i];
                out.push(crate::scm::PermissionEntry { name: e.name.clone(), level: e.level.clone() });
                i += 1;
            }
            proof {
                lemma_entries_equal_same(out@, entries@);
            }
            Some(out)
        },
    }
}

/// A copy of an installation record.
pub fn clone_installation(c: &GitHubInstallationRecord) -> (res: GitHubInstallationRecord)
    ensures
        installation_same(res, *c),
{
    let i = &c.installation;
    GitHubInstallationRecord {
        installation: ScmInstallationRecord {
            id: i.id.clone(),
            tenant_id: i.tenant_id.clone(),
            provider: i.provider.clone(),
            external_id: i.external_id.clone(),
            status: i.status.clone(),
            credential_reference: i.credential_reference.clone(),
            permissions: clone_permissions(&i.permissions),
            created_unix_ms: i.created_unix_ms,
            updated_unix_ms: i.updated_unix_ms,
        },
        web_origin: c.web_origin.clone(),
        api_origin: c.api_origin.clone(),
        account_external_id: c.account_external_id.clone(),
        account_login: c.account_login.clone(),
        account_kind: c.account_kind,
        repository_selection: c.repository_selection,
        lifecycle_generation: c.lifecycle_generation,
        synchronized_unix_ms: c.synchronized_unix_ms,
        suspended_unix_ms: c.suspended_unix_ms,
        revoked_unix_ms: c.revoked_unix_ms,
        version: c.version,
    }
}

/// Decides a status change of the installation `c`: a replay when it
/// already has the requested status and generation, otherwise the changed
/// installation unless the change is refused.
pub fn decide_installation_status(c: &GitHubInstallationRecord, r: &SetGitHubInstallationStatus) -> (res:
    Result<IdempotentResult<GitHubInstallationRecord>, ControlPlaneError>)
    requires
        status_already_set(*c, *r) || status_change_refused(*c, *r) || c.version < u64::MAX,
    ensures
        status_already_set(*c, *r) ==> (res matches Ok(v) && v.replayed && installation_same(
            v.value,
            *c,
        )),
        !status_already_set(*c, *r) && status_change_refused(*c, *r) ==> res == Err::<
            IdempotentResult<GitHubInstallationRecord>,
            ControlPlaneError,
        >(ControlPlaneError::IdempotencyConflict),
        !status_already_set(*c, *r) && !status_change_refused(*c, *r) ==> (res matches Ok(v)
            && !v.replayed && installation_same(v.value, status_changed(*c, *r))),
{
    if str_is(c.installation.status.as_str(), r.status.as_str()) && c.lifecycle_generation
        == r.lifecycle_generation {
        return Ok(IdempotentResult { value: clone_installation(c), replayed: true });
    }
    if str_is(c.installation.status.as_str(), "revoked") || c.version != r.expected_version
        || c.lifecycle_generation == u64::MAX || r.lifecycle_generation != c.lifecycle_generation + 1
        || r.now_unix_ms < c.synchronized_unix_ms {
        return Err(ControlPlaneError::IdempotencyConflict);
    }
    let mut v = clone_installation(c);
    v.installation.status = r.status.clone();
    v.installation.updated_unix_ms = r.now_unix_ms;
    v.lifecycle_generation = r.lifecycle_generation;
    v.synchronized_unix_ms = r.now_unix_ms;
    v.suspended_unix_ms = if str_is(r.status.as_str(), "suspended") {
        Some(r.now_unix_ms)
    } else {
        None
    };
    if str_is(r.status.as_str(), "revoked") {
        v.revoked_unix_ms = Some(r.now_unix_ms);
    }
    v.version = c.version + 1;
    Ok(IdempotentResult { value: v, replayed: false })
}

/// The durable name of an account kind.
pub fn account_kind_name(k: GitHubAccountKind) -> (res: &'static str)
    ensures
        res == (match k {
            GitHubAccountKind::Organization => "organization",
            GitHubAccountKind::User => "user",
        }),
{
    match k {
        GitHubAccountKind::Organization => "organization",
        GitHubAccountKind::User => "user",
    }
}

pub const MSG_ACCOUNT_KIND: &'static str = "invalid GitHub account kind";

/// Reads the durable name of an account kind.
pub fn parse_account_kind(value: &str) -> (res: Result<GitHubAccountKind, ControlPlaneError>)
    ensures
        res == if value.spec_bytes() == "organization".spec_bytes() {
            Ok::<GitHubAccountKind, ControlPlaneError>(GitHubAccountKind::Organization)
        } else if value.spec_bytes() == "user".spec_bytes() {
            Ok::<GitHubAccountKind, ControlPlaneError>(GitHubAccountKind::User)
        } else {
            Err(ControlPlaneError::CorruptState(MSG_ACCOUNT_KIND))
        },
{
    if crate::bytes::str_is(value, "organization") {
        Ok(GitHubAccountKind::Organization)
    } else if crate::bytes::str_is(value, "user") {
        Ok(GitHubAccountKind::User)
    } else {
        Err(ControlPlaneError::CorruptState(MSG_ACCOUNT_KIND))
    }
}

pub const MSG_SELECTION: &'static str = "invalid GitHub selection";

/// Reads the durable name of a repository selection.
pub fn parse_selection(value: &str) -> (res: Result<GitHubRepositorySelection, ControlPlaneError>)
    ensures
        res == if value.spec_bytes() == "all".spec_bytes() {
            Ok::<GitHubRepositorySelection, ControlPlaneError>(GitHubRepositorySelection::All)
        } else if value.spec_bytes() == "selected".spec_bytes() {
            Ok::<GitHubRepositorySelection, ControlPlaneError>(GitHubRepositorySelection::Selected)
        } else {
            Err(ControlPlaneError::CorruptState(MSG_SELECTION))
        },
{
    if crate::bytes::str_is(value, "all") {
        Ok(GitHubRepositorySelection::All)
    } else if crate::bytes::str_is(value, "selected") {
        Ok(GitHubRepositorySelection::Selected)
    } else {
        Err(ControlPlaneError::CorruptState(MSG_SELECTION))
    }
}

pub const KIND_LIFECYCLE_AUTHORIZATION: &'static str = "GitHub lifecycle authorization";

/// A lifecycle delivery is reserved only for the tenant's installation it
/// names, by both its id and its external id.
pub fn authorize_lifecycle_reservation(
    installation: &Option<GitHubInstallationRecord>,
    r: &crate::scm::ReserveGitHubLifecycleDelivery,
) -> (res: Result<(), ControlPlaneError>)
    ensures
        (installation matches Some(i) && i.installation.external_id@ == r.installation_external_id@
            && i.installation.id@ == r.installation_id@) ==> res == Ok::<(), ControlPlaneError>(()),
        !(installation matches Some(i) && i.installation.external_id@ == r.installation_external_id@
            && i.installation.id@ == r.installation_id@) ==> (res matches Err(
            ControlPlaneError::NotFound { kind, id },
        ) && kind == KIND_LIFECYCLE_AUTHORIZATION && id@ == r.delivery_id@),
{
    let ok = match installation {
        Some(i) => crate::scm::text_eq(
            i.installation.external_id.as_str(),
            r.installation_external_id.as_str(),
        ) && crate::scm::text_eq(i.installation.id.as_str(), r.installation_id.as_str()),
        None => false,
    };
    if ok {
        Ok(())
    } else {
        Err(ControlPlaneError::NotFound { kind: KIND_LIFECYCLE_AUTHORIZATION, id: r.delivery_id.clone() })
    }
}

/// Two SCM installation records hold the same values in every field, their
/// permissions as the same object.
pub open spec fn scm_installation_same(a: ScmInstallationRecord, b: ScmInstallationRecord) -> bool {
    &&& sb(a.id) == sb(b.id)
    &&& sb(a.tenant_id) == sb(b.tenant_id)
    &&& sb(a.provider) == sb(b.provider)
    &&& sb(a.external_id) == sb(b.external_id)
    &&& sb(a.status) == sb(b.status)
    &&& sb(a.credential_reference) == sb(b.credential_reference)
    &&& permissions_same(a.permissions, b.permissions)
    &&& a.created_unix_ms == b.created_unix_ms
    &&& a.updated_unix_ms == b.updated_unix_ms
}

/// The outcome of creating `record` once `stored` is the installation stored
/// under its id after the insert, which added `inserted` rows: the stored
/// installation, replayed when nothing was added; refused when it differs.
pub open spec fn scm_installation_creation_outcome(
    stored: ScmInstallationRecord,
    record: ScmInstallationRecord,
    inserted: u64,
) -> Result<IdempotentResult<ScmInstallationRecord>, ControlPlaneError> {
    if scm_installation_same(stored, record) {
        Ok(IdempotentResult { value: stored, replayed: inserted == 0 })
    } else {
        Err(ControlPlaneError::IdempotencyConflict)
    }
}

/// Settles the creation of an SCM installation from what is stored after
/// the insert.
pub fn settle_scm_installation(stored: ScmInstallationRecord, record: &ScmInstallationRecord, inserted: u64) -> (res:
    Result<IdempotentResult<ScmInstallationRecord>, ControlPlaneError>)
    ensures
        res == scm_installation_creation_outcome(stored, *record, inserted),
{
    let same = str_is(stored.id.as_str(), record.id.as_str()) && str_is(
        stored.tenant_id.as_str(),
        record.tenant_id.as_str(),
    ) && str_is(stored.provider.as_str(), record.provider.as_str()) && str_is(
        stored.external_id.as_str(),
        record.external_id.as_str(),
    ) && str_is(stored.status.as_str(), record.status.as_str()) && str_is(
        stored.credential_reference.as_str(),
        record.credential_reference.as_str(),
    ) && permissions_same_exec(&stored.permissions, &record.permissions) && stored.created_unix_ms
        == record.created_unix_ms && stored.updated_unix_ms == record.updated_unix_ms;
    if same {
        Ok(IdempotentResult { value: stored, replayed: inserted == 0 })
    } else {
        Err(ControlPlaneError::IdempotencyConflict)
    }
}

/// An installation is created once: creating the stored installation again,
/// its permissions in any order, replays it; a different one is refused.
pub proof fn law_scm_installation_create_replays(
    stored: ScmInstallationRecord,
    again: ScmInstallationRecord,
    other: ScmInstallationRecord,
)
    requires
        scm_installation_same(stored, again),
        !scm_installation_same(stored, other),
    ensures
        scm_installation_creation_outcome(stored, again, 0) == Ok::<
            IdempotentResult<ScmInstallationRecord>,
            ControlPlaneError,
        >(IdempotentResult { value: stored, replayed: true }),
        scm_installation_creation_outcome(stored, other, 0) == Err::<
            IdempotentResult<ScmInstallationRecord>,
            ControlPlaneError,
        >(ControlPlaneError::IdempotencyConflict),
{
}

} // verus!
