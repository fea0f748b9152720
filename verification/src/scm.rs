//! SCM repositories, installations, links and GitHub lifecycle deliveries:
//! request validation and the small decisions around them.

use crate::bytes::{parse_u64, parse_u64_spec, contains_byte, is_ascii_control, is_ascii_lowercase, is_ascii_uppercase, is_ascii_whitespace, str_is};
use crate::digest::{content_digest_sha256, digest_eq, sha256_text, ContentDigest};
use crate::error::ControlPlaneError;
use crate::policy::IdempotentResult;
use vstd::prelude::*;
use vstd::string::{StringExecFns, StringSliceAdditionalSpecFns};

verus! {

/// SCM text is non-empty, at most 8 KiB and free of ASCII control bytes.
pub open spec fn scm_text_ok(b: Seq<u8>) -> bool {
    b.len() > 0 && b.len() <= 8192 && forall|i: int| 0 <= i < b.len() ==> !is_ascii_control(
        #[trigger] b[i],
    )
}

pub open spec fn scm_text_check(field: &'static str, b: Seq<u8>) -> Result<(), ControlPlaneError> {
    if scm_text_ok(b) {
        Ok(())
    } else {
        Err(ControlPlaneError::InvalidInput(field))
    }
}

/// Whether some byte of `b` is an ASCII control byte.
pub fn any_control(b: &[u8]) -> (res: bool)
    ensures
        res == exists|i: int| 0 <= i < b@.len() && is_ascii_control(#[trigger] b@[i]),
{
    let mut i: usize = 0;
    while i < b.len()
        invariant
            0 <= i <= b@.len(),
            forall|j: int| 0 <= j < i ==> !is_ascii_control(#[trigger] b@[j]),
        decreases b@.len() - i,
    {
        if b[i] < 32 || b[i] == 127 {
            return true;
        }
        i += 1;
    }
    false
}

/// Checks one SCM text field; the error names the field.
pub fn validate_text(field: &'static str, value: &str) -> (res: Result<(), ControlPlaneError>)
    ensures
        res == scm_text_check(field, value.spec_bytes()),
{
    let b = value.as_bytes();
    if b.len() == 0 || b.len() > 8192 || any_control(b) {
        return Err(ControlPlaneError::InvalidInput(field));
    }
    Ok(())
}

/// The error for a missing SCM record of the given kind.
pub fn not_found(kind: &'static str, id: &str) -> (res: ControlPlaneError)
    ensures
        res matches ControlPlaneError::NotFound { kind: k, id: i } && k == kind && i@ == id@,
{
    ControlPlaneError::NotFound { kind, id: id.to_owned() }
}

/// A `u64` stored as PostgreSQL `BIGINT`.
pub fn to_i64(value: u64, field: &'static str) -> (res: Result<i64, ControlPlaneError>)
    ensures
        value <= i64::MAX ==> res == Ok::<i64, ControlPlaneError>(value as i64),
        value > i64::MAX ==> res == Err::<i64, ControlPlaneError>(
            ControlPlaneError::IntegerRange { field },
        ),
{
    if value > 0x7fff_ffff_ffff_ffffu64 {
        Err(ControlPlaneError::IntegerRange { field })
    } else {
        Ok(value as i64)
    }
}

/// An optional `u64` stored as a nullable PostgreSQL `BIGINT`.
pub fn opt_i64_pg(v: Option<u64>, f: &'static str) -> (res: Result<Option<i64>, ControlPlaneError>)
    ensures
        match v {
            None => res == Ok::<Option<i64>, ControlPlaneError>(None),
            Some(x) => if x <= i64::MAX {
                res == Ok::<Option<i64>, ControlPlaneError>(Some(x as i64))
            } else {
                res == Err::<Option<i64>, ControlPlaneError>(
                    ControlPlaneError::IntegerRange { field: f },
                )
            },
        },
{
    match v {
        None => Ok(None),
        Some(x) => {
            let y = to_i64(x, f)?;
            Ok(Some(y))
        },
    }
}

/// Which repositories a GitHub installation grants.
#[derive(Debug, Clone, Copy, PartialEq, Eq, Structural)]
pub enum GitHubRepositorySelection {
    All,
    Selected,
}

pub fn selection_name(v: GitHubRepositorySelection) -> (res: &'static str)
    ensures
        res == (match v {
            GitHubRepositorySelection::All => "all",
            GitHubRepositorySelection::Selected => "selected",
        }),
{
    match v {
        GitHubRepositorySelection::All => "all",
        GitHubRepositorySelection::Selected => "selected",
    }
}

/// The part an SCM-triggered execution plays.
#[derive(Debug, Clone, Copy, PartialEq, Eq, Structural)]
pub enum ScmExecutionRole {
    Direct,
    TrustedBase,
    ProposedDefinition,
}

pub fn role_name_pg(r: ScmExecutionRole) -> (res: &'static str)
    ensures
        res == (match r {
            ScmExecutionRole::Direct => "direct",
            ScmExecutionRole::TrustedBase => "trusted-base",
            ScmExecutionRole::ProposedDefinition => "proposed-definition",
        }),
{
    match r {
        ScmExecutionRole::Direct => "direct",
        ScmExecutionRole::TrustedBase => "trusted-base",
        ScmExecutionRole::ProposedDefinition => "proposed-definition",
    }
}

/// The status transitions an SCM installation or link may take: active and
/// suspended move freely between each other or to revoked; revoked is final.
pub open spec fn status_transition_allowed(a: Seq<u8>, b: Seq<u8>) -> bool {
    let active = "active".spec_bytes();
    let suspended = "suspended".spec_bytes();
    let revoked = "revoked".spec_bytes();
    (a == active && (b == active || b == suspended || b == revoked)) || (a == suspended && (b
        == suspended || b == active || b == revoked)) || (a == revoked && b == revoked)
}

pub fn valid_status_transition(a: &str, b: &str) -> (res: bool)
    ensures
        res == status_transition_allowed(a.spec_bytes(), b.spec_bytes()),
{
    let a_active = str_is(a, "active");
    let a_suspended = str_is(a, "suspended");
    let a_revoked = str_is(a, "revoked");
    let b_active = str_is(b, "active");
    let b_suspended = str_is(b, "suspended");
    let b_revoked = str_is(b, "revoked");
    (a_active && (b_active || b_suspended || b_revoked)) || (a_suspended && (b_suspended
        || b_active || b_revoked)) || (a_revoked && b_revoked)
}

pub const MSG_PAGE_LIMIT: &'static str = "invalid page limit";

pub const FIELD_PAGE_CURSOR: &'static str = "page cursor";

/// A page request names between one and one hundred records and an optional
/// valid cursor.
pub open spec fn page_check(l: usize, a: Option<Seq<u8>>) -> Result<(), ControlPlaneError> {
    if l == 0 || l > 100 {
        Err(ControlPlaneError::InvalidInput(MSG_PAGE_LIMIT))
    } else {
        match a {
            Some(v) => scm_text_check(FIELD_PAGE_CURSOR, v),
            None => Ok(()),
        }
    }
}

pub open spec fn opt_str_bytes(a: Option<&str>) -> Option<Seq<u8>> {
    match a {
        Some(v) => Some(v.spec_bytes()),
        None => None,
    }
}

pub fn validate_page_pg(l: usize, a: Option<&str>) -> (res: Result<(), ControlPlaneError>)
    ensures
        res == page_check(l, opt_str_bytes(a)),
{
    if l == 0 || l > 100 {
        Err(ControlPlaneError::InvalidInput(MSG_PAGE_LIMIT))
    } else {
        match a {
            Some(v) => validate_text(FIELD_PAGE_CURSOR, v),
            None => Ok(()),
        }
    }
}

pub const MSG_ORIGIN: &'static str = "invalid canonical GitHub origin";

/// A canonical `https` origin: a non-empty rest after `https://`, no trailing
/// slash, none of `?#@\`, no path unless allowed, and no ASCII control,
/// whitespace or uppercase byte.
pub open spec fn canonical_origin(v: Seq<u8>, path: bool) -> bool {
    let prefix = "https://".spec_bytes();
    &&& prefix.len() <= v.len() && v.take(prefix.len() as int) == prefix
    &&& {
        let x = v.skip(prefix.len() as int);
        &&& x.len() > 0
        &&& v.last() != 47u8
        &&& !x.contains(63u8) && !x.contains(35u8) && !x.contains(64u8) && !x.contains(92u8)
        &&& (path || !x.contains(47u8))
        &&& forall|i: int|
            0 <= i < x.len() ==> !is_ascii_control(#[trigger] x[i]) && !is_ascii_whitespace(x[i])
                && !is_ascii_uppercase(x[i])
    }
}

fn canonical_origin_exec(v: &str, path: bool) -> (res: bool)
    ensures
        res == canonical_origin(v.spec_bytes(), path),
{
    let b = v.as_bytes();
    let prefix = "https://".as_bytes();
    if prefix.len() > b.len() {
        return false;
    }
    let head = &b[0..prefix.len()];
    if !crate::bytes::bytes_eq(head, prefix) {
        proof {
            assert(head@ =~= b@.take(prefix@.len() as int));
        }
        return false;
    }
    proof {
        assert(head@ =~= b@.take(prefix@.len() as int));
    }
    let x = &b[prefix.len()..b.len()];
    proof {
        assert(x@ =~= b@.skip(prefix@.len() as int));
    }
    if x.len() == 0 {
        return false;
    }
    if b[b.len() - 1] == 47u8 {
        proof {
            assert(b@.last() == b@[b@.len() - 1]);
        }
        return false;
    }
    proof {
        assert(b@.last() == b@[b@.len() - 1]);
    }
    if contains_byte(x, 63u8) || contains_byte(x, 35u8) || contains_byte(x, 64u8) || contains_byte(
        x,
        92u8,
    ) {
        return false;
    }
    if !path && contains_byte(x, 47u8) {
        return false;
    }
    let mut i: usize = 0;
    #[verifier::loop_isolation(false)]
    while i < x.len()
        invariant
            0 <= i <= x@.len(),
            forall|j: int|
                0 <= j < i ==> !is_ascii_control(#[trigger] x@[j]) && !is_ascii_whitespace(x@[j])
                    && !is_ascii_uppercase(x@[j]),
        decreases x@.len() - i,
    {
        let c = x[i];
        if c < 32 || c == 127 || c == 32 || c == 9 || c == 10 || c == 12 || c == 13 || (65 <= c
            && c <= 90) {
            return false;
        }
        i += 1;
    }
    true
}

pub open spec fn origins_check(w: Seq<u8>, a: Seq<u8>) -> Result<(), ControlPlaneError> {
    if canonical_origin(w, false) && canonical_origin(a, true) {
        Ok(())
    } else {
        Err(ControlPlaneError::InvalidInput(MSG_ORIGIN))
    }
}

/// Checks a GitHub web origin (no path) and API origin (a path allowed).
pub fn validate_origins(w: &str, a: &str) -> (res: Result<(), ControlPlaneError>)
    ensures
        res == origins_check(w.spec_bytes(), a.spec_bytes()),
{
    if canonical_origin_exec(w, false) && canonical_origin_exec(a, true) {
        Ok(())
    } else {
        Err(ControlPlaneError::InvalidInput(MSG_ORIGIN))
    }
}

/// A registered repository.
#[derive(Debug, Clone, PartialEq, Eq)]
pub struct RepositoryRecord {
    pub id: String,
    pub tenant_id: String,
    pub owner: String,
    pub name: String,
    pub default_branch: String,
    pub visibility: String,
    pub created_unix_ms: u64,
}

pub open spec fn then_check(first: Result<(), ControlPlaneError>, rest: Result<(), ControlPlaneError>) -> Result<
    (),
    ControlPlaneError,
> {
    match first {
        Err(e) => Err(e),
        Ok(()) => rest,
    }
}

pub open spec fn sb(s: String) -> Seq<u8> {
    vstd::utf8::encode_utf8(s@)
}

pub open spec fn repository_check(r: RepositoryRecord) -> Result<(), ControlPlaneError> {
    then_check(
        scm_text_check("repository.id", sb(r.id)),
        then_check(
            scm_text_check("repository.tenant_id", sb(r.tenant_id)),
            then_check(
                scm_text_check("repository.owner", sb(r.owner)),
                then_check(
                    scm_text_check("repository.name", sb(r.name)),
                    then_check(
                        scm_text_check("repository.default_branch", sb(r.default_branch)),
                        scm_text_check("repository.visibility", sb(r.visibility)),
                    ),
                ),
            ),
        ),
    )
}

/// Checks every text field of a repository record, in field order.
pub fn validate_repository(record: &RepositoryRecord) -> (res: Result<(), ControlPlaneError>)
    ensures
        res == repository_check(*record),
{
    validate_text("repository.id", record.id.as_str())?;
    validate_text("repository.tenant_id", record.tenant_id.as_str())?;
    validate_text("repository.owner", record.owner.as_str())?;
    validate_text("repository.name", record.name.as_str())?;
    validate_text("repository.default_branch", record.default_branch.as_str())?;
    validate_text("repository.visibility", record.visibility.as_str())?;
    Ok(())
}

/// One entry of a GitHub permissions object: the permission name and its
/// level, `None` when the level is not a JSON string.
#[derive(Debug, Clone, PartialEq, Eq)]
pub struct PermissionEntry {
    pub name: String,
    pub level: Option<String>,
}

/// A GitHub permissions value: `None` when it is not a JSON object, else its
/// entries.
pub type GitHubPermissions = Option<Vec<PermissionEntry>>;

pub open spec fn opt_sb(o: Option<String>) -> Option<Seq<u8>> {
    match o {
        Some(s) => Some(sb(s)),
        None => None,
    }
}

/// The level of the first entry named `name`, when it is a string.
pub open spec fn permission_level(entries: Seq<PermissionEntry>, name: Seq<u8>) -> Option<Seq<u8>>
    decreases entries.len(),
{
    if entries.len() == 0 {
        None
    } else if sb(entries[0].name) == name {
        opt_sb(entries[0].level)
    } else {
        permission_level(entries.drop_first(), name)
    }
}

pub open spec fn is_read_or_write(l: Seq<u8>) -> bool {
    l == "read".spec_bytes() || l == "write".spec_bytes()
}

/// A known GitHub permission at an allowed level: `metadata` only readable,
/// the content, pull request, action, merge queue, check, status and issue
/// permissions readable or writable.
pub open spec fn permission_entry_ok(e: PermissionEntry) -> bool {
    match e.level {
        None => false,
        Some(level) => {
            let n = sb(e.name);
            let l = sb(level);
            if n == "metadata".spec_bytes() {
                l == "read".spec_bytes()
            } else if n == "contents".spec_bytes() || n == "pull_requests".spec_bytes() || n
                == "actions".spec_bytes() || n == "merge_queues".spec_bytes() || n
                == "checks".spec_bytes() || n == "statuses".spec_bytes() || n
                == "issues".spec_bytes() {
                is_read_or_write(l)
            } else {
                false
            }
        },
    }
}

pub open spec fn github_permissions_valid(p: GitHubPermissions) -> bool {
    match p {
        None => false,
        Some(entries) => permission_level(entries@, "metadata".spec_bytes()) == Some(
            "read".spec_bytes(),
        ) && forall|i: int| 0 <= i < entries@.len() ==> permission_entry_ok(#[trigger] entries@[i]),
    }
}

/// An active installation needs metadata read, contents and pull requests
/// read or write, and checks write.
pub open spec fn github_permissions_ready(p: GitHubPermissions) -> bool {
    match p {
        None => false,
        Some(entries) => {
            &&& permission_level(entries@, "metadata".spec_bytes()) == Some("read".spec_bytes())
            &&& match permission_level(entries@, "contents".spec_bytes()) {
                Some(l) => is_read_or_write(l),
                None => false,
            }
            &&& match permission_level(entries@, "pull_requests".spec_bytes()) {
                Some(l) => is_read_or_write(l),
                None => false,
            }
            &&& permission_level(entries@, "checks".spec_bytes()) == Some("write".spec_bytes())
        },
    }
}

fn level_of<'a>(entries: &'a Vec<PermissionEntry>, name: &str) -> (res: Option<&'a String>)
    ensures
        match (res, permission_level(entries@, name.spec_bytes())) {
            (Some(r), Some(l)) => sb(*r) == l,
            (None, None) => true,
            _ => false,
        },
{
    let mut i: usize = 0;
    proof {
        assert(entries@.skip(0) =~= entries@);
    }
    while i < entries.len()
        invariant
            0 <= i <= entries@.len(),
            permission_level(entries@, name.spec_bytes()) == permission_level(
                entries@.skip(i as int),
                name.spec_bytes(),
            ),
        decreases entries@.len() - i,
    {
        proof {
            assert(entries@.skip(i as int)[0] == entries@[i as int]);
            assert(entries@.skip(i as int).drop_first() =~= entries@.skip(i + 1));
        }
        if str_is(entries[i].name.as_str(), name) {
            return match &entries[i].level {
                Some(l) => Some(l),
                None => None,
            };
        }
        i += 1;
    }
    None
}

fn is_read_or_write_exec(l: &str) -> (res: bool)
    ensures
        res == is_read_or_write(l.spec_bytes()),
{
    str_is(l, "read") || str_is(l, "write")
}

fn permission_entry_ok_exec(e: &PermissionEntry) -> (res: bool)
    ensures
        res == permission_entry_ok(*e),
{
    match &e.level {
        None => false,
        Some(level) => {
            let n = e.name.as_str();
            let l = level.as_str();
            if str_is(n, "metadata") {
                str_is(l, "read")
            } else if str_is(n, "contents") || str_is(n, "pull_requests") || str_is(n, "actions")
                || str_is(n, "merge_queues") || str_is(n, "checks") || str_is(n, "statuses")
                || str_is(n, "issues") {
                is_read_or_write_exec(l)
            } else {
                false
            }
        },
    }
}

fn level_is(entries: &Vec<PermissionEntry>, name: &str, expected: &str) -> (res: bool)
    ensures
        res == (permission_level(entries@, name.spec_bytes()) == Some(expected.spec_bytes())),
{
    match level_of(entries, name) {
        Some(l) => str_is(l.as_str(), expected),
        None => false,
    }
}

fn level_read_or_write(entries: &Vec<PermissionEntry>, name: &str) -> (res: bool)
    ensures
        res == (match permission_level(entries@, name.spec_bytes()) {
            Some(l) => is_read_or_write(l),
            None => false,
        }),
{
    match level_of(entries, name) {
        Some(l) => is_read_or_write_exec(l.as_str()),
        None => false,
    }
}

/// Whether a permissions value only grants known GitHub permissions at
/// allowed levels, with metadata read.
pub fn valid_github_installation_permissions(value: &GitHubPermissions) -> (res: bool)
    ensures
        res == github_permissions_valid(*value),
{
    match value {
        None => false,
        Some(entries) => {
            if !level_is(entries, "metadata", "read") {
                return false;
            }
            let mut i: usize = 0;
            #[verifier::loop_isolation(false)]
            while i < entries.len()
                invariant
                    0 <= i <= entries@.len(),
                    forall|j: int| 0 <= j < i ==> permission_entry_ok(#[trigger] entries@[j]),
                decreases entries@.len() - i,
            {
                if !permission_entry_ok_exec(&entries[i]) {
                    return false;
                }
                i += 1;
            }
            true
        },
    }
}

/// Whether a permissions value grants what an active installation needs.
pub fn github_installation_permissions_ready(value: &GitHubPermissions) -> (res: bool)
    ensures
        res == github_permissions_ready(*value),
{
    match value {
        None => false,
        Some(entries) => level_is(entries, "metadata", "read") && level_read_or_write(
            entries,
            "contents",
        ) && level_read_or_write(entries, "pull_requests") && level_is(entries, "checks", "write"),
    }
}

pub open spec fn status_known(b: Seq<u8>) -> bool {
    b == "active".spec_bytes() || b == "suspended".spec_bytes() || b == "revoked".spec_bytes()
}

pub(crate) fn status_known_exec(v: &str) -> (res: bool)
    ensures
        res == status_known(v.spec_bytes()),
{
    str_is(v, "active") || str_is(v, "suspended") || str_is(v, "revoked")
}

/// A provider identifier: a positive decimal `u64`.
pub open spec fn positive_id(b: Seq<u8>) -> bool {
    match parse_u64_spec(b) {
        Some(v) => v > 0,
        None => false,
    }
}

pub(crate) fn positive_id_exec(v: &str) -> (res: bool)
    ensures
        res == positive_id(v.spec_bytes()),
{
    match parse_u64(v.as_bytes()) {
        Some(x) => x > 0,
        None => false,
    }
}

/// A provider installation of an SCM application.
#[derive(Debug, Clone, PartialEq, Eq)]
pub struct ScmInstallationRecord {
    pub id: String,
    pub tenant_id: String,
    pub provider: String,
    pub external_id: String,
    pub status: String,
    pub credential_reference: String,
    pub permissions: GitHubPermissions,
    pub created_unix_ms: u64,
    pub updated_unix_ms: u64,
}

pub const MSG_SCM_INSTALLATION: &'static str = "invalid SCM installation";

pub open spec fn scm_installation_check(r: ScmInstallationRecord) -> Result<(), ControlPlaneError> {
    then_check(
        scm_text_check("SCM installation id", sb(r.id)),
        then_check(
            scm_text_check("SCM installation tenant", sb(r.tenant_id)),
            then_check(
                scm_text_check("SCM installation external id", sb(r.external_id)),
                then_check(
                    scm_text_check("SCM credential reference", sb(r.credential_reference)),
                    if sb(r.provider) != "github".spec_bytes() || !status_known(sb(r.status))
                        || r.updated_unix_ms < r.created_unix_ms || !positive_id(sb(r.external_id))
                        || !github_permissions_valid(r.permissions) || (sb(r.status)
                        == "active".spec_bytes() && !github_permissions_ready(r.permissions)) {
                        Err(ControlPlaneError::InvalidInput(MSG_SCM_INSTALLATION))
                    } else {
                        Ok(())
                    },
                ),
            ),
        ),
    )
}

/// Validates a GitHub installation record before it is stored.
pub fn validate_scm_installation(record: &ScmInstallationRecord) -> (res: Result<
    (),
    ControlPlaneError,
>)
    ensures
        res == scm_installation_check(*record),
{
    validate_text("SCM installation id", record.id.as_str())?;
    validate_text("SCM installation tenant", record.tenant_id.as_str())?;
    validate_text("SCM installation external id", record.external_id.as_str())?;
    validate_text("SCM credential reference", record.credential_reference.as_str())?;
    if !str_is(record.provider.as_str(), "github") || !status_known_exec(record.status.as_str())
        || record.updated_unix_ms < record.created_unix_ms || !positive_id_exec(
        record.external_id.as_str(),
    ) || !valid_github_installation_permissions(&record.permissions) || (str_is(
        record.status.as_str(),
        "active",
    ) && !github_installation_permissions_ready(&record.permissions)) {
        return Err(ControlPlaneError::InvalidInput(MSG_SCM_INSTALLATION));
    }
    Ok(())
}

/// The link between a repository and its provider repository.
#[derive(Debug, Clone, PartialEq, Eq)]
pub struct ScmRepositoryLinkRecord {
    pub repository_id: String,
    pub tenant_id: String,
    pub installation_id: String,
    pub external_repository_id: String,
    pub clone_url: String,
    pub status: String,
    pub created_unix_ms: u64,
    pub updated_unix_ms: u64,
}

pub const MSG_SCM_LINK: &'static str = "invalid SCM repository link";

pub open spec fn scm_link_check(r: ScmRepositoryLinkRecord) -> Result<(), ControlPlaneError> {
    then_check(
        scm_text_check("SCM repository id", sb(r.repository_id)),
        then_check(
            scm_text_check("SCM repository tenant", sb(r.tenant_id)),
            then_check(
                scm_text_check("SCM installation id", sb(r.installation_id)),
                then_check(
                    scm_text_check("SCM external repository id", sb(r.external_repository_id)),
                    then_check(
                        scm_text_check("SCM clone URL", sb(r.clone_url)),
                        if !status_known(sb(r.status)) || r.updated_unix_ms < r.created_unix_ms {
                            Err(ControlPlaneError::InvalidInput(MSG_SCM_LINK))
                        } else {
                            Ok(())
                        },
                    ),
                ),
            ),
        ),
    )
}

/// Validates a repository link before it is stored.
pub fn validate_scm_repository_link(record: &ScmRepositoryLinkRecord) -> (res: Result<
    (),
    ControlPlaneError,
>)
    ensures
        res == scm_link_check(*record),
{
    validate_text("SCM repository id", record.repository_id.as_str())?;
    validate_text("SCM repository tenant", record.tenant_id.as_str())?;
    validate_text("SCM installation id", record.installation_id.as_str())?;
    validate_text("SCM external repository id", record.external_repository_id.as_str())?;
    validate_text("SCM clone URL", record.clone_url.as_str())?;
    if !status_known_exec(record.status.as_str()) || record.updated_unix_ms
        < record.created_unix_ms {
        return Err(ControlPlaneError::InvalidInput(MSG_SCM_LINK));
    }
    Ok(())
}

/// A request to reserve a GitHub installation lifecycle delivery.
#[derive(Debug, Clone, PartialEq, Eq)]
pub struct ReserveGitHubLifecycleDelivery {
    pub delivery_id: String,
    pub tenant_id: String,
    pub installation_id: String,
    pub installation_external_id: String,
    pub event_name: String,
    pub action: String,
    pub payload_digest: ContentDigest,
    pub now_unix_ms: u64,
}

pub const FIELD_LIFECYCLE_IDENTITY: &'static str = "GitHub lifecycle identity";

pub const MSG_LIFECYCLE_DELIVERY: &'static str = "invalid GitHub lifecycle delivery";

/// An event name: lowercase letters, digits and underscores.
pub open spec fn event_name_ok(b: Seq<u8>) -> bool {
    forall|i: int|
        0 <= i < b.len() ==> is_ascii_lowercase(#[trigger] b[i]) || (48u8 <= b[i] <= 57u8) || b[i]
            == 95u8
}

/// An action: lowercase letters, digits, underscores and hyphens.
pub open spec fn action_ok(b: Seq<u8>) -> bool {
    forall|i: int|
        0 <= i < b.len() ==> is_ascii_lowercase(#[trigger] b[i]) || (48u8 <= b[i] <= 57u8) || b[i]
            == 95u8 || b[i] == 45u8
}

fn name_bytes_ok(b: &[u8], allow_dash: bool) -> (res: bool)
    ensures
        res == (if allow_dash {
            action_ok(b@)
        } else {
            event_name_ok(b@)
        }),
{
    let mut i: usize = 0;
    while i < b.len()
        invariant
            0 <= i <= b@.len(),
            forall|j: int|
                0 <= j < i ==> is_ascii_lowercase(#[trigger] b@[j]) || (48u8 <= b@[j] <= 57u8)
                    || b@[j] == 95u8 || (allow_dash && b@[j] == 45u8),
        decreases b@.len() - i,
    {
        let c = b[i];
        if !((97 <= c && c <= 122) || (48 <= c && c <= 57) || c == 95 || (allow_dash && c == 45)) {
            return false;
        }
        i += 1;
    }
    true
}

pub open spec fn lifecycle_reservation_check(r: ReserveGitHubLifecycleDelivery) -> Result<
    (),
    ControlPlaneError,
> {
    then_check(
        scm_text_check(FIELD_LIFECYCLE_IDENTITY, sb(r.delivery_id)),
        then_check(
            scm_text_check(FIELD_LIFECYCLE_IDENTITY, sb(r.tenant_id)),
            then_check(
                scm_text_check(FIELD_LIFECYCLE_IDENTITY, sb(r.installation_id)),
                then_check(
                    scm_text_check(FIELD_LIFECYCLE_IDENTITY, sb(r.installation_external_id)),
                    then_check(
                        scm_text_check(FIELD_LIFECYCLE_IDENTITY, sb(r.event_name)),
                        then_check(
                            scm_text_check(FIELD_LIFECYCLE_IDENTITY, sb(r.action)),
                            if !positive_id(sb(r.installation_external_id)) || sb(r.event_name).len()
                                > 64 || sb(r.action).len() > 64 || !event_name_ok(sb(r.event_name))
                                || !action_ok(sb(r.action)) {
                                Err(ControlPlaneError::InvalidInput(MSG_LIFECYCLE_DELIVERY))
                            } else {
                                Ok(())
                            },
                        ),
                    ),
                ),
            ),
        ),
    )
}

/// Validates a lifecycle delivery reservation.
pub fn validate_lifecycle_reservation(r: &ReserveGitHubLifecycleDelivery) -> (res: Result<
    (),
    ControlPlaneError,
>)
    ensures
        res == lifecycle_reservation_check(*r),
{
    validate_text(FIELD_LIFECYCLE_IDENTITY, r.delivery_id.as_str())?;
    validate_text(FIELD_LIFECYCLE_IDENTITY, r.tenant_id.as_str())?;
    validate_text(FIELD_LIFECYCLE_IDENTITY, r.installation_id.as_str())?;
    validate_text(FIELD_LIFECYCLE_IDENTITY, r.installation_external_id.as_str())?;
    validate_text(FIELD_LIFECYCLE_IDENTITY, r.event_name.as_str())?;
    validate_text(FIELD_LIFECYCLE_IDENTITY, r.action.as_str())?;
    let event = r.event_name.as_str().as_bytes();
    let action = r.action.as_str().as_bytes();
    if !positive_id_exec(r.installation_external_id.as_str()) || event.len() > 64 || action.len()
        > 64 || !name_bytes_ok(event, false) || !name_bytes_ok(action, true) {
        return Err(ControlPlaneError::InvalidInput(MSG_LIFECYCLE_DELIVERY));
    }
    Ok(())
}

pub const FIELD_LIFECYCLE_WORKER: &'static str = "GitHub lifecycle worker";

pub const MSG_LEASE_DURATION: &'static str = "invalid GitHub lifecycle lease duration";

pub const FIELD_LEASE_EXPIRY: &'static str = "GitHub lifecycle lease expiry";

pub open spec fn lifecycle_claim_check(worker: Seq<u8>, now: u64, duration: u64) -> Result<
    (),
    ControlPlaneError,
> {
    then_check(
        scm_text_check(FIELD_LIFECYCLE_WORKER, worker),
        if duration == 0 || duration > 300000 {
            Err(ControlPlaneError::InvalidInput(MSG_LEASE_DURATION))
        } else if now + duration > u64::MAX {
            Err(ControlPlaneError::IntegerRange { field: FIELD_LEASE_EXPIRY })
        } else {
            Ok(())
        },
    )
}

/// Validates a lease claim: a worker name, a lease of at most five minutes,
/// and an expiry that fits.
pub fn validate_lifecycle_claim(worker: &str, now: u64, duration: u64) -> (res: Result<
    (),
    ControlPlaneError,
>)
    ensures
        res == lifecycle_claim_check(worker.spec_bytes(), now, duration),
{
    validate_text(FIELD_LIFECYCLE_WORKER, worker)?;
    if duration == 0 || duration > 300000 {
        return Err(ControlPlaneError::InvalidInput(MSG_LEASE_DURATION));
    }
    if now.checked_add(duration).is_none() {
        return Err(ControlPlaneError::IntegerRange { field: FIELD_LEASE_EXPIRY });
    }
    Ok(())
}

pub const FIELD_LIFECYCLE_BINDING: &'static str = "GitHub lifecycle binding";

pub const MSG_LEASE_GENERATION: &'static str = "invalid GitHub lifecycle lease generation";

pub open spec fn lifecycle_mutation_check(tenant: Seq<u8>, id: Seq<u8>, worker: Seq<u8>, generation: u64) -> Result<
    (),
    ControlPlaneError,
> {
    then_check(
        scm_text_check(FIELD_LIFECYCLE_BINDING, tenant),
        then_check(
            scm_text_check(FIELD_LIFECYCLE_BINDING, id),
            then_check(
                scm_text_check(FIELD_LIFECYCLE_BINDING, worker),
                if generation == 0 {
                    Err(ControlPlaneError::InvalidInput(MSG_LEASE_GENERATION))
                } else {
                    Ok(())
                },
            ),
        ),
    )
}

/// Validates the binding of a lease-holding mutation.
pub fn validate_lifecycle_mutation(tenant: &str, id: &str, worker: &str, generation: u64) -> (res:
    Result<(), ControlPlaneError>)
    ensures
        res == lifecycle_mutation_check(
            tenant.spec_bytes(),
            id.spec_bytes(),
            worker.spec_bytes(),
            generation,
        ),
{
    validate_text(FIELD_LIFECYCLE_BINDING, tenant)?;
    validate_text(FIELD_LIFECYCLE_BINDING, id)?;
    validate_text(FIELD_LIFECYCLE_BINDING, worker)?;
    if generation == 0 {
        return Err(ControlPlaneError::InvalidInput(MSG_LEASE_GENERATION));
    }
    Ok(())
}

/// The state of a lifecycle delivery.
#[derive(Debug, Clone, Copy, PartialEq, Eq, Structural)]
pub enum GitHubLifecycleDeliveryState {
    Pending,
    Leased,
    Completed,
    Failed,
}

/// A GitHub lifecycle delivery: what was delivered, its lease, and how its
/// last completion or failure was recorded.
#[derive(Debug, Clone, PartialEq, Eq)]
pub struct GitHubLifecycleDeliveryRecord {
    pub delivery_id: String,
    pub tenant_id: String,
    pub installation_id: String,
    pub installation_external_id: String,
    pub event_name: String,
    pub action: String,
    pub payload_digest: ContentDigest,
    pub state: GitHubLifecycleDeliveryState,
    pub attempts: u32,
    pub available_unix_ms: u64,
    pub lease_owner: Option<String>,
    pub lease_generation: u64,
    pub lease_expires_unix_ms: Option<u64>,
    pub completion_digest: Option<ContentDigest>,
    pub completed_lease_owner: Option<String>,
    pub completed_lease_generation: Option<u64>,
    pub last_failure_generation: Option<u64>,
    pub last_failure_lease_owner: Option<String>,
    pub last_error_digest: Option<ContentDigest>,
    pub last_retry_unix_ms: Option<u64>,
    pub created_unix_ms: u64,
    pub updated_unix_ms: u64,
    pub completed_unix_ms: Option<u64>,
}

/// The delivery is still leased to `worker` under `generation` at `now`.
pub open spec fn lease_held(record: GitHubLifecycleDeliveryRecord, worker: Seq<char>, generation: u64, now: u64) -> bool {
    &&& record.state == GitHubLifecycleDeliveryState::Leased
    &&& record.lease_owner matches Some(owner) && owner@ == worker
    &&& record.lease_generation == generation
    &&& record.lease_expires_unix_ms matches Some(x) && x > now
}

/// Requires that the delivery is still leased to the caller.
pub fn require_lifecycle_lease(
    record: &GitHubLifecycleDeliveryRecord,
    worker: &str,
    generation: u64,
    now: u64,
) -> (res: Result<(), ControlPlaneError>)
    ensures
        lease_held(*record, worker@, generation, now) ==> res == Ok::<(), ControlPlaneError>(()),
        !lease_held(*record, worker@, generation, now) ==> res == Err::<(), ControlPlaneError>(
            ControlPlaneError::GitHubLifecycleLeaseLost,
        ),
{
    let owner_ok = match &record.lease_owner {
        Some(owner) => str_is(owner.as_str(), worker),
        None => false,
    };
    let expiry_ok = match record.lease_expires_unix_ms {
        Some(x) => x > now,
        None => false,
    };
    proof {
        if record.lease_owner is Some {
            let owner = record.lease_owner.unwrap();
            if owner_ok {
                assert(vstd::utf8::encode_utf8(owner@) == vstd::utf8::encode_utf8(worker@));
                vstd::utf8::encode_utf8_decode_utf8(owner@);
                vstd::utf8::encode_utf8_decode_utf8(worker@);
            }
        }
    }
    if record.state != GitHubLifecycleDeliveryState::Leased || !owner_ok || record.lease_generation
        != generation || !expiry_ok {
        Err(ControlPlaneError::GitHubLifecycleLeaseLost)
    } else {
        Ok(())
    }
}

/// Whether two texts are the same.
pub fn text_eq(a: &str, b: &str) -> (res: bool)
    ensures
        res == (a@ == b@),
{
    let same = str_is(a, b);
    proof {
        if same {
            assert(vstd::utf8::encode_utf8(a@) == vstd::utf8::encode_utf8(b@));
            vstd::utf8::encode_utf8_decode_utf8(a@);
            vstd::utf8::encode_utf8_decode_utf8(b@);
        }
    }
    same
}

/// Whether the optional text `o` is exactly `s`.
pub fn opt_text_is(o: &Option<String>, s: &str) -> (res: bool)
    ensures
        res == (o matches Some(x) && x@ == s@),
{
    match o {
        Some(x) => text_eq(x.as_str(), s),
        None => false,
    }
}

/// Whether the optional digest `o` is the digest `d`.
pub fn opt_digest_is(o: &Option<ContentDigest>, d: &ContentDigest) -> (res: bool)
    ensures
        res == (o matches Some(x) && x@ == d@),
{
    match o {
        Some(x) => digest_eq(x, d),
        None => false,
    }
}

/// A newly reserved delivery: pending, due now, never attempted.
pub open spec fn reserved_delivery(r: ReserveGitHubLifecycleDelivery) -> GitHubLifecycleDeliveryRecord {
    GitHubLifecycleDeliveryRecord {
        delivery_id: r.delivery_id,
        tenant_id: r.tenant_id,
        installation_id: r.installation_id,
        installation_external_id: r.installation_external_id,
        event_name: r.event_name,
        action: r.action,
        payload_digest: r.payload_digest,
        state: GitHubLifecycleDeliveryState::Pending,
        attempts: 0,
        available_unix_ms: r.now_unix_ms,
        lease_owner: None,
        lease_generation: 0,
        lease_expires_unix_ms: None,
        completion_digest: None,
        completed_lease_owner: None,
        completed_lease_generation: None,
        last_failure_generation: None,
        last_failure_lease_owner: None,
        last_error_digest: None,
        last_retry_unix_ms: None,
        created_unix_ms: r.now_unix_ms,
        updated_unix_ms: r.now_unix_ms,
        completed_unix_ms: None,
    }
}

/// The stored delivery `d` was reserved by a request identical to `r`.
pub open spec fn reservation_matches(d: GitHubLifecycleDeliveryRecord, r: ReserveGitHubLifecycleDelivery) -> bool {
    &&& d.installation_id@ == r.installation_id@
    &&& d.installation_external_id@ == r.installation_external_id@
    &&& d.event_name@ == r.event_name@
    &&& d.action@ == r.action@
    &&& d.payload_digest@ == r.payload_digest@
}

/// The outcome of reserving `r` when `existing` is what is stored under its
/// delivery id: a new pending delivery, the stored one for an identical
/// request, or a conflict.
pub open spec fn reservation_outcome(
    existing: Option<GitHubLifecycleDeliveryRecord>,
    r: ReserveGitHubLifecycleDelivery,
) -> Result<IdempotentResult<GitHubLifecycleDeliveryRecord>, ControlPlaneError> {
    match existing {
        None => Ok(IdempotentResult { value: reserved_delivery(r), replayed: false }),
        Some(d) => if reservation_matches(d, r) {
            Ok(IdempotentResult { value: d, replayed: true })
        } else {
            Err(ControlPlaneError::IdempotencyConflict)
        },
    }
}

/// Reserves a lifecycle delivery, or replays the identical reservation that
/// is already stored.
pub fn reserve_lifecycle_delivery(
    existing: Option<GitHubLifecycleDeliveryRecord>,
    r: &ReserveGitHubLifecycleDelivery,
) -> (res: Result<IdempotentResult<GitHubLifecycleDeliveryRecord>, ControlPlaneError>)
    ensures
        res == reservation_outcome(existing, *r),
{
    match existing {
        None => {
            let value = GitHubLifecycleDeliveryRecord {
                delivery_id: r.delivery_id.clone(),
                tenant_id: r.tenant_id.clone(),
                installation_id: r.installation_id.clone(),
                installation_external_id: r.installation_external_id.clone(),
                event_name: r.event_name.clone(),
                action: r.action.clone(),
                payload_digest: r.payload_digest.duplicate(),
                state: GitHubLifecycleDeliveryState::Pending,
                attempts: 0,
                available_unix_ms: r.now_unix_ms,
                lease_owner: None,
                lease_generation: 0,
                lease_expires_unix_ms: None,
                completion_digest: None,
                completed_lease_owner: None,
                completed_lease_generation: None,
                last_failure_generation: None,
                last_failure_lease_owner: None,
                last_error_digest: None,
                last_retry_unix_ms: None,
                created_unix_ms: r.now_unix_ms,
                updated_unix_ms: r.now_unix_ms,
                completed_unix_ms: None,
            };
            Ok(IdempotentResult { value, replayed: false })
        },
        Some(d) => {
            if text_eq(d.installation_id.as_str(), r.installation_id.as_str()) && text_eq(
                d.installation_external_id.as_str(),
                r.installation_external_id.as_str(),
            ) && text_eq(d.event_name.as_str(), r.event_name.as_str()) && text_eq(
                d.action.as_str(),
                r.action.as_str(),
            )
                && digest_eq(&d.payload_digest, &r.payload_digest) {
                Ok(IdempotentResult { value: d, replayed: true })
            } else {
                Err(ControlPlaneError::IdempotencyConflict)
            }
        },
    }
}

/// Reserving the same delivery again changes nothing: after a reservation,
/// the identical request replays the stored delivery.
pub proof fn law_lifecycle_reservation_replays(
    existing: Option<GitHubLifecycleDeliveryRecord>,
    r: ReserveGitHubLifecycleDelivery,
)
    requires
        reservation_outcome(existing, r) is Ok,
    ensures
        ({
            let v = reservation_outcome(existing, r)->Ok_0.value;
            reservation_outcome(Some(v), r) == Ok::<IdempotentResult<GitHubLifecycleDeliveryRecord>, ControlPlaneError>(
                IdempotentResult { value: v, replayed: true },
            )
        }),
{
}

/// A worker's report that it has processed a leased lifecycle delivery.
#[derive(Debug, Clone, PartialEq, Eq)]
pub struct CompleteGitHubLifecycleDelivery {
    pub tenant_id: String,
    pub delivery_id: String,
    pub worker_id: String,
    pub lease_generation: u64,
    pub completion_digest: ContentDigest,
    pub now_unix_ms: u64,
}

/// The delivery `d` once completed by the request `r`: the lease is released
/// and the completion is recorded with its owner and generation.
pub open spec fn completed_delivery(
    d: GitHubLifecycleDeliveryRecord,
    r: CompleteGitHubLifecycleDelivery,
) -> GitHubLifecycleDeliveryRecord {
    GitHubLifecycleDeliveryRecord {
        state: GitHubLifecycleDeliveryState::Completed,
        lease_owner: None,
        lease_expires_unix_ms: None,
        completion_digest: Some(r.completion_digest),
        completed_lease_owner: Some(r.worker_id),
        completed_lease_generation: Some(r.lease_generation),
        updated_unix_ms: r.now_unix_ms,
        completed_unix_ms: Some(r.now_unix_ms),
        ..d
    }
}

/// The completed delivery `d` records exactly the completion `r` reports.
pub open spec fn completion_matches(
    d: GitHubLifecycleDeliveryRecord,
    r: CompleteGitHubLifecycleDelivery,
) -> bool {
    &&& d.completion_digest matches Some(x) && x@ == r.completion_digest@
    &&& d.completed_lease_owner matches Some(o) && o@ == r.worker_id@
    &&& d.completed_lease_generation == Some(r.lease_generation)
}

/// The outcome of completing `d` with `r`: a completed delivery replays an
/// identical completion and refuses any other; otherwise the caller must
/// still hold the lease.
pub open spec fn completion_outcome(
    d: GitHubLifecycleDeliveryRecord,
    r: CompleteGitHubLifecycleDelivery,
) -> Result<IdempotentResult<GitHubLifecycleDeliveryRecord>, ControlPlaneError> {
    if d.state == GitHubLifecycleDeliveryState::Completed {
        if completion_matches(d, r) {
            Ok(IdempotentResult { value: d, replayed: true })
        } else {
            Err(ControlPlaneError::IdempotencyConflict)
        }
    } else if lease_held(d, r.worker_id@, r.lease_generation, r.now_unix_ms) {
        Ok(IdempotentResult { value: completed_delivery(d, r), replayed: false })
    } else {
        Err(ControlPlaneError::GitHubLifecycleLeaseLost)
    }
}

/// Completes a leased lifecycle delivery, or replays an identical completion.
pub fn complete_lifecycle_delivery(
    d: GitHubLifecycleDeliveryRecord,
    r: &CompleteGitHubLifecycleDelivery,
) -> (res: Result<IdempotentResult<GitHubLifecycleDeliveryRecord>, ControlPlaneError>)
    ensures
        res == completion_outcome(d, *r),
{
    if d.state == GitHubLifecycleDeliveryState::Completed {
        if opt_digest_is(&d.completion_digest, &r.completion_digest) && opt_text_is(
            &d.completed_lease_owner,
            r.worker_id.as_str(),
        ) && d.completed_lease_generation == Some(r.lease_generation) {
            return Ok(IdempotentResult { value: d, replayed: true });
        }
        return Err(ControlPlaneError::IdempotencyConflict);
    }
    require_lifecycle_lease(&d, r.worker_id.as_str(), r.lease_generation, r.now_unix_ms)?;
    let value = GitHubLifecycleDeliveryRecord {
        state: GitHubLifecycleDeliveryState::Completed,
        lease_owner: None,
        lease_expires_unix_ms: None,
        completion_digest: Some(r.completion_digest.duplicate()),
        completed_lease_owner: Some(r.worker_id.clone()),
        completed_lease_generation: Some(r.lease_generation),
        updated_unix_ms: r.now_unix_ms,
        completed_unix_ms: Some(r.now_unix_ms),
        ..d
    };
    Ok(IdempotentResult { value, replayed: false })
}

/// A worker's report that it failed to process a leased lifecycle delivery,
/// with an optional time at which to try again.
#[derive(Debug, Clone, PartialEq, Eq)]
pub struct FailGitHubLifecycleDelivery {
    pub tenant_id: String,
    pub delivery_id: String,
    pub worker_id: String,
    pub lease_generation: u64,
    pub error_digest: ContentDigest,
    pub retry_unix_ms: Option<u64>,
    pub now_unix_ms: u64,
}

/// The most attempts a lifecycle delivery gets.
pub const LIFECYCLE_MAX_ATTEMPTS: u32 = 8;

/// How far ahead a retry may be scheduled: one hour.
pub const LIFECYCLE_RETRY_WINDOW_MS: u64 = 3600000;

pub const FIELD_RETRY_DEADLINE: &'static str = "GitHub lifecycle retry deadline";

pub const MSG_RETRY_BOUND: &'static str = "GitHub lifecycle retry is outside its bound";

/// A failure report is bound like any lease-holding mutation, and a retry it
/// asks for lies between now and one hour from now.
pub open spec fn lifecycle_failure_check(r: FailGitHubLifecycleDelivery) -> Result<(), ControlPlaneError> {
    then_check(
        lifecycle_mutation_check(sb(r.tenant_id), sb(r.delivery_id), sb(r.worker_id), r.lease_generation),
        match r.retry_unix_ms {
            Some(retry) => if r.now_unix_ms + LIFECYCLE_RETRY_WINDOW_MS > u64::MAX {
                Err(ControlPlaneError::IntegerRange { field: FIELD_RETRY_DEADLINE })
            } else if retry < r.now_unix_ms || retry > r.now_unix_ms + LIFECYCLE_RETRY_WINDOW_MS {
                Err(ControlPlaneError::InvalidInput(MSG_RETRY_BOUND))
            } else {
                Ok(())
            },
            None => Ok(()),
        },
    )
}

/// Validates a failure report before the delivery is read.
pub fn validate_lifecycle_failure(r: &FailGitHubLifecycleDelivery) -> (res: Result<(), ControlPlaneError>)
    ensures
        res == lifecycle_failure_check(*r),
{
    validate_lifecycle_mutation(
        r.tenant_id.as_str(),
        r.delivery_id.as_str(),
        r.worker_id.as_str(),
        r.lease_generation,
    )?;
    if let Some(retry) = r.retry_unix_ms {
        let max = match r.now_unix_ms.checked_add(LIFECYCLE_RETRY_WINDOW_MS) {
            Some(m) => m,
            None => return Err(ControlPlaneError::IntegerRange { field: FIELD_RETRY_DEADLINE }),
        };
        if retry < r.now_unix_ms || retry > max {
            return Err(ControlPlaneError::InvalidInput(MSG_RETRY_BOUND));
        }
    }
    Ok(())
}

/// The retry that a failure schedules: the one asked for, while attempts remain.
pub open spec fn scheduled_retry(d: GitHubLifecycleDeliveryRecord, r: FailGitHubLifecycleDelivery) -> Option<u64> {
    if d.attempts < LIFECYCLE_MAX_ATTEMPTS {
        r.retry_unix_ms
    } else {
        None
    }
}

/// The delivery `d` once failed by `r`: pending again at the retry time if
/// one is scheduled, failed for good otherwise; the lease is released and
/// the failure recorded with its owner and generation.
pub open spec fn failed_delivery(
    d: GitHubLifecycleDeliveryRecord,
    r: FailGitHubLifecycleDelivery,
) -> GitHubLifecycleDeliveryRecord {
    let retry = scheduled_retry(d, r);
    GitHubLifecycleDeliveryRecord {
        state: if retry is Some {
            GitHubLifecycleDeliveryState::Pending
        } else {
            GitHubLifecycleDeliveryState::Failed
        },
        available_unix_ms: match retry {
            Some(t) => t,
            None => r.now_unix_ms,
        },
        lease_owner: None,
        lease_expires_unix_ms: None,
        last_failure_generation: Some(r.lease_generation),
        last_failure_lease_owner: Some(r.worker_id),
        last_error_digest: Some(r.error_digest),
        last_retry_unix_ms: retry,
        updated_unix_ms: r.now_unix_ms,
        ..d
    }
}

/// The failure recorded on `d` was reported by the same lease.
pub open spec fn failure_reported_by(d: GitHubLifecycleDeliveryRecord, r: FailGitHubLifecycleDelivery) -> bool {
    &&& d.last_failure_generation == Some(r.lease_generation)
    &&& d.last_failure_lease_owner matches Some(o) && o@ == r.worker_id@
}

/// The outcome of failing `d` with `r`: a failure already reported by the
/// same lease replays when identical and is refused otherwise; a new failure
/// needs the lease.
pub open spec fn failure_outcome(
    d: GitHubLifecycleDeliveryRecord,
    r: FailGitHubLifecycleDelivery,
) -> Result<IdempotentResult<GitHubLifecycleDeliveryRecord>, ControlPlaneError> {
    if failure_reported_by(d, r) {
        if (d.last_error_digest matches Some(e) && e@ == r.error_digest@) && d.last_retry_unix_ms
            == r.retry_unix_ms {
            Ok(IdempotentResult { value: d, replayed: true })
        } else {
            Err(ControlPlaneError::IdempotencyConflict)
        }
    } else if lease_held(d, r.worker_id@, r.lease_generation, r.now_unix_ms) {
        Ok(IdempotentResult { value: failed_delivery(d, r), replayed: false })
    } else {
        Err(ControlPlaneError::GitHubLifecycleLeaseLost)
    }
}

/// Records a failed attempt at a lifecycle delivery, or replays an identical
/// report.
pub fn fail_lifecycle_delivery(
    d: GitHubLifecycleDeliveryRecord,
    r: &FailGitHubLifecycleDelivery,
) -> (res: Result<IdempotentResult<GitHubLifecycleDeliveryRecord>, ControlPlaneError>)
    ensures
        res == failure_outcome(d, *r),
{
    if d.last_failure_generation == Some(r.lease_generation) && opt_text_is(
        &d.last_failure_lease_owner,
        r.worker_id.as_str(),
    ) {
        if opt_digest_is(&d.last_error_digest, &r.error_digest) && d.last_retry_unix_ms
            == r.retry_unix_ms {
            return Ok(IdempotentResult { value: d, replayed: true });
        }
        return Err(ControlPlaneError::IdempotencyConflict);
    }
    require_lifecycle_lease(&d, r.worker_id.as_str(), r.lease_generation, r.now_unix_ms)?;
    let retry = if d.attempts < LIFECYCLE_MAX_ATTEMPTS {
        r.retry_unix_ms
    } else {
        None
    };
    let state = if retry.is_some() {
        GitHubLifecycleDeliveryState::Pending
    } else {
        GitHubLifecycleDeliveryState::Failed
    };
    let available = match retry {
        Some(t) => t,
        None => r.now_unix_ms,
    };
    let value = GitHubLifecycleDeliveryRecord {
        state,
        available_unix_ms: available,
        lease_owner: None,
        lease_expires_unix_ms: None,
        last_failure_generation: Some(r.lease_generation),
        last_failure_lease_owner: Some(r.worker_id.clone()),
        last_error_digest: Some(r.error_digest.duplicate()),
        last_retry_unix_ms: retry,
        updated_unix_ms: r.now_unix_ms,
        ..d
    };
    Ok(IdempotentResult { value, replayed: false })
}

/// The text whose digest records that a delivery ran out of attempts.
pub const LIFECYCLE_EXHAUSTED: &'static str = "github lifecycle delivery attempts exhausted";

/// The failure owner recorded when an unleased delivery runs out of attempts.
pub const LIFECYCLE_EXHAUSTION_OWNER: &'static str = "github-lifecycle-exhaustion";

/// What a claim on a lifecycle delivery comes to.
#[derive(Debug, Clone, PartialEq, Eq)]
pub enum LifecycleClaim {
    /// The caller already holds an unexpired lease on it.
    Replayed(GitHubLifecycleDeliveryRecord),
    /// Another worker holds it, it is finished, or it is not due yet.
    Unavailable,
    /// It has used all its attempts: it is failed for good, and not claimed.
    Exhausted(GitHubLifecycleDeliveryRecord),
    /// The caller now holds a fresh lease on it.
    Claimed(GitHubLifecycleDeliveryRecord),
}

/// Which way a claim goes, before any record is written.
pub enum ClaimDecision {
    Replay,
    Unavailable,
    Exhaust,
    Claim,
}

/// How a claim by `worker` at `now` for `duration` decides on `d`.
pub open spec fn claim_decision(d: GitHubLifecycleDeliveryRecord, worker: Seq<char>, now: u64, duration: u64) -> Result<
    ClaimDecision,
    ControlPlaneError,
> {
    if d.state == GitHubLifecycleDeliveryState::Leased && (d.lease_expires_unix_ms matches Some(x)
        && x > now) {
        if d.lease_owner matches Some(o) && o@ == worker {
            Ok(ClaimDecision::Replay)
        } else {
            Ok(ClaimDecision::Unavailable)
        }
    } else if d.state == GitHubLifecycleDeliveryState::Completed || d.state
        == GitHubLifecycleDeliveryState::Failed || (d.state == GitHubLifecycleDeliveryState::Pending
        && d.available_unix_ms > now) {
        Ok(ClaimDecision::Unavailable)
    } else if d.attempts >= LIFECYCLE_MAX_ATTEMPTS {
        Ok(ClaimDecision::Exhaust)
    } else if d.lease_generation == u64::MAX {
        Err(ControlPlaneError::IntegerRange { field: FIELD_LEASE_GENERATION })
    } else if now + duration > u64::MAX {
        Err(ControlPlaneError::IntegerRange { field: FIELD_LEASE_EXPIRY })
    } else {
        Ok(ClaimDecision::Claim)
    }
}

pub const FIELD_LEASE_GENERATION: &'static str = "GitHub lifecycle lease generation";

/// The delivery `d` leased to `owner` at `now` for `duration`: one more
/// attempt under the next lease generation.
pub open spec fn claimed_delivery(
    d: GitHubLifecycleDeliveryRecord,
    owner: Option<String>,
    now: u64,
    duration: u64,
) -> GitHubLifecycleDeliveryRecord {
    GitHubLifecycleDeliveryRecord {
        state: GitHubLifecycleDeliveryState::Leased,
        attempts: (d.attempts + 1) as u32,
        lease_owner: owner,
        lease_generation: (d.lease_generation + 1) as u64,
        lease_expires_unix_ms: Some((now + duration) as u64),
        updated_unix_ms: now,
        ..d
    }
}

/// The delivery `d` failed for good at `now` for want of attempts, with the
/// failure recorded under its current lease generation.
pub open spec fn exhausted_delivery(
    d: GitHubLifecycleDeliveryRecord,
    now: u64,
    owner: Option<String>,
    error: Option<ContentDigest>,
) -> GitHubLifecycleDeliveryRecord {
    GitHubLifecycleDeliveryRecord {
        state: GitHubLifecycleDeliveryState::Failed,
        lease_owner: None,
        lease_expires_unix_ms: None,
        last_failure_generation: Some(d.lease_generation),
        last_failure_lease_owner: owner,
        last_error_digest: error,
        last_retry_unix_ms: None,
        updated_unix_ms: now,
        ..d
    }
}

/// `x` is `d` exhausted at `now`: the failure owner is the lease owner, if
/// any, and the error is the digest of the exhaustion text.
pub open spec fn is_exhausted_delivery(x: GitHubLifecycleDeliveryRecord, d: GitHubLifecycleDeliveryRecord, now: u64) -> bool {
    &&& x == exhausted_delivery(d, now, x.last_failure_lease_owner, x.last_error_digest)
    &&& d.lease_owner is Some ==> x.last_failure_lease_owner == d.lease_owner
    &&& d.lease_owner is None ==> (x.last_failure_lease_owner matches Some(o) && o@
        == LIFECYCLE_EXHAUSTION_OWNER@)
    &&& x.last_error_digest matches Some(e) && e@ == sha256_text(LIFECYCLE_EXHAUSTED.spec_bytes())
}

/// Marks a delivery that has used all its attempts as failed.
pub fn exhaust_lifecycle_delivery(d: GitHubLifecycleDeliveryRecord, now: u64) -> (res:
    GitHubLifecycleDeliveryRecord)
    ensures
        is_exhausted_delivery(res, d, now),
{
    let owner = match &d.lease_owner {
        Some(o) => o.clone(),
        None => String::from_str(LIFECYCLE_EXHAUSTION_OWNER),
    };
    let error = content_digest_sha256(LIFECYCLE_EXHAUSTED.as_bytes());
    GitHubLifecycleDeliveryRecord {
        state: GitHubLifecycleDeliveryState::Failed,
        lease_owner: None,
        lease_expires_unix_ms: None,
        last_failure_generation: Some(d.lease_generation),
        last_failure_lease_owner: Some(owner),
        last_error_digest: Some(error),
        last_retry_unix_ms: None,
        updated_unix_ms: now,
        ..d
    }
}

/// Claims a lifecycle delivery for `worker` at `now` for `duration`.
pub fn claim_lifecycle_delivery(
    d: GitHubLifecycleDeliveryRecord,
    worker: &str,
    now: u64,
    duration: u64,
) -> (res: Result<LifecycleClaim, ControlPlaneError>)
    ensures
        match claim_decision(d, worker@, now, duration) {
            Err(e) => res == Err::<LifecycleClaim, ControlPlaneError>(e),
            Ok(ClaimDecision::Replay) => res == Ok::<LifecycleClaim, ControlPlaneError>(
                LifecycleClaim::Replayed(d),
            ),
            Ok(ClaimDecision::Unavailable) => res == Ok::<LifecycleClaim, ControlPlaneError>(
                LifecycleClaim::Unavailable,
            ),
            Ok(ClaimDecision::Exhaust) => res matches Ok(LifecycleClaim::Exhausted(x))
                && is_exhausted_delivery(x, d, now),
            Ok(ClaimDecision::Claim) => res matches Ok(LifecycleClaim::Claimed(x)) && x
                == claimed_delivery(d, x.lease_owner, now, duration) && (x.lease_owner matches Some(
                o) && o@ == worker@),
        },
{
    let live = match d.lease_expires_unix_ms {
        Some(x) => x > now,
        None => false,
    };
    if d.state == GitHubLifecycleDeliveryState::Leased && live {
        if opt_text_is(&d.lease_owner, worker) {
            return Ok(LifecycleClaim::Replayed(d));
        }
        return Ok(LifecycleClaim::Unavailable);
    }
    if d.state == GitHubLifecycleDeliveryState::Completed || d.state
        == GitHubLifecycleDeliveryState::Failed || (d.state == GitHubLifecycleDeliveryState::Pending
        && d.available_unix_ms > now) {
        return Ok(LifecycleClaim::Unavailable);
    }
    if d.attempts >= LIFECYCLE_MAX_ATTEMPTS {
        return Ok(LifecycleClaim::Exhausted(exhaust_lifecycle_delivery(d, now)));
    }
    let generation = match d.lease_generation.checked_add(1) {
        Some(g) => g,
        None => return Err(ControlPlaneError::IntegerRange { field: FIELD_LEASE_GENERATION }),
    };
    let expiry = match now.checked_add(duration) {
        Some(e) => e,
        None => return Err(ControlPlaneError::IntegerRange { field: FIELD_LEASE_EXPIRY }),
    };
    let owner = String::from_str(worker);
    Ok(
        LifecycleClaim::Claimed(
            GitHubLifecycleDeliveryRecord {
                state: GitHubLifecycleDeliveryState::Leased,
                attempts: d.attempts + 1,
                lease_owner: Some(owner),
                lease_generation: generation,
                lease_expires_unix_ms: Some(expiry),
                updated_unix_ms: now,
                ..d
            },
        ),
    )
}

/// Reporting the same completion again changes nothing: once a completion
/// is recorded, the identical report replays the completed delivery.
pub proof fn law_lifecycle_completion_replays(d: GitHubLifecycleDeliveryRecord, r: CompleteGitHubLifecycleDelivery)
    requires
        completion_outcome(d, r) is Ok,
    ensures
        ({
            let v = completion_outcome(d, r)->Ok_0.value;
            completion_outcome(v, r) == Ok::<IdempotentResult<GitHubLifecycleDeliveryRecord>, ControlPlaneError>(
                IdempotentResult { value: v, replayed: true },
            )
        }),
{
}

/// Reporting the same failure again changes nothing: once a failure is
/// recorded, the identical report from the same lease replays it. (A report
/// that asks for a retry the delivery has no attempts left for records no
/// retry, so its repetition is refused as a different report.)
pub proof fn law_lifecycle_failure_replays(d: GitHubLifecycleDeliveryRecord, r: FailGitHubLifecycleDelivery)
    requires
        failure_outcome(d, r) is Ok,
        !failure_reported_by(d, r) && r.retry_unix_ms is Some ==> d.attempts < LIFECYCLE_MAX_ATTEMPTS,
    ensures
        ({
            let v = failure_outcome(d, r)->Ok_0.value;
            failure_outcome(v, r) == Ok::<IdempotentResult<GitHubLifecycleDeliveryRecord>, ControlPlaneError>(
                IdempotentResult { value: v, replayed: true },
            )
        }),
{
}

/// A fresh lease belongs to its claimant until it expires: the claimant
/// holds it under the new generation and a second claim of its own replays,
/// while any other worker's claim finds the delivery unavailable.
pub proof fn law_lifecycle_lease_exclusive(
    d: GitHubLifecycleDeliveryRecord,
    owner: String,
    other: Seq<char>,
    now: u64,
    duration: u64,
    t: u64,
    later_duration: u64,
)
    requires
        claim_decision(d, owner@, now, duration) == Ok::<ClaimDecision, ControlPlaneError>(ClaimDecision::Claim),
        now <= t < now + duration,
        other != owner@,
    ensures
        ({
            let x = claimed_delivery(d, Some(owner), now, duration);
            &&& lease_held(x, owner@, x.lease_generation, t)
            &&& x.lease_generation == d.lease_generation + 1
            &&& claim_decision(x, owner@, t, later_duration) == Ok::<ClaimDecision, ControlPlaneError>(ClaimDecision::Replay)
            &&& claim_decision(x, other, t, later_duration) == Ok::<ClaimDecision, ControlPlaneError>(ClaimDecision::Unavailable)
        }),
{
}

/// A delivery is never claimed past its attempts: every claim of a delivery
/// that has used them all (and is not under a live lease) exhausts it.
pub proof fn law_lifecycle_attempts_bounded(d: GitHubLifecycleDeliveryRecord, worker: Seq<char>, now: u64, duration: u64)
    requires
        claim_decision(d, worker, now, duration) == Ok::<ClaimDecision, ControlPlaneError>(ClaimDecision::Claim),
    ensures
        d.attempts < LIFECYCLE_MAX_ATTEMPTS,
        claimed_delivery(d, None, now, duration).attempts <= LIFECYCLE_MAX_ATTEMPTS,
{
}

/// A delivery that the periodic sweep fails for want of attempts: out of
/// attempts, and pending or under an expired lease.
pub open spec fn lifecycle_needs_exhaustion(d: GitHubLifecycleDeliveryRecord, now: u64) -> bool {
    &&& d.attempts >= LIFECYCLE_MAX_ATTEMPTS
    &&& d.state == GitHubLifecycleDeliveryState::Pending || (d.state
        == GitHubLifecycleDeliveryState::Leased && (d.lease_expires_unix_ms matches Some(x) && x
        <= now))
}

/// Whether the sweep at `now` fails `d` for want of attempts.
pub fn needs_exhaustion(d: &GitHubLifecycleDeliveryRecord, now: u64) -> (res: bool)
    ensures
        res == lifecycle_needs_exhaustion(*d, now),
{
    let expired = match d.lease_expires_unix_ms {
        Some(x) => x <= now,
        None => false,
    };
    d.attempts >= LIFECYCLE_MAX_ATTEMPTS && (d.state == GitHubLifecycleDeliveryState::Pending || (
    d.state == GitHubLifecycleDeliveryState::Leased && expired))
}

/// The durable name of a GitHub lifecycle state.
pub open spec fn lifecycle_state_text(s: GitHubLifecycleDeliveryState) -> &'static str {
    match s {
        GitHubLifecycleDeliveryState::Pending => "pending",
        GitHubLifecycleDeliveryState::Leased => "leased",
        GitHubLifecycleDeliveryState::Completed => "completed",
        GitHubLifecycleDeliveryState::Failed => "failed",
    }
}

/// The durable name of a GitHub lifecycle state.
pub fn lifecycle_state_name(s: GitHubLifecycleDeliveryState) -> (res: &'static str)
    ensures
        res == lifecycle_state_text(s),
{
    match s {
        GitHubLifecycleDeliveryState::Pending => "pending",
        GitHubLifecycleDeliveryState::Leased => "leased",
        GitHubLifecycleDeliveryState::Completed => "completed",
        GitHubLifecycleDeliveryState::Failed => "failed",
    }
}

/// The GitHub lifecycle state whose durable name has the bytes `b`.
pub open spec fn lifecycle_state_named(b: Seq<u8>) -> Option<GitHubLifecycleDeliveryState> {
    if b == "pending".spec_bytes() {
        Some(GitHubLifecycleDeliveryState::Pending)
    } else if b == "leased".spec_bytes() {
        Some(GitHubLifecycleDeliveryState::Leased)
    } else if b == "completed".spec_bytes() {
        Some(GitHubLifecycleDeliveryState::Completed)
    } else if b == "failed".spec_bytes() {
        Some(GitHubLifecycleDeliveryState::Failed)
    } else {
        None
    }
}

/// Reads the durable name of a GitHub lifecycle state.
pub fn parse_lifecycle_state(value: &str) -> (res: Result<GitHubLifecycleDeliveryState, ControlPlaneError>)
    ensures
        match lifecycle_state_named(value.spec_bytes()) {
            Some(s) => res == Ok::<GitHubLifecycleDeliveryState, ControlPlaneError>(s),
            None => res matches Err(ControlPlaneError::UnknownState { kind, value: v }) && kind
                == "GitHub lifecycle state" && v@ == value@,
        },
{
    if str_is(value, "pending") {
        Ok(GitHubLifecycleDeliveryState::Pending)
    } else if str_is(value, "leased") {
        Ok(GitHubLifecycleDeliveryState::Leased)
    } else if str_is(value, "completed") {
        Ok(GitHubLifecycleDeliveryState::Completed)
    } else if str_is(value, "failed") {
        Ok(GitHubLifecycleDeliveryState::Failed)
    } else {
        Err(ControlPlaneError::UnknownState { kind: "GitHub lifecycle state", value: value.to_owned() })
    }
}

/// A request to begin a GitHub App setup transaction.
#[derive(Debug, Clone, PartialEq, Eq)]
pub struct CreateGitHubSetupTransaction {
    pub id: String,
    pub tenant_id: String,
    pub principal_id: String,
    pub github_web_origin: String,
    pub github_api_origin: String,
    pub idempotency_key: String,
    pub return_path: String,
    pub created_unix_ms: u64,
    pub expires_unix_ms: u64,
    pub request_digest: ContentDigest,
    pub state_digest: ContentDigest,
}

pub const FIELD_SETUP_IDENTITY: &'static str = "GitHub setup identity";

pub const FIELD_SETUP_KEY: &'static str = "GitHub setup idempotency key";

pub const MSG_SETUP_EXPIRY: &'static str = "invalid GitHub setup expiry";

pub const MSG_SETUP_REQUEST: &'static str = "invalid GitHub setup request";

/// A return path: absolute, not protocol-relative, at most 2 KiB, with no NUL,
/// backslash or ASCII control byte.
pub open spec fn return_path_ok(p: Seq<u8>) -> bool {
    &&& p.len() > 0
    &&& p.len() <= 2048
    &&& p[0] == 47u8
    &&& !(p.len() >= 2 && p[1] == 47u8)
    &&& !p.contains(0u8)
    &&& !p.contains(92u8)
    &&& forall|i: int| 0 <= i < p.len() ==> !is_ascii_control(#[trigger] p[i])
}

/// What `validate_setup_request` decides, given the digest that the request's
/// fields determine.
pub open spec fn setup_request_check(r: CreateGitHubSetupTransaction, expected: Seq<char>) -> Result<
    (),
    ControlPlaneError,
> {
    then_check(
        scm_text_check(FIELD_SETUP_IDENTITY, sb(r.id)),
        then_check(
            scm_text_check(FIELD_SETUP_IDENTITY, sb(r.tenant_id)),
            then_check(
                scm_text_check(FIELD_SETUP_IDENTITY, sb(r.principal_id)),
                then_check(
                    origins_check(sb(r.github_web_origin), sb(r.github_api_origin)),
                    then_check(
                        scm_text_check(FIELD_SETUP_KEY, sb(r.idempotency_key)),
                        if r.expires_unix_ms <= r.created_unix_ms || r.expires_unix_ms
                            - r.created_unix_ms > 900000 {
                            Err(ControlPlaneError::InvalidInput(MSG_SETUP_EXPIRY))
                        } else if sb(r.idempotency_key).len() > 200 || !return_path_ok(
                            sb(r.return_path),
                        ) || expected != r.request_digest@ {
                            Err(ControlPlaneError::InvalidInput(MSG_SETUP_REQUEST))
                        } else {
                            Ok(())
                        },
                    ),
                ),
            ),
        ),
    )
}

/// Validates a GitHub App setup request; `expected_request_digest` is the
/// digest that the request's own fields determine.
pub fn validate_setup_request(
    r: &CreateGitHubSetupTransaction,
    expected_request_digest: &ContentDigest,
) -> (res: Result<(), ControlPlaneError>)
    ensures
        res == setup_request_check(*r, expected_request_digest@),
{
    validate_text(FIELD_SETUP_IDENTITY, r.id.as_str())?;
    validate_text(FIELD_SETUP_IDENTITY, r.tenant_id.as_str())?;
    validate_text(FIELD_SETUP_IDENTITY, r.principal_id.as_str())?;
    validate_origins(r.github_web_origin.as_str(), r.github_api_origin.as_str())?;
    validate_text(FIELD_SETUP_KEY, r.idempotency_key.as_str())?;
    if r.expires_unix_ms <= r.created_unix_ms || r.expires_unix_ms - r.created_unix_ms > 900000 {
        return Err(ControlPlaneError::InvalidInput(MSG_SETUP_EXPIRY));
    }
    let p = r.return_path.as_str().as_bytes();
    let path_ok = p.len() > 0 && p.len() <= 2048 && p[0] == 47u8 && !(p.len() >= 2 && p[1]
        == 47u8) && !contains_byte(p, 0u8) && !contains_byte(p, 92u8) && !any_control(p);
    if r.idempotency_key.as_str().as_bytes().len() > 200 || !path_ok || !digest_eq(
        expected_request_digest,
        &r.request_digest,
    ) {
        return Err(ControlPlaneError::InvalidInput(MSG_SETUP_REQUEST));
    }
    Ok(())
}

/// Where an SCM execution waiting for approval stands.
#[derive(Debug, Clone, Copy, PartialEq, Eq, Structural)]
pub enum ContinuationApprovalState {
    /// An approval it names no longer exists.
    Stale,
    /// An approval it names was denied.
    Denied,
    /// The execution or one of its approvals expired.
    Expired,
    /// Every approval it names is approved.
    Ready,
    /// Some approval is still pending.
    Waiting,
}

/// An approval request named by a pending SCM execution, as stored.
#[derive(Debug, Clone, PartialEq, Eq)]
pub struct ApprovalSnapshot {
    pub status: String,
    pub expires_unix_ms: i64,
}

/// Where a pending execution naming `named` approvals stands at `now`,
/// given the approvals found for them.
pub open spec fn continuation_state(named: nat, found: Seq<ApprovalSnapshot>, expires: u64, now: u64) -> ContinuationApprovalState {
    if found.len() != named {
        ContinuationApprovalState::Stale
    } else if exists|k: int| 0 <= k < found.len() && (#[trigger] found[k]).status@ == "denied"@ {
        ContinuationApprovalState::Denied
    } else if now >= expires || exists|k: int|
        0 <= k < found.len() && (#[trigger] found[k]).expires_unix_ms <= (if now > i64::MAX {
            i64::MAX as int
        } else {
            now as int
        }) {
        ContinuationApprovalState::Expired
    } else if forall|k: int| 0 <= k < found.len() ==> (#[trigger] found[k]).status@ == "approved"@ {
        ContinuationApprovalState::Ready
    } else {
        ContinuationApprovalState::Waiting
    }
}

/// Decides where a pending execution stands: `named` is how many approvals
/// it names, `found` the ones that exist.
pub fn continuation_approval_state(
    named: usize,
    found: &Vec<ApprovalSnapshot>,
    expires: u64,
    now: u64,
) -> (res: ContinuationApprovalState)
    ensures
        res == continuation_state(named as nat, found@, expires, now),
{
    if found.len() != named {
        return ContinuationApprovalState::Stale;
    }
    let denied = String::from_str("denied");
    let approved = String::from_str("approved");
    let limit: i64 = if now > 0x7fff_ffff_ffff_ffffu64 {
        0x7fff_ffff_ffff_ffffi64
    } else {
        now as i64
    };
    let mut any_denied = false;
    let mut any_expired = false;
    let mut all_approved = true;
    let mut k: usize = 0;
    while k < found.len()
        invariant
            0 <= k <= found@.len(),
            denied@ == "denied"@,
            approved@ == "approved"@,
            limit == (if now > i64::MAX {
                i64::MAX as int
            } else {
                now as int
            }),
            any_denied == exists|j: int| 0 <= j < k && (#[trigger] found@[j]).status@ == "denied"@,
            any_expired == exists|j: int| 0 <= j < k && (#[trigger] found@[j]).expires_unix_ms <= limit,
            all_approved == forall|j: int| 0 <= j < k ==> (#[trigger] found@[j]).status@ == "approved"@,
        decreases found@.len() - k,
    {
        if found[k].status == denied {
            any_denied = true;
        }
        if found[k].expires_unix_ms <= limit {
            any_expired = true;
        }
        if !(found[k].status == approved) {
            all_approved = false;
        }
        k += 1;
    }
    if any_denied {
        ContinuationApprovalState::Denied
    } else if now >= expires || any_expired {
        ContinuationApprovalState::Expired
    } else if all_approved {
        ContinuationApprovalState::Ready
    } else {
        ContinuationApprovalState::Waiting
    }
}

/// The durable name of where a pending execution stands.
pub fn continuation_state_name(s: ContinuationApprovalState) -> (res: &'static str)
    ensures
        res == (match s {
            ContinuationApprovalState::Stale => "stale",
            ContinuationApprovalState::Denied => "denied",
            ContinuationApprovalState::Expired => "expired",
            ContinuationApprovalState::Ready => "ready",
            ContinuationApprovalState::Waiting => "waiting",
        }),
{
    match s {
        ContinuationApprovalState::Stale => "stale",
        ContinuationApprovalState::Denied => "denied",
        ContinuationApprovalState::Expired => "expired",
        ContinuationApprovalState::Ready => "ready",
        ContinuationApprovalState::Waiting => "waiting",
    }
}

/// What looking a repository up by owner and name finds.
pub enum RepositoryLookup {
    /// A text is invalid: the field it names.
    Invalid(&'static str),
    /// No repository has them.
    Missing,
    /// Exactly one has them.
    Found(RepositoryRecord),
    /// More than one has them.
    Ambiguous,
}

/// What a lookup by owner and name finds among the stored repositories with
/// that owner and name (at most two are read): both texts valid, then none
/// found, the one found, or an ambiguity.
pub open spec fn repository_lookup(owner: Seq<u8>, name: Seq<u8>, rows: Seq<RepositoryRecord>) -> RepositoryLookup {
    if scm_text_check("repository.owner", owner) is Err {
        RepositoryLookup::Invalid("repository.owner")
    } else if scm_text_check("repository.name", name) is Err {
        RepositoryLookup::Invalid("repository.name")
    } else if rows.len() == 0 {
        RepositoryLookup::Missing
    } else if rows.len() == 1 {
        RepositoryLookup::Found(rows[0])
    } else {
        RepositoryLookup::Ambiguous
    }
}

/// Picks the repository with an owner and name among the stored ones that
/// have them.
pub fn pick_repository_by_owner_name(owner: &str, name: &str, rows: Vec<RepositoryRecord>) -> (res: Result<
    RepositoryRecord,
    ControlPlaneError,
>)
    ensures
        match repository_lookup(owner.spec_bytes(), name.spec_bytes(), rows@) {
            RepositoryLookup::Invalid(f) => res == Err::<RepositoryRecord, ControlPlaneError>(
                ControlPlaneError::InvalidInput(f),
            ),
            RepositoryLookup::Missing => res matches Err(ControlPlaneError::NotFound { kind, id }) && kind
                == "repository" && id@ == owner@ + "/"@ + name@,
            RepositoryLookup::Found(r) => res == Ok::<RepositoryRecord, ControlPlaneError>(r),
            RepositoryLookup::Ambiguous => res matches Err(
                ControlPlaneError::AmbiguousRepositoryIdentity { owner: o, name: n },
            ) && o@ == owner@ && n@ == name@,
        },
{
    validate_text("repository.owner", owner)?;
    validate_text("repository.name", name)?;
    if rows.len() == 0 {
        let mut id = owner.to_owned();
        id.append("/");
        id.append(name);
        return Err(ControlPlaneError::NotFound { kind: "repository", id });
    }
    if rows.len() == 1 {
        let mut rows = rows;
        return Ok(rows.remove(0));
    }
    Err(ControlPlaneError::AmbiguousRepositoryIdentity { owner: owner.to_owned(), name: name.to_owned() })
}

pub const KIND_SCM_AUTHORIZATION: &'static str = "SCM repository authorization";

/// A link may be made when the tenant owns the repository and an active
/// GitHub installation of the tenant is the one linked: `repository_tenant`
/// is the tenant of the repository the link names, `installation` the
/// installation it names, each as stored if at all.
pub open spec fn scm_link_authorized(
    repository_tenant: Option<Seq<char>>,
    installation: Option<ScmInstallationRecord>,
    record: ScmRepositoryLinkRecord,
) -> bool {
    &&& repository_tenant == Some(record.tenant_id@)
    &&& installation matches Some(i) && i.tenant_id@ == record.tenant_id@ && i.provider@ == "github"@
        && i.status@ == "active"@
}

/// Authorizes a repository link.
pub fn authorize_scm_link(
    repository_tenant: &Option<String>,
    installation: &Option<ScmInstallationRecord>,
    record: &ScmRepositoryLinkRecord,
) -> (res: Result<(), ControlPlaneError>)
    ensures
        scm_link_authorized(
            match repository_tenant {
                Some(t) => Some(t@),
                None => None,
            },
            *installation,
            *record,
        ) ==> res is Ok,
        !scm_link_authorized(
            match repository_tenant {
                Some(t) => Some(t@),
                None => None,
            },
            *installation,
            *record,
        ) ==> (res matches Err(ControlPlaneError::NotFound { kind, id }) && kind == KIND_SCM_AUTHORIZATION
            && id@ == record.repository_id@),
{
    proof {
        reveal_strlit("github");
        reveal_strlit("active");
    }
    let repository_ok = match repository_tenant {
        Some(t) => *t == record.tenant_id,
        None => false,
    };
    let installation_ok = match installation {
        Some(i) => i.tenant_id == record.tenant_id && text_eq(i.provider.as_str(), "github") && text_eq(
            i.status.as_str(),
            "active",
        ),
        None => false,
    };
    if repository_ok && installation_ok {
        Ok(())
    } else {
        Err(ControlPlaneError::NotFound { kind: KIND_SCM_AUTHORIZATION, id: record.repository_id.clone() })
    }
}

/// Two link records hold the same values in every field.
pub open spec fn scm_link_same(a: ScmRepositoryLinkRecord, b: ScmRepositoryLinkRecord) -> bool {
    &&& a.repository_id@ == b.repository_id@
    &&& a.tenant_id@ == b.tenant_id@
    &&& a.installation_id@ == b.installation_id@
    &&& a.external_repository_id@ == b.external_repository_id@
    &&& a.clone_url@ == b.clone_url@
    &&& a.status@ == b.status@
    &&& a.created_unix_ms == b.created_unix_ms
    &&& a.updated_unix_ms == b.updated_unix_ms
}

/// The outcome of linking `record` once `stored` is the link stored under
/// its repository after the insert, which added `inserted` rows: the stored
/// link, replayed when nothing was added; refused when it is another link.
pub open spec fn scm_link_outcome(stored: ScmRepositoryLinkRecord, record: ScmRepositoryLinkRecord, inserted: u64) -> Result<
    IdempotentResult<ScmRepositoryLinkRecord>,
    ControlPlaneError,
> {
    if scm_link_same(stored, record) {
        Ok(IdempotentResult { value: stored, replayed: inserted == 0 })
    } else {
        Err(ControlPlaneError::IdempotencyConflict)
    }
}

/// Settles a repository link from what is stored after the insert.
pub fn settle_scm_link(stored: ScmRepositoryLinkRecord, record: &ScmRepositoryLinkRecord, inserted: u64) -> (res: Result<
    IdempotentResult<ScmRepositoryLinkRecord>,
    ControlPlaneError,
>)
    ensures
        res == scm_link_outcome(stored, *record, inserted),
{
    if stored.repository_id == record.repository_id && stored.tenant_id == record.tenant_id
        && stored.installation_id == record.installation_id && stored.external_repository_id
        == record.external_repository_id && stored.clone_url == record.clone_url && stored.status
        == record.status && stored.created_unix_ms == record.created_unix_ms && stored.updated_unix_ms
        == record.updated_unix_ms {
        Ok(IdempotentResult { value: stored, replayed: inserted == 0 })
    } else {
        Err(ControlPlaneError::IdempotencyConflict)
    }
}

/// A link is made once: linking the stored link again replays it, and a
/// different link for the same repository is refused.
pub proof fn law_scm_link_replays(stored: ScmRepositoryLinkRecord, other: ScmRepositoryLinkRecord)
    requires
        !scm_link_same(stored, other),
    ensures
        scm_link_outcome(stored, stored, 0) == Ok::<IdempotentResult<ScmRepositoryLinkRecord>, ControlPlaneError>(
            IdempotentResult { value: stored, replayed: true },
        ),
        scm_link_outcome(stored, other, 0) == Err::<IdempotentResult<ScmRepositoryLinkRecord>, ControlPlaneError>(
            ControlPlaneError::IdempotencyConflict,
        ),
{
}

} // verus!
