//! Links between a tenant's repositories and the GitHub repositories an
//! installation selected: creating or reactivating a link, and suspending
//! one, decided over what is stored.

use crate::error::ControlPlaneError;
use crate::github::{GitHubInstallationRecord, GitHubRepositoryCatalogRecord};
use crate::policy::IdempotentResult;
use crate::scm::{
    repository_check, sb, scm_text_check, text_eq, then_check, to_i64, validate_repository,
    validate_text, RepositoryRecord, ScmRepositoryLinkRecord,
};
use vstd::prelude::*;
use vstd::string::{StringExecFns, StringSliceAdditionalSpecFns};

verus! {

/// A request to link a tenant's repository to a GitHub repository that an
/// installation selected.
#[derive(Debug, Clone, PartialEq, Eq)]
pub struct LinkSelectedGitHubRepository {
    pub tenant_id: String,
    pub installation_id: String,
    pub external_repository_id: String,
    pub repository: RepositoryRecord,
    pub now_unix_ms: u64,
}

pub const FIELD_LINK_BINDING: &'static str = "GitHub repository link binding";

pub const MSG_LINK_TENANT: &'static str = "GitHub repository tenant binding differs";

/// What validating a link request decides: the repository record, the
/// binding texts, and that the repository belongs to the tenant.
pub open spec fn link_request_check(r: LinkSelectedGitHubRepository) -> Result<(), ControlPlaneError> {
    then_check(repository_check(r.repository),
    then_check(scm_text_check(FIELD_LINK_BINDING, sb(r.tenant_id)),
    then_check(scm_text_check(FIELD_LINK_BINDING, sb(r.installation_id)),
    then_check(scm_text_check(FIELD_LINK_BINDING, sb(r.external_repository_id)),
    if r.repository.tenant_id@ != r.tenant_id@ {
        Err(ControlPlaneError::InvalidInput(MSG_LINK_TENANT))
    } else {
        Ok(())
    }))))
}

/// Validates a link request before anything is read.
pub fn validate_link_request(r: &LinkSelectedGitHubRepository) -> (res: Result<(), ControlPlaneError>)
    ensures
        res == link_request_check(*r),
{
    validate_repository(&r.repository)?;
    validate_text(FIELD_LINK_BINDING, r.tenant_id.as_str())?;
    validate_text(FIELD_LINK_BINDING, r.installation_id.as_str())?;
    validate_text(FIELD_LINK_BINDING, r.external_repository_id.as_str())?;
    if !text_eq(r.repository.tenant_id.as_str(), r.tenant_id.as_str()) {
        return Err(ControlPlaneError::InvalidInput(MSG_LINK_TENANT));
    }
    Ok(())
}

/// Two repository records are the same record.
pub open spec fn same_repository(a: RepositoryRecord, b: RepositoryRecord) -> bool {
    &&& a.id@ == b.id@
    &&& a.tenant_id@ == b.tenant_id@
    &&& a.owner@ == b.owner@
    &&& a.name@ == b.name@
    &&& a.default_branch@ == b.default_branch@
    &&& a.visibility@ == b.visibility@
    &&& a.created_unix_ms == b.created_unix_ms
}

fn same_repository_exec(a: &RepositoryRecord, b: &RepositoryRecord) -> (res: bool)
    ensures
        res == same_repository(*a, *b),
{
    text_eq(a.id.as_str(), b.id.as_str()) && text_eq(a.tenant_id.as_str(), b.tenant_id.as_str())
        && text_eq(a.owner.as_str(), b.owner.as_str()) && text_eq(a.name.as_str(), b.name.as_str())
        && text_eq(a.default_branch.as_str(), b.default_branch.as_str()) && text_eq(
        a.visibility.as_str(),
        b.visibility.as_str(),
    ) && a.created_unix_ms == b.created_unix_ms
}

/// What linking writes.
#[derive(Debug, Clone, PartialEq, Eq)]
pub enum LinkPlan {
    /// The repository is linked already: nothing is written.
    Replay(ScmRepositoryLinkRecord),
    /// The stored link is written back with the given record; for a
    /// suspended link, it is active again.
    Reactivate(ScmRepositoryLinkRecord),
    /// The link is inserted, after the repository when `insert_repository`.
    Create { insert_repository: bool, link: ScmRepositoryLinkRecord },
}

pub const KIND_LINK_AUTHORIZATION: &'static str = "GitHub repository authorization";

/// The selected catalog row `c` describes the request's repository as the
/// active installation `i` sees it.
pub open spec fn catalog_describes(
    i: GitHubInstallationRecord,
    c: GitHubRepositoryCatalogRecord,
    r: LinkSelectedGitHubRepository,
) -> bool {
    &&& i.web_origin@ == c.web_origin@
    &&& i.api_origin@ == c.api_origin@
    &&& r.repository.owner@ == c.owner@
    &&& r.repository.name@ == c.name@
    &&& r.repository.default_branch@ == c.default_branch@
    &&& r.repository.visibility@ == c.visibility@
}

/// A stored link may serve the request: same tenant, installation, provider
/// repository and clone URL, and not revoked.
pub open spec fn link_compatible(
    l: ScmRepositoryLinkRecord,
    r: LinkSelectedGitHubRepository,
    c: GitHubRepositoryCatalogRecord,
) -> bool {
    &&& l.tenant_id@ == r.tenant_id@
    &&& l.installation_id@ == r.installation_id@
    &&& l.external_repository_id@ == r.external_repository_id@
    &&& l.clone_url@ == c.clone_url@
    &&& l.status@ != "revoked"@
}

/// The link a request creates: active, with the catalog's clone URL.
pub open spec fn created_link(r: LinkSelectedGitHubRepository, clone_url: String, status: String) -> ScmRepositoryLinkRecord {
    ScmRepositoryLinkRecord {
        repository_id: r.repository.id,
        tenant_id: r.tenant_id,
        installation_id: r.installation_id,
        external_repository_id: r.external_repository_id,
        clone_url,
        status,
        created_unix_ms: r.now_unix_ms,
        updated_unix_ms: r.now_unix_ms,
    }
}

/// Which way a link request goes.
pub enum LinkStep {
    Replay,
    Reactivate,
    Keep,
    Create { insert_repository: bool },
}

/// How a link request decides, given the installation, the catalog row and
/// the repository and link stored for it, and whether another repository is
/// linked to the same provider repository already.
pub open spec fn link_decision(
    r: LinkSelectedGitHubRepository,
    installation: Option<GitHubInstallationRecord>,
    catalog: Option<GitHubRepositoryCatalogRecord>,
    repository: Option<RepositoryRecord>,
    link: Option<ScmRepositoryLinkRecord>,
    taken: bool,
) -> Result<LinkStep, ControlPlaneError> {
    if !(installation matches Some(i) && i.installation.status@ == "active"@) || !(catalog matches Some(
        c,
    ) && c.status@ == "selected"@) {
        Err(ControlPlaneError::NotFound { kind: KIND_LINK_AUTHORIZATION, id: r.repository.id })
    } else if !catalog_describes(installation.unwrap(), catalog.unwrap(), r) {
        Err(ControlPlaneError::IdempotencyConflict)
    } else if repository matches Some(x) && !same_repository(x, r.repository) {
        Err(ControlPlaneError::IdempotencyConflict)
    } else if repository is None && r.repository.created_unix_ms > i64::MAX {
        Err(ControlPlaneError::IntegerRange { field: "repository creation" })
    } else {
        match link {
            Some(l) => if !link_compatible(l, r, catalog.unwrap()) {
                Err(ControlPlaneError::IdempotencyConflict)
            } else if l.status@ == "active"@ {
                Ok(LinkStep::Replay)
            } else if r.now_unix_ms > i64::MAX {
                Err(ControlPlaneError::IntegerRange { field: "GitHub link reactivation" })
            } else if l.status@ == "suspended"@ {
                Ok(LinkStep::Reactivate)
            } else {
                Ok(LinkStep::Keep)
            },
            None => if taken {
                Err(ControlPlaneError::IdempotencyConflict)
            } else if r.now_unix_ms > i64::MAX {
                Err(ControlPlaneError::IntegerRange { field: "GitHub link" })
            } else {
                Ok(LinkStep::Create { insert_repository: repository is None })
            },
        }
    }
}

/// Decides how to link a repository to a selected GitHub repository.
pub fn decide_github_link(
    r: &LinkSelectedGitHubRepository,
    installation: Option<GitHubInstallationRecord>,
    catalog: Option<GitHubRepositoryCatalogRecord>,
    repository: Option<RepositoryRecord>,
    link: Option<ScmRepositoryLinkRecord>,
    taken: bool,
) -> (res: Result<LinkPlan, ControlPlaneError>)
    ensures
        match link_decision(*r, installation, catalog, repository, link, taken) {
            Err(e) => res == Err::<LinkPlan, ControlPlaneError>(e),
            Ok(LinkStep::Replay) => res == Ok::<LinkPlan, ControlPlaneError>(
                LinkPlan::Replay(link.unwrap()),
            ),
            Ok(LinkStep::Keep) => res == Ok::<LinkPlan, ControlPlaneError>(
                LinkPlan::Reactivate(link.unwrap()),
            ),
            Ok(LinkStep::Reactivate) => res matches Ok(LinkPlan::Reactivate(x)) && x == (
            ScmRepositoryLinkRecord {
                status: x.status,
                updated_unix_ms: r.now_unix_ms,
                ..link.unwrap()
            }) && x.status@ == "active"@,
            Ok(LinkStep::Create { insert_repository }) => res matches Ok(
                LinkPlan::Create { insert_repository: ins, link: x },
            ) && ins == insert_repository && x == created_link(
                *r,
                catalog.unwrap().clone_url,
                x.status,
            ) && x.status@ == "active"@,
        },
{
    let authorized = match (&installation, &catalog) {
        (Some(i), Some(c)) => text_eq(i.installation.status.as_str(), "active") && text_eq(
            c.status.as_str(),
            "selected",
        ),
        _ => false,
    };
    if !authorized {
        return Err(
            ControlPlaneError::NotFound {
                kind: KIND_LINK_AUTHORIZATION,
                id: r.repository.id.clone(),
            },
        );
    }
    let i = installation.unwrap();
    let c = catalog.unwrap();
    proof {
        reveal_strlit("active");
        reveal_strlit("selected");
    }
    if !(text_eq(i.web_origin.as_str(), c.web_origin.as_str()) && text_eq(
        i.api_origin.as_str(),
        c.api_origin.as_str(),
    ) && text_eq(r.repository.owner.as_str(), c.owner.as_str()) && text_eq(
        r.repository.name.as_str(),
        c.name.as_str(),
    ) && text_eq(r.repository.default_branch.as_str(), c.default_branch.as_str()) && text_eq(
        r.repository.visibility.as_str(),
        c.visibility.as_str(),
    )) {
        return Err(ControlPlaneError::IdempotencyConflict);
    }
    let insert_repository = match &repository {
        Some(x) => {
            if !same_repository_exec(x, &r.repository) {
                return Err(ControlPlaneError::IdempotencyConflict);
            }
            false
        },
        None => {
            to_i64(r.repository.created_unix_ms, "repository creation")?;
            true
        },
    };
    match link {
        Some(l) => {
            if !(text_eq(l.tenant_id.as_str(), r.tenant_id.as_str()) && text_eq(
                l.installation_id.as_str(),
                r.installation_id.as_str(),
            ) && text_eq(l.external_repository_id.as_str(), r.external_repository_id.as_str())
                && text_eq(l.clone_url.as_str(), c.clone_url.as_str()) && !text_eq(
                l.status.as_str(),
                "revoked",
            )) {
                return Err(ControlPlaneError::IdempotencyConflict);
            }
            if text_eq(l.status.as_str(), "active") {
                return Ok(LinkPlan::Replay(l));
            }
            to_i64(r.now_unix_ms, "GitHub link reactivation")?;
            if text_eq(l.status.as_str(), "suspended") {
                Ok(
                    LinkPlan::Reactivate(
                        ScmRepositoryLinkRecord {
                            status: String::from_str("active"),
                            updated_unix_ms: r.now_unix_ms,
                            ..l
                        },
                    ),
                )
            } else {
                Ok(LinkPlan::Reactivate(l))
            }
        },
        None => {
            if taken {
                return Err(ControlPlaneError::IdempotencyConflict);
            }
            to_i64(r.now_unix_ms, "GitHub link")?;
            Ok(
                LinkPlan::Create {
                    insert_repository,
                    link: ScmRepositoryLinkRecord {
                        repository_id: r.repository.id.clone(),
                        tenant_id: r.tenant_id.clone(),
                        installation_id: r.installation_id.clone(),
                        external_repository_id: r.external_repository_id.clone(),
                        clone_url: c.clone_url.clone(),
                        status: String::from_str("active"),
                        created_unix_ms: r.now_unix_ms,
                        updated_unix_ms: r.now_unix_ms,
                    },
                },
            )
        },
    }
}

/// What validating a suspension request decides: its texts in turn.
pub open spec fn link_suspension_check(tenant: Seq<u8>, repository: Seq<u8>, actor: Seq<u8>, request: Seq<u8>) -> Result<
    (),
    ControlPlaneError,
> {
    then_check(scm_text_check("GitHub repository link tenant", tenant),
    then_check(scm_text_check("GitHub repository link repository", repository),
    then_check(scm_text_check("GitHub repository link actor", actor),
    scm_text_check("GitHub repository link request", request))))
}

/// Validates a suspension request before anything is read.
pub fn validate_link_suspension(tenant: &str, repository: &str, actor: &str, request: &str) -> (res:
    Result<(), ControlPlaneError>)
    ensures
        res == link_suspension_check(
            tenant.spec_bytes(),
            repository.spec_bytes(),
            actor.spec_bytes(),
            request.spec_bytes(),
        ),
{
    validate_text("GitHub repository link tenant", tenant)?;
    validate_text("GitHub repository link repository", repository)?;
    validate_text("GitHub repository link actor", actor)?;
    validate_text("GitHub repository link request", request)
}

/// How suspending the stored link `l` for `tenant` at `now` decides: a link
/// of another tenant is not found, a suspended one replays, only an active
/// one is suspended.
pub enum SuspensionStep {
    NotFound,
    Replay,
    Conflict,
    Suspend,
}

pub open spec fn link_suspension(l: ScmRepositoryLinkRecord, tenant: Seq<char>) -> SuspensionStep {
    if l.tenant_id@ != tenant {
        SuspensionStep::NotFound
    } else if l.status@ == "suspended"@ {
        SuspensionStep::Replay
    } else if l.status@ != "active"@ {
        SuspensionStep::Conflict
    } else {
        SuspensionStep::Suspend
    }
}

/// Suspends an active repository link.
pub fn suspend_link(l: ScmRepositoryLinkRecord, tenant: &str, repository: &str, now: u64) -> (res: Result<
    IdempotentResult<ScmRepositoryLinkRecord>,
    ControlPlaneError,
>)
    ensures
        match link_suspension(l, tenant@) {
            SuspensionStep::NotFound => res matches Err(ControlPlaneError::NotFound { kind, id }) && kind
                == "GitHub repository link" && id@ == repository@,
            SuspensionStep::Replay => res == Ok::<IdempotentResult<ScmRepositoryLinkRecord>, ControlPlaneError>(
                IdempotentResult { value: l, replayed: true },
            ),
            SuspensionStep::Conflict => res == Err::<IdempotentResult<ScmRepositoryLinkRecord>, ControlPlaneError>(
                ControlPlaneError::IdempotencyConflict,
            ),
            SuspensionStep::Suspend => if now > i64::MAX {
                res == Err::<IdempotentResult<ScmRepositoryLinkRecord>, ControlPlaneError>(
                    ControlPlaneError::IntegerRange { field: "GitHub link suspension" },
                )
            } else {
                res matches Ok(v) && !v.replayed && v.value == (ScmRepositoryLinkRecord {
                    status: v.value.status,
                    updated_unix_ms: now,
                    ..l
                }) && v.value.status@ == "suspended"@
            },
        },
{
    if !text_eq(l.tenant_id.as_str(), tenant) {
        return Err(
            ControlPlaneError::NotFound { kind: "GitHub repository link", id: String::from_str(repository) },
        );
    }
    if text_eq(l.status.as_str(), "suspended") {
        return Ok(IdempotentResult { value: l, replayed: true });
    }
    if !text_eq(l.status.as_str(), "active") {
        return Err(ControlPlaneError::IdempotencyConflict);
    }
    to_i64(now, "GitHub link suspension")?;
    let value = ScmRepositoryLinkRecord {
        status: String::from_str("suspended"),
        updated_unix_ms: now,
        ..l
    };
    Ok(IdempotentResult { value, replayed: false })
}

/// A link request, once carried out, replays: with its repository and link
/// stored, the same request finds the link active and writes nothing. A
/// suspended link is brought back by the next request.
pub proof fn law_link_request_replays(
    r: LinkSelectedGitHubRepository,
    installation: Option<GitHubInstallationRecord>,
    catalog: Option<GitHubRepositoryCatalogRecord>,
    repository: Option<RepositoryRecord>,
    link: Option<ScmRepositoryLinkRecord>,
    taken: bool,
    written: ScmRepositoryLinkRecord,
    again: bool,
)
    requires
        link_decision(r, installation, catalog, repository, link, taken) matches Ok(step) && (
        step is Create || step is Reactivate),
        link_decision(r, installation, catalog, repository, link, taken) matches Ok(LinkStep::Create { .. }) ==> written == created_link(
            r,
            catalog.unwrap().clone_url,
            written.status,
        ),
        link_decision(r, installation, catalog, repository, link, taken) matches Ok(LinkStep::Reactivate) ==> written == (
        ScmRepositoryLinkRecord {
            status: written.status,
            updated_unix_ms: r.now_unix_ms,
            ..link.unwrap()
        }),
        written.status@ == "active"@,
    ensures
        link_decision(r, installation, catalog, Some(r.repository), Some(written), again) == Ok::<LinkStep, ControlPlaneError>(
            LinkStep::Replay,
        ),
{
    reveal_strlit("active");
    reveal_strlit("revoked");
    assert("active"@[0] != "revoked"@[0]);
    assert(written.status@ != "revoked"@);
}

} // verus!
