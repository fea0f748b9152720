//! OIDC grants of runner steps: a grant authorizes token issuance only while
//! the lease it was issued for is live and still fenced as it was, and each
//! issuance is recorded with a future expiry.

use crate::config::{text_value_check, validate_text_value};
use crate::digest::ContentDigest;
use crate::error::ControlPlaneError;
use crate::scm::text_eq;
use vstd::prelude::*;
use vstd::string::StringSliceAdditionalSpecFns;

verus! {

/// What authorization reads of an OIDC grant.
#[derive(Debug, Clone, PartialEq, Eq)]
pub struct OidcGrantBinding {
    pub grant_id: String,
    pub execution_lease_id: String,
    pub fencing_generation: u64,
    pub job_id: String,
    pub step_id: String,
    pub capsule_digest: ContentDigest,
    pub expires_unix_seconds: u64,
}

/// The lease a grant names, as stored.
#[derive(Debug, Clone, PartialEq, Eq)]
pub struct LeaseRowFacts {
    pub job_id: String,
    pub fencing_generation: i64,
    pub installation_fencing_epoch: i64,
    pub capsule_digest: String,
    pub state: String,
    pub expires_unix_ms: i64,
    pub hard_deadline_unix_ms: i64,
}

/// How authorizing the grant `g` for the lease `lease_id` at fence `fence`
/// and installation epoch `epoch`, for step `step_id` of job `job_id`, at
/// `now`, decides over the stored lease `row`. The checks run in order; a
/// negative stored number is corrupt state, met only when the checks reach it.
pub open spec fn grant_authorization(
    g: OidcGrantBinding,
    lease_id: Seq<char>,
    fence: u64,
    epoch: u64,
    job_id: Seq<char>,
    step_id: Seq<char>,
    row: LeaseRowFacts,
    now: u64,
) -> Result<(), ControlPlaneError> {
    if g.execution_lease_id@ != lease_id || g.fencing_generation != fence || g.job_id@ != job_id
        || g.step_id@ != step_id || row.job_id@ != job_id {
        Err(ControlPlaneError::StaleOidcGrant)
    } else if row.fencing_generation < 0 {
        Err(ControlPlaneError::CorruptState("negative lease generation"))
    } else if row.fencing_generation != fence {
        Err(ControlPlaneError::StaleOidcGrant)
    } else if row.installation_fencing_epoch < 0 {
        Err(ControlPlaneError::CorruptState("negative installation epoch"))
    } else if row.installation_fencing_epoch != epoch || row.capsule_digest@ != g.capsule_digest@
        || row.state@ != "active"@ {
        Err(ControlPlaneError::StaleOidcGrant)
    } else if row.expires_unix_ms < 0 {
        Err(ControlPlaneError::CorruptState("negative lease expiry"))
    } else if now >= row.expires_unix_ms {
        Err(ControlPlaneError::StaleOidcGrant)
    } else if row.hard_deadline_unix_ms < 0 {
        Err(ControlPlaneError::CorruptState("negative lease deadline"))
    } else if now >= row.hard_deadline_unix_ms || now / 1000 >= g.expires_unix_seconds {
        Err(ControlPlaneError::StaleOidcGrant)
    } else {
        Ok(())
    }
}

/// Checks that a grant still matches the live lease it was issued for.
pub fn authorize_grant_binding(
    g: &OidcGrantBinding,
    lease_id: &str,
    fence: u64,
    epoch: u64,
    job_id: &str,
    step_id: &str,
    row: &LeaseRowFacts,
    now: u64,
) -> (res: Result<(), ControlPlaneError>)
    ensures
        res == grant_authorization(*g, lease_id@, fence, epoch, job_id@, step_id@, *row, now),
{
    if !text_eq(g.execution_lease_id.as_str(), lease_id) || g.fencing_generation != fence || !text_eq(
        g.job_id.as_str(),
        job_id,
    ) || !text_eq(g.step_id.as_str(), step_id) || !text_eq(row.job_id.as_str(), job_id) {
        return Err(ControlPlaneError::StaleOidcGrant);
    }
    if row.fencing_generation < 0 {
        return Err(ControlPlaneError::CorruptState("negative lease generation"));
    }
    if row.fencing_generation as u64 != fence {
        return Err(ControlPlaneError::StaleOidcGrant);
    }
    if row.installation_fencing_epoch < 0 {
        return Err(ControlPlaneError::CorruptState("negative installation epoch"));
    }
    proof {
        reveal_strlit("active");
    }
    if row.installation_fencing_epoch as u64 != epoch || !text_eq(
        row.capsule_digest.as_str(),
        g.capsule_digest.text.as_str(),
    ) || !text_eq(row.state.as_str(), "active") {
        return Err(ControlPlaneError::StaleOidcGrant);
    }
    if row.expires_unix_ms < 0 {
        return Err(ControlPlaneError::CorruptState("negative lease expiry"));
    }
    if now >= row.expires_unix_ms as u64 {
        return Err(ControlPlaneError::StaleOidcGrant);
    }
    if row.hard_deadline_unix_ms < 0 {
        return Err(ControlPlaneError::CorruptState("negative lease deadline"));
    }
    if now >= row.hard_deadline_unix_ms as u64 || now / 1000 >= g.expires_unix_seconds {
        return Err(ControlPlaneError::StaleOidcGrant);
    }
    Ok(())
}

/// A grant never authorizes past its lease: whenever authorization passes,
/// the lease is active, unexpired and fenced as the grant says, and the
/// grant itself has not expired.
pub proof fn law_grant_bounded_by_lease(
    g: OidcGrantBinding,
    lease_id: Seq<char>,
    fence: u64,
    epoch: u64,
    job_id: Seq<char>,
    step_id: Seq<char>,
    row: LeaseRowFacts,
    now: u64,
)
    requires
        grant_authorization(g, lease_id, fence, epoch, job_id, step_id, row, now) is Ok,
    ensures
        row.state@ == "active"@,
        now < row.expires_unix_ms && now < row.hard_deadline_unix_ms,
        row.fencing_generation == g.fencing_generation,
        now / 1000 < g.expires_unix_seconds,
{
}

pub const MSG_GRANT_BOUND: &'static str = "OIDC grant exceeds its bound";

/// A stored grant's JSON is at most 1 MiB.
pub fn check_grant_size(encoded_len: usize) -> (res: Result<(), ControlPlaneError>)
    ensures
        res == if encoded_len > 1048576 {
            Err(ControlPlaneError::InvalidInput(MSG_GRANT_BOUND))
        } else {
            Ok::<(), ControlPlaneError>(())
        },
{
    if encoded_len > 1048576 {
        return Err(ControlPlaneError::InvalidInput(MSG_GRANT_BOUND));
    }
    Ok(())
}

pub const MSG_ISSUANCE_EXPIRY: &'static str = "OIDC issuance expiry must be in the future";

/// What validating an issuance record decides: its texts in turn, an expiry
/// after the issue time, and times that fit the database.
pub open spec fn issuance_check(grant: Seq<u8>, audience: Seq<u8>, jti: Seq<u8>, issued: u64, expires: u64) -> Result<
    (),
    ControlPlaneError,
> {
    if text_value_check(grant) is Err {
        text_value_check(grant)
    } else if text_value_check(audience) is Err {
        text_value_check(audience)
    } else if text_value_check(jti) is Err {
        text_value_check(jti)
    } else if expires <= issued {
        Err(ControlPlaneError::InvalidInput(MSG_ISSUANCE_EXPIRY))
    } else if issued > i64::MAX {
        Err(ControlPlaneError::IntegerRange { field: "OIDC issue" })
    } else if expires > i64::MAX {
        Err(ControlPlaneError::IntegerRange { field: "OIDC expiry" })
    } else {
        Ok(())
    }
}

/// Validates an OIDC token issuance before it is recorded.
pub fn validate_issuance(grant: &str, audience: &str, jti: &str, issued: u64, expires: u64) -> (res: Result<
    (),
    ControlPlaneError,
>)
    ensures
        res == issuance_check(grant.spec_bytes(), audience.spec_bytes(), jti.spec_bytes(), issued, expires),
{
    validate_text_value(grant)?;
    validate_text_value(audience)?;
    validate_text_value(jti)?;
    if expires <= issued {
        return Err(ControlPlaneError::InvalidInput(MSG_ISSUANCE_EXPIRY));
    }
    if issued > 0x7fff_ffff_ffff_ffffu64 {
        return Err(ControlPlaneError::IntegerRange { field: "OIDC issue" });
    }
    if expires > 0x7fff_ffff_ffff_ffffu64 {
        return Err(ControlPlaneError::IntegerRange { field: "OIDC expiry" });
    }
    Ok(())
}

} // verus!
