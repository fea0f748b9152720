use runtrue_persistence::digest::content_digest_sha256;
use runtrue_persistence::error::ControlPlaneError;
use runtrue_persistence::oidc::{
    authorize_grant_binding, check_grant_size, validate_issuance, LeaseRowFacts, OidcGrantBinding,
};

fn grant() -> OidcGrantBinding {
    OidcGrantBinding {
        grant_id: "grant".into(),
        execution_lease_id: "lease".into(),
        fencing_generation: 3,
        job_id: "job".into(),
        step_id: "step".into(),
        capsule_digest: content_digest_sha256(b"capsule"),
        expires_unix_seconds: 100,
    }
}

fn row() -> LeaseRowFacts {
    LeaseRowFacts {
        job_id: "job".into(),
        fencing_generation: 3,
        installation_fencing_epoch: 7,
        capsule_digest: content_digest_sha256(b"capsule").text,
        state: "active".into(),
        expires_unix_ms: 90_000,
        hard_deadline_unix_ms: 95_000,
    }
}

#[test]
fn grants_follow_their_lease() {
    let g = grant();
    assert_eq!(authorize_grant_binding(&g, "lease", 3, 7, "job", "step", &row(), 50_000), Ok(()));
    let stale = Err(ControlPlaneError::StaleOidcGrant);
    assert_eq!(authorize_grant_binding(&g, "lease", 4, 7, "job", "step", &row(), 50_000), stale);
    assert_eq!(authorize_grant_binding(&g, "lease", 3, 8, "job", "step", &row(), 50_000), stale);
    assert_eq!(authorize_grant_binding(&g, "other", 3, 7, "job", "step", &row(), 50_000), stale);
    assert_eq!(authorize_grant_binding(&g, "lease", 3, 7, "job", "other", &row(), 50_000), stale);
    assert_eq!(authorize_grant_binding(&g, "lease", 3, 7, "job", "step", &row(), 90_000), stale);
    let mut revoked = row();
    revoked.state = "cancel_requested".into();
    assert_eq!(authorize_grant_binding(&g, "lease", 3, 7, "job", "step", &revoked, 50_000), stale);
    let mut early = grant();
    early.expires_unix_seconds = 50;
    assert_eq!(authorize_grant_binding(&early, "lease", 3, 7, "job", "step", &row(), 50_000), stale);
    let mut corrupt = row();
    corrupt.installation_fencing_epoch = -1;
    assert_eq!(
        authorize_grant_binding(&g, "lease", 3, 7, "job", "step", &corrupt, 50_000),
        Err(ControlPlaneError::CorruptState("negative installation epoch"))
    );
    assert_eq!(authorize_grant_binding(&g, "other", 3, 7, "job", "step", &corrupt, 50_000), stale);
}

#[test]
fn grants_and_issuances_are_bounded() {
    assert_eq!(check_grant_size(1024 * 1024), Ok(()));
    assert_eq!(
        check_grant_size(1024 * 1024 + 1),
        Err(ControlPlaneError::InvalidInput("OIDC grant exceeds its bound"))
    );
    assert_eq!(validate_issuance("grant", "aud", "jti", 1, 2), Ok(()));
    assert_eq!(
        validate_issuance("grant", "aud", "jti", 2, 2),
        Err(ControlPlaneError::InvalidInput("OIDC issuance expiry must be in the future"))
    );
    assert_eq!(
        validate_issuance("grant", "aud", "jti", 1, u64::MAX),
        Err(ControlPlaneError::IntegerRange { field: "OIDC expiry" })
    );
    assert_eq!(
        validate_issuance("", "aud", "jti", 1, 2),
        Err(ControlPlaneError::InvalidInput("empty, oversized, or NUL text"))
    );
}
