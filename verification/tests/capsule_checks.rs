use runtrue_persistence::capsules::{
    approval_decision_operation, capsule_operation, check_capsule_approval_gates,
    check_capsule_content, check_capsule_metadata, check_frontend_report,
};
use runtrue_persistence::digest::content_digest_sha256;
use runtrue_persistence::error::ControlPlaneError;
use runtrue_persistence::states::ApprovalKind;

#[test]
fn capsule_content_must_hash_to_its_digest() {
    let bytes = br#"{"jobs":[]}"#;
    let digest = content_digest_sha256(bytes);
    assert_eq!(check_capsule_content(bytes, &digest, &digest), Ok(()));
    let other = content_digest_sha256(b"other");
    assert_eq!(
        check_capsule_content(bytes, &other, &other),
        Err(ControlPlaneError::CapsuleDigestMismatch { expected: other.clone(), actual: digest.clone() })
    );
    assert_eq!(
        check_capsule_content(bytes, &digest, &other),
        Err(ControlPlaneError::CapsuleDigestMismatch { expected: digest.clone(), actual: digest })
    );
}

#[test]
fn capsule_metadata_and_gates() {
    assert_eq!(check_capsule_metadata("c", "c", 100), Ok(()));
    let bad = Err(ControlPlaneError::InvalidInput("capsule API metadata does not match the signed capsule"));
    assert_eq!(check_capsule_metadata("c", "c", 101), bad);
    assert_eq!(check_capsule_metadata("c", "d", 1), bad);
    let gates = Err(ControlPlaneError::InvalidInput("capsule approval requests do not match its independent gates"));
    assert_eq!(check_capsule_approval_gates(&vec![], false, false), Ok(()));
    assert_eq!(
        check_capsule_approval_gates(
            &vec![ApprovalKind::PrivilegedExecution, ApprovalKind::WorkflowDefinition],
            true,
            true
        ),
        Ok(())
    );
    assert_eq!(check_capsule_approval_gates(&vec![ApprovalKind::WorkflowDefinition], false, true), gates);
    assert_eq!(
        check_capsule_approval_gates(
            &vec![ApprovalKind::WorkflowDefinition, ApprovalKind::WorkflowDefinition],
            true,
            false
        ),
        gates
    );
    assert_eq!(
        check_capsule_approval_gates(&vec![ApprovalKind::WorkflowDefinition, ApprovalKind::BreakGlass], true, false),
        gates
    );
    assert_eq!(capsule_operation("repo"), "capsule.create:repo");
    assert_eq!(approval_decision_operation("a-1"), "approval.decide:a-1");
}

#[test]
fn frontend_reports_match_their_provenance() {
    let report = b"{\"diagnostics\":[]}";
    let signed = Some(content_digest_sha256(report));
    assert_eq!(
        check_frontend_report(&signed, report, "application/json"),
        Ok(())
    );
    let bad = Err(ControlPlaneError::InvalidInput(
        "workflow frontend report does not match its signed capsule provenance",
    ));
    assert_eq!(check_frontend_report(&None, report, "application/json"), bad);
    assert_eq!(
        check_frontend_report(&signed, b"other", "application/json"),
        bad
    );
    assert_eq!(check_frontend_report(&signed, report, "json"), bad);
    assert_eq!(
        check_frontend_report(&signed, report, "application/json, text/plain"),
        bad
    );
    assert_eq!(check_frontend_report(&signed, report, "*/*"), bad);
}
