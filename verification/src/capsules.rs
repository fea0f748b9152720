//! Compiled capsules: the checks a signed capsule and its API metadata pass
//! before they are stored, over the capsule's bytes and its approval gates.

use crate::digest::{content_digest_sha256, digest_eq, sha256_text, ContentDigest};
use crate::error::ControlPlaneError;
use crate::scm::text_eq;
use crate::states::ApprovalKind;
use vstd::prelude::*;
use vstd::string::{StringExecFns, StringSliceAdditionalSpecFns};

verus! {

/// Checks that a capsule's canonical bytes hash to its digest, and that its
/// signature signs that digest.
pub fn check_capsule_content(canonical: &[u8], digest: &ContentDigest, signed_digest: &ContentDigest) -> (res:
    Result<(), ControlPlaneError>)
    ensures
        sha256_text(canonical@) == digest@ && signed_digest@ == digest@ ==> res == Ok::<
            (),
            ControlPlaneError,
        >(()),
        !(sha256_text(canonical@) == digest@ && signed_digest@ == digest@) ==> (res matches Err(
            ControlPlaneError::CapsuleDigestMismatch { expected, actual },
        ) && expected == *digest && actual@ == sha256_text(canonical@)),
{
    let actual = content_digest_sha256(canonical);
    if !digest_eq(&actual, digest) || !digest_eq(signed_digest, digest) {
        return Err(ControlPlaneError::CapsuleDigestMismatch { expected: digest.duplicate(), actual });
    }
    Ok(())
}

pub const MSG_CAPSULE_METADATA: &'static str = "capsule API metadata does not match the signed capsule";

/// The most a capsule's risk score may be.
pub const MAX_RISK_SCORE: u32 = 100;

/// Checks that API metadata describes the capsule it is stored with, with a
/// risk score of at most 100.
pub fn check_capsule_metadata(capsule_id: &str, metadata_capsule_id: &str, risk_score: u32) -> (res:
    Result<(), ControlPlaneError>)
    ensures
        res == if metadata_capsule_id@ != capsule_id@ || risk_score > MAX_RISK_SCORE {
            Err(ControlPlaneError::InvalidInput(MSG_CAPSULE_METADATA))
        } else {
            Ok::<(), ControlPlaneError>(())
        },
{
    if !text_eq(metadata_capsule_id, capsule_id) || risk_score > MAX_RISK_SCORE {
        return Err(ControlPlaneError::InvalidInput(MSG_CAPSULE_METADATA));
    }
    Ok(())
}

/// How many of `kinds` are `kind`.
pub open spec fn count_kind(kinds: Seq<ApprovalKind>, kind: ApprovalKind) -> nat
    decreases kinds.len(),
{
    if kinds.len() == 0 {
        0
    } else {
        count_kind(kinds.drop_last(), kind) + if kinds.last() == kind {
            1nat
        } else {
            0nat
        }
    }
}

pub open spec fn gate_count(gate: bool) -> nat {
    if gate {
        1
    } else {
        0
    }
}

pub const MSG_CAPSULE_GATES: &'static str = "capsule approval requests do not match its independent gates";

/// Checks that a capsule comes with exactly one approval request for each
/// gate it has (workflow definition, privileged execution) and no other.
pub fn check_capsule_approval_gates(kinds: &Vec<ApprovalKind>, workflow_gate: bool, privileged_gate: bool) -> (res:
    Result<(), ControlPlaneError>)
    ensures
        res == if count_kind(kinds@, ApprovalKind::WorkflowDefinition) == gate_count(workflow_gate)
            && count_kind(kinds@, ApprovalKind::PrivilegedExecution) == gate_count(privileged_gate)
            && kinds@.len() == gate_count(workflow_gate) + gate_count(privileged_gate) {
            Ok::<(), ControlPlaneError>(())
        } else {
            Err(ControlPlaneError::InvalidInput(MSG_CAPSULE_GATES))
        },
{
    let mut workflow: usize = 0;
    let mut privileged: usize = 0;
    let mut i: usize = 0;
    while i < kinds.len()
        invariant
            0 <= i <= kinds@.len(),
            workflow == count_kind(kinds@.take(i as int), ApprovalKind::WorkflowDefinition),
            privileged == count_kind(kinds@.take(i as int), ApprovalKind::PrivilegedExecution),
            workflow <= i,
            privileged <= i,
        decreases kinds@.len() - i,
    {
        assert(kinds@.take(i + 1).drop_last() =~= kinds@.take(i as int));
        if kinds[i] == ApprovalKind::WorkflowDefinition {
            workflow += 1;
        } else if kinds[i] == ApprovalKind::PrivilegedExecution {
            privileged += 1;
        }
        i += 1;
    }
    assert(kinds@.take(kinds@.len() as int) =~= kinds@);
    let expected_workflow: usize = if workflow_gate {
        1
    } else {
        0
    };
    let expected_privileged: usize = if privileged_gate {
        1
    } else {
        0
    };
    if workflow != expected_workflow || privileged != expected_privileged || kinds.len()
        != expected_workflow + expected_privileged {
        return Err(ControlPlaneError::InvalidInput(MSG_CAPSULE_GATES));
    }
    Ok(())
}

/// The idempotency scope of storing a capsule: `capsule.create:` and its
/// repository.
pub fn capsule_operation(repository_id: &str) -> (res: String)
    ensures
        res@ == "capsule.create:"@ + repository_id@,
{
    let mut out = String::from_str("capsule.create:");
    out.append(repository_id);
    out
}

/// The idempotency scope of deciding an approval: `approval.decide:` and its id.
pub fn approval_decision_operation(approval_id: &str) -> (res: String)
    ensures
        res@ == "approval.decide:"@ + approval_id@,
{
    let mut out = String::from_str("approval.decide:");
    out.append(approval_id);
    out
}

pub const MSG_FRONTEND_REPORT: &'static str = "workflow frontend report does not match its signed capsule provenance";

/// A media type: 1 to 255 bytes with a `/`, and no whitespace, `*` or `,`.
pub open spec fn media_type_ok(b: Seq<u8>) -> bool {
    &&& 0 < b.len() <= 255
    &&& b.contains(47u8)
    &&& forall|i: int|
        0 <= i < b.len() ==> !(crate::bytes::is_ascii_whitespace(#[trigger] b[i]) || b[i] == 42u8
            || b[i] == 44u8)
}

fn media_type_valid(m: &[u8]) -> (res: bool)
    ensures
        res == media_type_ok(m@),
{
    if m.len() == 0 || m.len() > 255 || !crate::bytes::contains_byte(m, 47u8) {
        return false;
    }
    let mut i: usize = 0;
    while i < m.len()
        invariant
            0 <= i <= m@.len(),
            forall|j: int|
                0 <= j < i ==> !(crate::bytes::is_ascii_whitespace(#[trigger] m@[j]) || m@[j] == 42u8
                    || m@[j] == 44u8),
        decreases m@.len() - i,
    {
        let c = m[i];
        if c == 32 || c == 9 || c == 10 || c == 12 || c == 13 || c == 42 || c == 44 {
            assert(crate::bytes::is_ascii_whitespace(m@[i as int]) || m@[i as int] == 42u8 || m@[i as int] == 44u8);
            return false;
        }
        i += 1;
    }
    true
}

/// Checks a workflow frontend report against the report digest its signed
/// capsule names: the bytes hash to it, are at most 1 MiB, and come with a
/// plain media type.
pub fn check_frontend_report(signed: &Option<ContentDigest>, bytes: &[u8], media_type: &str) -> (res: Result<
    (),
    ControlPlaneError,
>)
    ensures
        res == if (signed matches Some(d) && d@ == sha256_text(bytes@)) && bytes@.len() <= 1048576
            && media_type_ok(media_type.spec_bytes()) {
            Ok::<(), ControlPlaneError>(())
        } else {
            Err(ControlPlaneError::InvalidInput(MSG_FRONTEND_REPORT))
        },
{
    let actual = content_digest_sha256(bytes);
    let matches = match signed {
        Some(d) => digest_eq(d, &actual),
        None => false,
    };
    if !matches || bytes.len() > 1048576 || !media_type_valid(media_type.as_bytes()) {
        return Err(ControlPlaneError::InvalidInput(MSG_FRONTEND_REPORT));
    }
    Ok(())
}

} // verus!
