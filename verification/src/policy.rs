//! Versioned policy sources: the idempotent creation of the next version of
//! a policy, behind the `PolicyVersionStore` boundary, with a verified
//! in-memory store.

use crate::config::{idempotency_check, text_value_check, validate_idempotency, validate_text_value};
use crate::digest::{content_digest_sha256, digest_eq, sha256_text, ContentDigest};
use crate::error::ControlPlaneError;
use crate::json::{json_array3, json_array3_bytes};
use crate::runs::str_bytes;
use vstd::prelude::*;
use vstd::string::{StringExecFns, StringSliceAdditionalSpecFns};

verus! {

/// The result of an idempotent write: the value, and whether an earlier
/// identical request had already produced it.
#[derive(Debug, Clone, PartialEq, Eq)]
pub struct IdempotentResult<T> {
    pub value: T,
    pub replayed: bool,
}

/// One version of a policy's source.
#[derive(Debug, Clone, PartialEq, Eq)]
pub struct PolicyVersionRecord {
    pub id: String,
    pub policy_id: String,
    pub version: u64,
    pub source: String,
    pub mode: String,
    pub digest: ContentDigest,
    pub created_unix_ms: u64,
}

/// The hash that identifies a policy version request: the SHA-256 digest of
/// the JSON array of its policy id, source and mode.
pub open spec fn policy_request_hash(r: PolicyVersionRecord) -> Seq<char> {
    sha256_text(json_array3(r.policy_id@, r.source@, r.mode@))
}

/// Hashes a policy version request.
pub fn policy_request_digest(r: &PolicyVersionRecord) -> (res: ContentDigest)
    ensures
        res@ == policy_request_hash(*r),
{
    let json = json_array3_bytes(r.policy_id.as_str(), r.source.as_str(), r.mode.as_str());
    content_digest_sha256(json.as_slice())
}

pub const MSG_POLICY_VERSION: &'static str = "policy version or mode is invalid";

pub const MSG_POLICY_NOT_NEXT: &'static str = "policy version is not the next durable version";

pub const FIELD_POLICY_VERSION: &'static str = "policy version";

pub const FIELD_POLICY_CREATION: &'static str = "policy version creation";

pub open spec fn policy_mode_known(b: Seq<u8>) -> bool {
    b == "draft".spec_bytes() || b == "shadow".spec_bytes() || b == "enforce".spec_bytes()
}

/// The checks of a policy version request before its digest is checked:
/// the idempotency key, the text fields, a positive version and a known mode.
pub open spec fn policy_version_check(key: Seq<u8>, r: PolicyVersionRecord) -> Result<(), ControlPlaneError> {
    match idempotency_check(key) {
        Err(e) => Err(e),
        Ok(()) => match text_value_check(str_bytes(r.id)) {
            Err(e) => Err(e),
            Ok(()) => match text_value_check(str_bytes(r.policy_id)) {
                Err(e) => Err(e),
                Ok(()) => match text_value_check(str_bytes(r.source)) {
                    Err(e) => Err(e),
                    Ok(()) => match text_value_check(str_bytes(r.mode)) {
                        Err(e) => Err(e),
                        Ok(()) => if r.version == 0 || !policy_mode_known(str_bytes(r.mode)) {
                            Err(ControlPlaneError::InvalidInput(MSG_POLICY_VERSION))
                        } else {
                            Ok(())
                        },
                    },
                },
            },
        },
    }
}

/// Whether a policy version's digest is the SHA-256 digest of its source.
pub open spec fn policy_digest_ok(r: PolicyVersionRecord) -> bool {
    r.digest@ == sha256_text(str_bytes(r.source))
}

/// The refusal of a request whose digest does not match its source: the
/// submitted digest, and the digest of the source.
pub open spec fn is_digest_mismatch(res: ControlPlaneError, r: PolicyVersionRecord) -> bool {
    res matches ControlPlaneError::CapsuleDigestMismatch { expected, actual } && expected == r.digest
        && actual@ == sha256_text(str_bytes(r.source))
}

fn policy_mode_known_exec(mode: &str) -> (res: bool)
    ensures
        res == policy_mode_known(mode.spec_bytes()),
{
    crate::bytes::str_is(mode, "draft") || crate::bytes::str_is(mode, "shadow") || crate::bytes::str_is(mode, "enforce")
}

/// Checks a policy version request before any state is read.
pub fn validate_policy_version(key: &str, r: &PolicyVersionRecord) -> (res: Result<(), ControlPlaneError>)
    ensures
        match policy_version_check(key.spec_bytes(), *r) {
            Err(e) => res == Err::<(), ControlPlaneError>(e),
            Ok(()) => if policy_digest_ok(*r) {
                res is Ok
            } else {
                res matches Err(e) && is_digest_mismatch(e, *r)
            },
        },
{
    validate_idempotency(key)?;
    validate_text_value(r.id.as_str())?;
    validate_text_value(r.policy_id.as_str())?;
    validate_text_value(r.source.as_str())?;
    validate_text_value(r.mode.as_str())?;
    if r.version == 0 || !policy_mode_known_exec(r.mode.as_str()) {
        return Err(ControlPlaneError::InvalidInput(MSG_POLICY_VERSION));
    }
    let actual = content_digest_sha256(r.source.as_str().as_bytes());
    if !digest_eq(&actual, &r.digest) {
        return Err(ControlPlaneError::CapsuleDigestMismatch { expected: r.digest.duplicate(), actual });
    }
    Ok(())
}

/// A stored idempotency key: the operation and key it was used for, the
/// hash of the request, and the record the request produced.
#[derive(Debug, Clone, PartialEq, Eq)]
pub struct IdempotencyEntry {
    pub operation: String,
    pub key: String,
    pub request_hash: ContentDigest,
    pub resource_id: String,
}

/// The state of a policy version store: its versions and idempotency keys,
/// oldest first.
pub struct PolicyStoreView {
    pub versions: Seq<PolicyVersionRecord>,
    pub idempotency: Seq<IdempotencyEntry>,
}

/// The idempotency operation of creating a version of `policy`.
pub open spec fn policy_operation(policy: Seq<char>) -> Seq<char> {
    "policy.version.create:"@ + policy
}

/// The first idempotency entry of the operation `op` and key `key`.
pub open spec fn find_entry(s: Seq<IdempotencyEntry>, op: Seq<char>, key: Seq<char>) -> Option<int>
    decreases s.len(),
{
    if s.len() == 0 {
        None
    } else {
        match find_entry(s.drop_last(), op, key) {
            Some(i) => Some(i),
            None => if s.last().operation@ == op && s.last().key@ == key {
                Some(s.len() - 1)
            } else {
                None
            },
        }
    }
}

/// The first stored version with the id `id`.
pub open spec fn find_version(s: Seq<PolicyVersionRecord>, id: Seq<char>) -> Option<int>
    decreases s.len(),
{
    if s.len() == 0 {
        None
    } else {
        match find_version(s.drop_last(), id) {
            Some(i) => Some(i),
            None => if s.last().id@ == id {
                Some(s.len() - 1)
            } else {
                None
            },
        }
    }
}

/// The highest stored version of `policy`, 0 when it has none.
pub open spec fn max_version(s: Seq<PolicyVersionRecord>, policy: Seq<char>) -> nat
    decreases s.len(),
{
    if s.len() == 0 {
        0
    } else {
        let m = max_version(s.drop_last(), policy);
        if s.last().policy_id@ == policy && s.last().version > m {
            s.last().version as nat
        } else {
            m
        }
    }
}

/// The version number the next version of `policy` must have.
pub open spec fn next_version(s: Seq<PolicyVersionRecord>, policy: Seq<char>) -> nat {
    max_version(s, policy) + 1
}

/// What creating a policy version owes, from the state `s` to the state
/// `s2` it leaves: the request's refusal; for a key already used for this
/// policy, the stored version when the request is the same and a conflict
/// when it differs; otherwise the new version, which must be the next one.
pub open spec fn create_outcome(
    s: PolicyStoreView,
    key: Seq<char>,
    r: PolicyVersionRecord,
    s2: PolicyStoreView,
    res: Result<IdempotentResult<PolicyVersionRecord>, ControlPlaneError>,
) -> bool {
    match policy_version_check(vstd::utf8::encode_utf8(key), r) {
        Err(e) => res == Err::<IdempotentResult<PolicyVersionRecord>, ControlPlaneError>(e) && s2 == s,
        Ok(()) => if !policy_digest_ok(r) {
            res matches Err(e) && is_digest_mismatch(e, r) && s2 == s
        } else {
            let op = policy_operation(r.policy_id@);
            match find_entry(s.idempotency, op, key) {
                Some(i) => if s.idempotency[i].request_hash@ != policy_request_hash(r) {
                    res == Err::<IdempotentResult<PolicyVersionRecord>, ControlPlaneError>(
                        ControlPlaneError::IdempotencyConflict,
                    ) && s2 == s
                } else {
                    &&& find_version(s.versions, s.idempotency[i].resource_id@) is Some
                    &&& res matches Ok(v)
                    &&& v.replayed
                    &&& v.value == s.versions[find_version(
                        s.versions,
                        s.idempotency[i].resource_id@,
                    ).unwrap()]
                    &&& s2 == s
                },
                None => if next_version(s.versions, r.policy_id@) != r.version {
                    res == Err::<IdempotentResult<PolicyVersionRecord>, ControlPlaneError>(
                        ControlPlaneError::InvalidInput(MSG_POLICY_NOT_NEXT),
                    ) && s2 == s
                } else if r.version > i64::MAX {
                    res == Err::<IdempotentResult<PolicyVersionRecord>, ControlPlaneError>(
                        ControlPlaneError::IntegerRange { field: FIELD_POLICY_VERSION },
                    ) && s2 == s
                } else if r.created_unix_ms > i64::MAX {
                    res == Err::<IdempotentResult<PolicyVersionRecord>, ControlPlaneError>(
                        ControlPlaneError::IntegerRange { field: FIELD_POLICY_CREATION },
                    ) && s2 == s
                } else if find_version(s.versions, r.id@) is Some {
                    res == Err::<IdempotentResult<PolicyVersionRecord>, ControlPlaneError>(
                        ControlPlaneError::IdempotencyConflict,
                    ) && s2 == s
                } else {
                    &&& res matches Ok(v)
                    &&& !v.replayed
                    &&& v.value == r
                    &&& s2.versions == s.versions.push(r)
                    &&& s2.idempotency.len() == s.idempotency.len() + 1
                    &&& s2.idempotency.drop_last() == s.idempotency
                    &&& s2.idempotency.last().operation@ == op
                    &&& s2.idempotency.last().key@ == key
                    &&& s2.idempotency.last().request_hash@ == policy_request_hash(r)
                    &&& s2.idempotency.last().resource_id@ == r.id@
                },
            }
        },
    }
}

/// The idempotent creation of policy versions and the next version number,
/// over the versions and idempotency records a store holds.
pub trait PolicyVersionStore {
    /// The versions and idempotency records the store holds.
    spec fn policy_view(&self) -> PolicyStoreView;

    /// Stores the next version of a policy under an idempotency key, or
    /// returns the version an identical earlier request stored.
    fn create_policy_version(&mut self, idempotency_key: &str, record: &PolicyVersionRecord) -> (res: Result<
        IdempotentResult<PolicyVersionRecord>,
        ControlPlaneError,
    >)
        ensures
            create_outcome(old(self).policy_view(), idempotency_key@, *record, final(self).policy_view(), res),
    ;

    /// The version number the next version of the policy must have.
    fn next_policy_version_number(&self, policy_id: &str) -> (res: Result<u64, ControlPlaneError>)
        ensures
            match text_value_check(policy_id.spec_bytes()) {
                Err(e) => res == Err::<u64, ControlPlaneError>(e),
                Ok(()) => res matches Ok(n) && n == next_version(self.policy_view().versions, policy_id@),
            },
    ;
}

/// Policy versions and their idempotency keys held in memory.
pub struct MemoryPolicyStore {
    versions: Vec<PolicyVersionRecord>,
    idempotency: Vec<IdempotencyEntry>,
}

/// Idempotency keys are unique per operation and name a stored version;
/// version ids are unique; versions fit a PostgreSQL `BIGINT`.
pub open spec fn policy_state_wf(s: PolicyStoreView) -> bool {
    &&& forall|i: int, j: int|
        0 <= i < j < s.idempotency.len() ==> !((#[trigger] s.idempotency[i]).operation@
            == (#[trigger] s.idempotency[j]).operation@ && s.idempotency[i].key@
            == s.idempotency[j].key@)
    &&& forall|i: int|
        0 <= i < s.idempotency.len() ==> find_version(s.versions, (#[trigger] s.idempotency[i]).resource_id@) is Some
    &&& forall|i: int| 0 <= i < s.versions.len() ==> (#[trigger] s.versions[i]).version <= i64::MAX
}

impl View for MemoryPolicyStore {
    type V = PolicyStoreView;

    closed spec fn view(&self) -> PolicyStoreView {
        PolicyStoreView { versions: self.versions@, idempotency: self.idempotency@ }
    }
}

proof fn lemma_find_entry_push(s: Seq<IdempotencyEntry>, e: IdempotencyEntry, op: Seq<char>, key: Seq<char>)
    ensures
        find_entry(s.push(e), op, key) == (match find_entry(s, op, key) {
            Some(i) => Some(i),
            None => if e.operation@ == op && e.key@ == key {
                Some(s.len() as int)
            } else {
                None
            },
        }),
{
    assert(s.push(e).drop_last() =~= s);
}

proof fn lemma_find_version_push(s: Seq<PolicyVersionRecord>, r: PolicyVersionRecord, id: Seq<char>)
    ensures
        find_version(s.push(r), id) == (match find_version(s, id) {
            Some(i) => Some(i),
            None => if r.id@ == id {
                Some(s.len() as int)
            } else {
                None
            },
        }),
{
    assert(s.push(r).drop_last() =~= s);
}

proof fn lemma_max_version_push(s: Seq<PolicyVersionRecord>, r: PolicyVersionRecord, policy: Seq<char>)
    ensures
        max_version(s.push(r), policy) == (if r.policy_id@ == policy && r.version > max_version(s, policy) {
            r.version as nat
        } else {
            max_version(s, policy)
        }),
{
    assert(s.push(r).drop_last() =~= s);
}

proof fn lemma_find_entry_bound(s: Seq<IdempotencyEntry>, op: Seq<char>, key: Seq<char>)
    ensures
        find_entry(s, op, key) matches Some(i) ==> 0 <= i < s.len() && s[i].operation@ == op
            && s[i].key@ == key,
        find_entry(s, op, key) is None ==> forall|i: int|
            0 <= i < s.len() ==> !((#[trigger] s[i]).operation@ == op && s[i].key@ == key),
    decreases s.len(),
{
    if s.len() > 0 {
        lemma_find_entry_bound(s.drop_last(), op, key);
        assert forall|i: int| 0 <= i < s.len() - 1 implies s.drop_last()[i] == #[trigger] s[i] by {}
    }
}

proof fn lemma_find_version_bound(s: Seq<PolicyVersionRecord>, id: Seq<char>)
    ensures
        find_version(s, id) matches Some(i) ==> 0 <= i < s.len() && s[i].id@ == id,
        find_version(s, id) is None ==> forall|i: int| 0 <= i < s.len() ==> (#[trigger] s[i]).id@ != id,
    decreases s.len(),
{
    if s.len() > 0 {
        lemma_find_version_bound(s.drop_last(), id);
        assert forall|i: int| 0 <= i < s.len() - 1 implies s.drop_last()[i] == #[trigger] s[i] by {}
    }
}

fn clone_version(r: &PolicyVersionRecord) -> (res: PolicyVersionRecord)
    ensures
        res == *r,
{
    PolicyVersionRecord {
        id: r.id.clone(),
        policy_id: r.policy_id.clone(),
        version: r.version,
        source: r.source.clone(),
        mode: r.mode.clone(),
        digest: r.digest.duplicate(),
        created_unix_ms: r.created_unix_ms,
    }
}

impl MemoryPolicyStore {
    #[verifier::type_invariant]
    closed spec fn wf(self) -> bool {
        policy_state_wf(PolicyStoreView { versions: self.versions@, idempotency: self.idempotency@ })
    }

    /// A store without versions.
    pub fn new() -> (s: Self)
        ensures
            s@.versions.len() == 0,
            s@.idempotency.len() == 0,
    {
        MemoryPolicyStore { versions: Vec::new(), idempotency: Vec::new() }
    }

    fn find_entry_exec(&self, op: &String, key: &String) -> (res: Option<usize>)
        ensures
            match res {
                Some(i) => i < self.idempotency@.len() && find_entry(self.idempotency@, op@, key@)
                    == Some(i as int),
                None => find_entry(self.idempotency@, op@, key@) is None,
            },
    {
        let s = &self.idempotency;
        let mut i: usize = 0;
        while i < s.len()
            invariant
                0 <= i <= s@.len(),
                s@ == self.idempotency@,
                find_entry(s@.take(i as int), op@, key@) is None,
            decreases s@.len() - i,
        {
            proof {
                assert(s@.take(i + 1).drop_last() =~= s@.take(i as int));
            }
            if s[i].operation == *op && s[i].key == *key {
                proof {
                    assert(find_entry(s@.take(i + 1), op@, key@) == Some(i as int));
                    lemma_find_entry_extend(s@, op@, key@, (i + 1) as int);
                }
                return Some(i);
            }
            i += 1;
        }
        proof {
            assert(s@.take(i as int) =~= s@);
        }
        None
    }

    fn find_version_exec(&self, id: &String) -> (res: Option<usize>)
        ensures
            match res {
                Some(i) => i < self.versions@.len() && find_version(self.versions@, id@) == Some(
                    i as int,
                ),
                None => find_version(self.versions@, id@) is None,
            },
    {
        let s = &self.versions;
        let mut i: usize = 0;
        while i < s.len()
            invariant
                0 <= i <= s@.len(),
                s@ == self.versions@,
                find_version(s@.take(i as int), id@) is None,
            decreases s@.len() - i,
        {
            proof {
                assert(s@.take(i + 1).drop_last() =~= s@.take(i as int));
            }
            if s[i].id == *id {
                proof {
                    assert(find_version(s@.take(i + 1), id@) == Some(i as int));
                    lemma_find_version_extend(s@, id@, (i + 1) as int);
                }
                return Some(i);
            }
            i += 1;
        }
        proof {
            assert(s@.take(i as int) =~= s@);
        }
        None
    }

    fn max_version_exec(&self, policy: &String) -> (res: u64)
        ensures
            res == max_version(self.versions@, policy@),
    {
        proof {
            use_type_invariant(self);
        }
        let s = &self.versions;
        let mut m: u64 = 0;
        let mut i: usize = 0;
        while i < s.len()
            invariant
                0 <= i <= s@.len(),
                m == max_version(s@.take(i as int), policy@),
            decreases s@.len() - i,
        {
            proof {
                assert(s@.take(i + 1).drop_last() =~= s@.take(i as int));
            }
            if s[i].policy_id == *policy && s[i].version > m {
                m = s[i].version;
            }
            i += 1;
        }
        proof {
            assert(s@.take(i as int) =~= s@);
        }
        m
    }
}

proof fn lemma_find_entry_extend(s: Seq<IdempotencyEntry>, op: Seq<char>, key: Seq<char>, n: int)
    requires
        0 <= n <= s.len(),
        find_entry(s.take(n), op, key) is Some,
    ensures
        find_entry(s, op, key) == find_entry(s.take(n), op, key),
    decreases s.len() - n,
{
    if n < s.len() {
        assert(s.take(n + 1).drop_last() =~= s.take(n));
        lemma_find_entry_extend(s, op, key, n + 1);
    } else {
        assert(s.take(n) =~= s);
    }
}

proof fn lemma_find_version_extend(s: Seq<PolicyVersionRecord>, id: Seq<char>, n: int)
    requires
        0 <= n <= s.len(),
        find_version(s.take(n), id) is Some,
    ensures
        find_version(s, id) == find_version(s.take(n), id),
    decreases s.len() - n,
{
    if n < s.len() {
        assert(s.take(n + 1).drop_last() =~= s.take(n));
        lemma_find_version_extend(s, id, n + 1);
    } else {
        assert(s.take(n) =~= s);
    }
}

impl PolicyVersionStore for MemoryPolicyStore {
    open spec fn policy_view(&self) -> PolicyStoreView {
        self@
    }

    fn create_policy_version(&mut self, idempotency_key: &str, record: &PolicyVersionRecord) -> (res: Result<
        IdempotentResult<PolicyVersionRecord>,
        ControlPlaneError,
    >) {
        proof {
            use_type_invariant(&*self);
        }
        validate_policy_version(idempotency_key, record)?;
        let mut op = String::from_str("policy.version.create:");
        op.append(record.policy_id.as_str());
        let hash = policy_request_digest(record);
        let key = idempotency_key.to_owned();
        match self.find_entry_exec(&op, &key) {
            Some(i) => {
                proof {
                    lemma_find_entry_bound(self.idempotency@, op@, idempotency_key@);
                }
                if !digest_eq(&self.idempotency[i].request_hash, &hash) {
                    return Err(ControlPlaneError::IdempotencyConflict);
                }
                let found = self.find_version_exec(&self.idempotency[i].resource_id);
                proof {
                    lemma_find_version_bound(self.versions@, self.idempotency@[i as int].resource_id@);
                }
                match found {
                    Some(j) => Ok(IdempotentResult { value: clone_version(&self.versions[j]), replayed: true }),
                    None => Err(ControlPlaneError::NotFound {
                        kind: "policy version",
                        id: self.idempotency[i].resource_id.clone(),
                    }),
                }
            },
            None => {
                let next = self.max_version_exec(&record.policy_id);
                proof {
                    use_type_invariant(&*self);
                    lemma_max_version_bound(self.versions@, record.policy_id@);
                }
                if next + 1 != record.version {
                    return Err(ControlPlaneError::InvalidInput(MSG_POLICY_NOT_NEXT));
                }
                if record.version > 0x7fff_ffff_ffff_ffffu64 {
                    return Err(ControlPlaneError::IntegerRange { field: FIELD_POLICY_VERSION });
                }
                if record.created_unix_ms > 0x7fff_ffff_ffff_ffffu64 {
                    return Err(ControlPlaneError::IntegerRange { field: FIELD_POLICY_CREATION });
                }
                if self.find_version_exec(&record.id).is_some() {
                    return Err(ControlPlaneError::IdempotencyConflict);
                }
                let entry = IdempotencyEntry {
                    operation: op,
                    key,
                    request_hash: hash,
                    resource_id: record.id.clone(),
                };
                let stored = clone_version(record);
                let ghost old_view = self@;
                proof {
                    lemma_find_entry_bound(old_view.idempotency, entry.operation@, entry.key@);
                    assert forall|x: int| 0 <= x < old_view.idempotency.len() implies find_version(
                        old_view.versions.push(stored),
                        (#[trigger] old_view.idempotency[x]).resource_id@,
                    ) is Some by {
                        lemma_find_version_push(old_view.versions, stored, old_view.idempotency[x].resource_id@);
                    }
                    lemma_find_version_push(old_view.versions, stored, stored.id@);
                }
                let mut versions: Vec<PolicyVersionRecord> = Vec::new();
                let mut idempotency: Vec<IdempotencyEntry> = Vec::new();
                std::mem::swap(&mut idempotency, &mut self.idempotency);
                std::mem::swap(&mut versions, &mut self.versions);
                versions.push(stored);
                idempotency.push(entry);
                proof {
                    assert(idempotency@.drop_last() =~= old_view.idempotency);
                }
                self.versions = versions;
                self.idempotency = idempotency;
                Ok(IdempotentResult { value: clone_version(record), replayed: false })
            },
        }
    }

    fn next_policy_version_number(&self, policy_id: &str) -> (res: Result<u64, ControlPlaneError>) {
        proof {
            use_type_invariant(self);
            lemma_max_version_bound(self.versions@, policy_id@);
        }
        validate_text_value(policy_id)?;
        let m = self.max_version_exec(&policy_id.to_owned());
        Ok(m + 1)
    }
}

proof fn lemma_max_version_bound(s: Seq<PolicyVersionRecord>, policy: Seq<char>)
    requires
        forall|i: int| 0 <= i < s.len() ==> (#[trigger] s[i]).version <= i64::MAX,
    ensures
        max_version(s, policy) <= i64::MAX,
    decreases s.len(),
{
    if s.len() > 0 {
        assert forall|i: int| 0 <= i < s.len() - 1 implies (#[trigger] s.drop_last()[i]).version <= i64::MAX by {
            assert(s.drop_last()[i] == s[i]);
        }
        lemma_max_version_bound(s.drop_last(), policy);
    }
}

/// Repeating a request that created a version replays it: the same
/// version comes back, marked replayed, and the store does not change.
pub proof fn law_policy_version_replay(
    s: PolicyStoreView,
    key: Seq<char>,
    r: PolicyVersionRecord,
    s2: PolicyStoreView,
    v1: IdempotentResult<PolicyVersionRecord>,
    s3: PolicyStoreView,
    res: Result<IdempotentResult<PolicyVersionRecord>, ControlPlaneError>,
)
    requires
        create_outcome(s, key, r, s2, Ok(v1)),
        !v1.replayed,
        create_outcome(s2, key, r, s3, res),
    ensures
        res matches Ok(v2) && v2.replayed && v2.value == v1.value,
        s3 == s2,
{
    let op = policy_operation(r.policy_id@);
    assert(s2.idempotency =~= s.idempotency.push(s2.idempotency.last()));
    lemma_find_entry_push(s.idempotency, s2.idempotency.last(), op, key);
    lemma_find_version_push(s.versions, r, r.id@);
}

/// After a version is created, the next version of its policy is one more.
pub proof fn law_next_version_follows(
    s: PolicyStoreView,
    key: Seq<char>,
    r: PolicyVersionRecord,
    s2: PolicyStoreView,
    v: IdempotentResult<PolicyVersionRecord>,
)
    requires
        create_outcome(s, key, r, s2, Ok(v)),
        !v.replayed,
    ensures
        next_version(s2.versions, r.policy_id@) == r.version + 1,
{
    lemma_max_version_push(s.versions, r, r.policy_id@);
}

/// Reusing a key of a created version for a different request of the same
/// policy is refused, and the store does not change.
pub proof fn law_policy_key_reuse_conflicts(
    s: PolicyStoreView,
    key: Seq<char>,
    r: PolicyVersionRecord,
    s2: PolicyStoreView,
    v: IdempotentResult<PolicyVersionRecord>,
    other: PolicyVersionRecord,
    s3: PolicyStoreView,
    res: Result<IdempotentResult<PolicyVersionRecord>, ControlPlaneError>,
)
    requires
        create_outcome(s, key, r, s2, Ok(v)),
        !v.replayed,
        other.policy_id@ == r.policy_id@,
        policy_version_check(vstd::utf8::encode_utf8(key), other) is Ok,
        policy_digest_ok(other),
        policy_request_hash(other) != policy_request_hash(r),
        create_outcome(s2, key, other, s3, res),
    ensures
        res == Err::<IdempotentResult<PolicyVersionRecord>, ControlPlaneError>(
            ControlPlaneError::IdempotencyConflict,
        ),
        s3 == s2,
{
    let op = policy_operation(r.policy_id@);
    assert(s2.idempotency =~= s.idempotency.push(s2.idempotency.last()));
    lemma_find_entry_push(s.idempotency, s2.idempotency.last(), op, key);
}

} // verus!
