//! SHA-256 content digests and the identities derived from them, over the
//! `sha2` and `hex` crates.

use crate::bytes::push_bytes;
use sha2::Digest as _;
use vstd::prelude::*;
use vstd::string::{StringExecFns, StringSliceAdditionalSpecFns};

verus! {

/// The SHA-256 digest of `data`, as computed by `sha2::Sha256`.
pub uninterp spec fn sha256_digest(data: Seq<u8>) -> Seq<u8>;

/// Calls `<sha2::Sha256 as sha2::Digest>::digest`. Trusted: the result is the
/// SHA-256 digest of the input (named `sha256_digest`), which the crate returns
/// as an array of 32 bytes.
#[verifier::external_body]
fn sha256(data: &[u8]) -> (res: Vec<u8>)
    ensures
        res@ == sha256_digest(data@),
        res@.len() == 32,
{
    sha2::Sha256::digest(data).to_vec()
}

/// The lowercase hexadecimal digit of a nibble.
pub open spec fn hex_digit(n: int) -> char {
    if n < 10 {
        (48 + n) as char
    } else {
        (87 + n) as char
    }
}

/// `hex::encode`: two lowercase digits per byte, the high nibble first.
pub open spec fn hex_lower(data: Seq<u8>) -> Seq<char>
    decreases data.len(),
{
    if data.len() == 0 {
        Seq::empty()
    } else {
        hex_lower(data.drop_last()) + seq![
            hex_digit(data.last() as int / 16),
            hex_digit(data.last() as int % 16),
        ]
    }
}

/// Calls `hex::encode`. Trusted: the crate maps each byte to the lowercase
/// digits of its high and then its low nibble (`BytesToHexChars` over
/// `HEX_CHARS_LOWER`), which `hex_lower` states.
#[verifier::external_body]
fn hex_encode(data: &[u8]) -> (res: String)
    ensures
        res@ == hex_lower(data@),
{
    hex::encode(data)
}

/// A content digest: `sha256:` followed by the lowercase hex of the digest.
#[derive(Debug, Clone, PartialEq, Eq)]
pub struct ContentDigest {
    pub text: String,
}

impl ContentDigest {
    /// A copy of this digest.
    pub fn duplicate(&self) -> (res: ContentDigest)
        ensures
            res == *self,
    {
        ContentDigest { text: self.text.clone() }
    }
}

impl View for ContentDigest {
    type V = Seq<char>;

    open spec fn view(&self) -> Seq<char> {
        self.text@
    }
}

/// The text of the SHA-256 content digest of `data`.
pub open spec fn sha256_text(data: Seq<u8>) -> Seq<char> {
    "sha256:"@ + hex_lower(sha256_digest(data))
}

/// The SHA-256 digest of `data`, as bytes.
pub(crate) fn sha256_bytes(data: &[u8]) -> (res: Vec<u8>)
    ensures
        res@ == sha256_digest(data@),
{
    sha256(data)
}

/// The lowercase hexadecimal text of `data`.
pub(crate) fn hex_string(data: &[u8]) -> (res: String)
    ensures
        res@ == hex_lower(data@),
{
    hex_encode(data)
}

/// The SHA-256 content digest of `data`.
pub fn content_digest_sha256(data: &[u8]) -> (res: ContentDigest)
    ensures
        res@ == sha256_text(data@),
{
    let hash = sha256(data);
    let hex = hex_encode(hash.as_slice());
    let mut text = String::from_str("sha256:");
    text.append(hex.as_str());
    ContentDigest { text }
}

/// Whether two digests are the same.
pub fn digest_eq(a: &ContentDigest, b: &ContentDigest) -> (res: bool)
    ensures
        res == (a@ == b@),
{
    a.text == b.text
}

/// The eight big-endian bytes of `n`.
pub open spec fn be_bytes(n: u64) -> Seq<u8> {
    seq![
        (n / 0x100000000000000) as u8,
        ((n / 0x1000000000000) % 256) as u8,
        ((n / 0x10000000000) % 256) as u8,
        ((n / 0x100000000) % 256) as u8,
        ((n / 0x1000000) % 256) as u8,
        ((n / 0x10000) % 256) as u8,
        ((n / 0x100) % 256) as u8,
        (n % 256) as u8,
    ]
}

fn push_be_bytes(out: &mut Vec<u8>, n: u64)
    ensures
        final(out)@ == old(out)@ + be_bytes(n),
{
    out.push((n / 0x100000000000000) as u8);
    out.push(((n / 0x1000000000000) % 256) as u8);
    out.push(((n / 0x10000000000) % 256) as u8);
    out.push(((n / 0x100000000) % 256) as u8);
    out.push(((n / 0x1000000) % 256) as u8);
    out.push(((n / 0x10000) % 256) as u8);
    out.push(((n / 0x100) % 256) as u8);
    out.push((n % 256) as u8);
    proof {
        assert(final(out)@ =~= old(out)@ + be_bytes(n));
    }
}

pub const EXPANDED_JOB_DOMAIN: &'static str = "runtrue.expanded-scheduler-job.v1\0";

/// The hashed material of an expanded job's identity: a domain tag, then the
/// record id and the job key, each preceded by its length in eight big-endian
/// bytes.
pub open spec fn expanded_job_material(record: Seq<u8>, key: Seq<u8>) -> Seq<u8> {
    EXPANDED_JOB_DOMAIN.spec_bytes() + be_bytes(record.len() as u64) + record + be_bytes(
        key.len() as u64,
    ) + key
}

/// The text of the scheduler job id of expanded job `key` of the set `record`.
pub open spec fn expanded_job_text(record: Seq<u8>, key: Seq<u8>) -> Seq<char> {
    "expanded-job-"@ + hex_lower(sha256_digest(expanded_job_material(record, key)))
}

/// The scheduler job id of the expanded job `key` of the expanded job set
/// `record`.
pub fn expanded_job_id(record: &str, key: &str) -> (res: String)
    ensures
        res@ == expanded_job_text(record.spec_bytes(), key.spec_bytes()),
{
    let r = record.as_bytes();
    let k = key.as_bytes();
    let mut material: Vec<u8> = Vec::new();
    push_bytes(&mut material, EXPANDED_JOB_DOMAIN.as_bytes());
    push_be_bytes(&mut material, r.len() as u64);
    push_bytes(&mut material, r);
    push_be_bytes(&mut material, k.len() as u64);
    push_bytes(&mut material, k);
    let hash = sha256(material.as_slice());
    let hex = hex_encode(hash.as_slice());
    let mut id = String::from_str("expanded-job-");
    id.append(hex.as_str());
    id
}

/// The text of a content digest: `sha256:` and 64 lowercase hexadecimal
/// digits.
pub open spec fn digest_text_ok(t: Seq<u8>) -> bool {
    &&& t.len() == 71
    &&& t.subrange(0, 7) == "sha256:".spec_bytes()
    &&& forall|i: int| 7 <= i < 71 ==> ((48u8 <= #[trigger] t[i] <= 57u8) || (97u8 <= t[i] <= 102u8))
}

pub const MSG_DIGEST_TEXT: &'static str = "invalid content digest";

/// Reads a stored content digest.
pub fn parse_content_digest(text: String) -> (res: Result<ContentDigest, crate::error::ControlPlaneError>)
    ensures
        digest_text_ok(crate::scm::sb(text)) ==> res == Ok::<ContentDigest, crate::error::ControlPlaneError>(
            ContentDigest { text },
        ),
        !digest_text_ok(crate::scm::sb(text)) ==> res == Err::<ContentDigest, crate::error::ControlPlaneError>(
            crate::error::ControlPlaneError::CorruptState(MSG_DIGEST_TEXT),
        ),
{
    let t = text.as_str();
    let b = t.as_bytes();
    let prefix = "sha256:".as_bytes();
    proof {
        assert(b@ == crate::scm::sb(text));
        reveal_strlit("sha256:");
        vstd::string::is_ascii_spec_bytes("sha256:");
        assert(prefix@.len() == 7);
    }
    if b.len() != 71 {
        return Err(crate::error::ControlPlaneError::CorruptState(MSG_DIGEST_TEXT));
    }
    let mut i: usize = 0;
    while i < 7
        invariant
            0 <= i <= 7,
            b@ == crate::scm::sb(text),
            b@.len() == 71,
            prefix@ == "sha256:".spec_bytes(),
            prefix@.len() == 7,
            forall|j: int| 0 <= j < i ==> b@[j] == prefix@[j],
        decreases 7 - i,
    {
        if b[i] != prefix[i] {
            assert(b@.subrange(0, 7)[i as int] != prefix@[i as int]);
            assert(b@.subrange(0, 7) != "sha256:".spec_bytes());
            return Err(crate::error::ControlPlaneError::CorruptState(MSG_DIGEST_TEXT));
        }
        i += 1;
    }
    assert(b@.subrange(0, 7) =~= prefix@);
    while i < 71
        invariant
            7 <= i <= 71,
            b@ == crate::scm::sb(text),
            b@.len() == 71,
            b@.subrange(0, 7) == "sha256:".spec_bytes(),
            forall|j: int| 7 <= j < i ==> ((48u8 <= #[trigger] b@[j] <= 57u8) || (97u8 <= b@[j] <= 102u8)),
        decreases 71 - i,
    {
        let c = b[i];
        if !((48 <= c && c <= 57) || (97 <= c && c <= 102)) {
            assert(!((48u8 <= b@[i as int] <= 57u8) || (97u8 <= b@[i as int] <= 102u8)));
            return Err(crate::error::ControlPlaneError::CorruptState(MSG_DIGEST_TEXT));
        }
        i += 1;
    }
    Ok(ContentDigest { text })
}

} // verus!
