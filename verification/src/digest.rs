//! SHA-256 digests and what the protocol hashes.

use vstd::prelude::*;

verus! {

/// A 32-byte digest.
#[derive(Clone, Copy, Debug, PartialEq, Eq, Hash)]
pub struct Digest {
    pub bytes: [u8; 32],
}

/// Longest input that is hashed. The host meters hashing against a fixed
/// budget; inputs of this length stay well inside it.
pub const MAX_HASH_INPUT_LEN: usize = 1_000_000;

/// Largest claim code: six decimal digits.
pub const MAX_CLAIM_CODE: u32 = 999_999;

/// The SHA-256 digest of `data`, as 32 bytes.
pub uninterp spec fn sha256(data: Seq<u8>) -> Seq<u8>;

/// SHA-256 as the host computes it, through
/// `soroban_sdk::crypto::Crypto::sha256` on a fresh default environment.
///
/// Trusted: the 32 bytes returned are the SHA-256 digest of `data`, a
/// function of `data` alone. The length bound keeps the call inside the
/// host's default metering budget, beyond which it would abort.
#[verifier::external_body]
fn host_sha256(data: &[u8]) -> (out: [u8; 32])
    requires
        data@.len() <= MAX_HASH_INPUT_LEN,
    ensures
        out@ == sha256(data@),
{
    let env = soroban_sdk::Env::default();
    let input = soroban_sdk::Bytes::from_slice(&env, data);
    env.crypto().sha256(&input).to_array()
}

/// The digest whose bytes are `bytes`.
pub open spec fn digest_of(bytes: Seq<u8>) -> Digest {
    choose|d: Digest| d.bytes@ == bytes
}

/// A digest is the digest of its own bytes.
pub proof fn lemma_digest_of_bytes(d: Digest)
    ensures
        digest_of(d.bytes@) == d,
{
    let e = digest_of(d.bytes@);
    assert(e.bytes@ == d.bytes@);
    assert(e.bytes =~= d.bytes);
}

/// The SHA-256 digest of `data`.
pub open spec fn spec_hash_bytes(data: Seq<u8>) -> Digest {
    digest_of(sha256(data))
}

/// The SHA-256 digest of the UTF-8 encoding of `text`.
pub open spec fn spec_hash_string(text: Seq<char>) -> Digest {
    spec_hash_bytes(vstd::utf8::encode_utf8(text))
}

/// The SHA-256 digest of the six ASCII digits of `code`.
pub open spec fn spec_hash_claim_code(code: u32) -> Digest {
    spec_hash_bytes(claim_code_digits(code))
}

/// The eight bytes of `x`, most significant first.
pub open spec fn u64_be_bytes(x: u64) -> Seq<u8> {
    seq![
        (x / 0x100_0000_0000_0000) as u8,
        (x / 0x1_0000_0000_0000 % 256) as u8,
        (x / 0x100_0000_0000 % 256) as u8,
        (x / 0x1_0000_0000 % 256) as u8,
        (x / 0x100_0000 % 256) as u8,
        (x / 0x1_0000 % 256) as u8,
        (x / 0x100 % 256) as u8,
        (x % 256) as u8,
    ]
}

/// The six decimal digits of `code` in ASCII, padded with zeros on the left.
pub open spec fn claim_code_digits(code: u32) -> Seq<u8> {
    seq![
        (48 + code / 100000 % 10) as u8,
        (48 + code / 10000 % 10) as u8,
        (48 + code / 1000 % 10) as u8,
        (48 + code / 100 % 10) as u8,
        (48 + code / 10 % 10) as u8,
        (48 + code % 10) as u8,
    ]
}

/// What identifies a claim: the plan's number, big-endian, followed by the
/// digest of the claimant's email.
pub open spec fn claim_key_preimage(plan_id: u64, hashed_email: Digest) -> Seq<u8> {
    u64_be_bytes(plan_id) + hashed_email.bytes@
}

/// The digest under which a claim on `plan_id` by the holder of
/// `hashed_email` is recorded.
pub open spec fn spec_claim_key(plan_id: u64, hashed_email: Digest) -> Digest {
    spec_hash_bytes(claim_key_preimage(plan_id, hashed_email))
}

impl Digest {
    /// Whether two digests are equal.
    pub fn same(&self, other: &Digest) -> (r: bool)
        ensures
            r == (*self == *other),
    {
        let mut i: usize = 0;
        while i < 32
            invariant
                i <= 32,
                forall|j: int| 0 <= j < i ==> self.bytes@[j] == other.bytes@[j],
            decreases 32 - i,
        {
            if self.bytes[i] != other.bytes[i] {
                return false;
            }
            i += 1;
        }
        assert(self.bytes =~= other.bytes);
        true
    }
}

/// The digest of `input`.
pub fn sha256_digest(input: &[u8]) -> (d: Digest)
    requires
        input@.len() <= MAX_HASH_INPUT_LEN,
    ensures
        d == spec_hash_bytes(input@),
        d.bytes@ == sha256(input@),
{
    let d = Digest { bytes: host_sha256(input) };
    proof {
        lemma_digest_of_bytes(d);
    }
    d
}

/// Copies a byte string.
pub fn copy_bytes(bytes: &Vec<u8>) -> (out: Vec<u8>)
    ensures
        out@ == bytes@,
{
    let mut out: Vec<u8> = Vec::new();
    let mut i: usize = 0;
    while i < bytes.len()
        invariant
            i <= bytes@.len(),
            out@ == bytes@.subrange(0, i as int),
        decreases bytes@.len() - i,
    {
        out.push(bytes[i]);
        assert(out@ =~= bytes@.subrange(0, i + 1));
        i += 1;
    }
    assert(bytes@.subrange(0, bytes@.len() as int) =~= bytes@);
    out
}

/// Writes the eight bytes of `x`, most significant first.
pub fn u64_to_be_bytes(x: u64) -> (out: Vec<u8>)
    ensures
        out@ == u64_be_bytes(x),
{
    let mut out: Vec<u8> = Vec::new();
    out.push((x / 0x100_0000_0000_0000) as u8);
    out.push((x / 0x1_0000_0000_0000 % 256) as u8);
    out.push((x / 0x100_0000_0000 % 256) as u8);
    out.push((x / 0x1_0000_0000 % 256) as u8);
    out.push((x / 0x100_0000 % 256) as u8);
    out.push((x / 0x1_0000 % 256) as u8);
    out.push((x / 0x100 % 256) as u8);
    out.push((x % 256) as u8);
    assert(out@ =~= u64_be_bytes(x));
    out
}

/// Writes the six ASCII digits of a claim code.
pub fn claim_code_to_digits(code: u32) -> (out: Vec<u8>)
    ensures
        out@ == claim_code_digits(code),
{
    let mut out: Vec<u8> = Vec::new();
    out.push((48 + code / 100000 % 10) as u8);
    out.push((48 + code / 10000 % 10) as u8);
    out.push((48 + code / 1000 % 10) as u8);
    out.push((48 + code / 100 % 10) as u8);
    out.push((48 + code / 10 % 10) as u8);
    out.push((48 + code % 10) as u8);
    assert(out@ =~= claim_code_digits(code));
    out
}

/// The key under which a claim on `plan_id` by the holder of `hashed_email`
/// is recorded.
pub fn claim_key(plan_id: u64, hashed_email: &Digest) -> (key: Digest)
    ensures
        key == spec_claim_key(plan_id, *hashed_email),
{
    let mut data = u64_to_be_bytes(plan_id);
    let mut i: usize = 0;
    while i < 32
        invariant
            i <= 32,
            data@ == u64_be_bytes(plan_id) + hashed_email.bytes@.subrange(0, i as int),
        decreases 32 - i,
    {
        data.push(hashed_email.bytes[i]);
        assert(data@ =~= u64_be_bytes(plan_id) + hashed_email.bytes@.subrange(0, i + 1));
        i += 1;
    }
    assert(hashed_email.bytes@.subrange(0, 32) =~= hashed_email.bytes@);
    sha256_digest(data.as_slice())
}

} // verus!
