//! The commitment hasher: a fixed, deterministic one-way function shared by
//! the creator (whose caller precomputes the commitment) and the claimant
//! (who recomputes it from the revealed secret).

use vstd::prelude::*;

verus! {

/// The SHA-256 digest of a byte sequence, as a function of the bytes alone.
pub uninterp spec fn sha256_of(bytes: Seq<u8>) -> Seq<u8>;

/// Relies on sha2::Sha256 (via the Digest trait): the SHA-256 digest of the
/// input bytes, a function of those bytes alone, always exactly 32 bytes.
#[verifier::external_body]
fn sha256(bytes: &[u8]) -> (r: [u8; 32])
    ensures
        r@ == sha256_of(bytes@),
{
    let mut hasher = <sha2::Sha256 as sha2::Digest>::new();
    sha2::Digest::update(&mut hasher, bytes);
    sha2::Digest::finalize(hasher).into()
}

/// Computes the 32-byte commitment for a secret: its SHA-256 digest, applied
/// to the raw bytes with no salt, no iteration and no normalization.
pub fn commitment_of(secret: &[u8]) -> (r: [u8; 32])
    ensures
        r@ == sha256_of(secret@),
{
    sha256(secret)
}

/// Compares two 32-byte digests, byte for byte.
pub fn digests_equal(a: &[u8; 32], b: &[u8; 32]) -> (r: bool)
    ensures
        r == (a@ == b@),
{
    let mut i: usize = 0;
    while i < 32
        invariant
            i <= 32,
            forall|k: int| 0 <= k < i ==> a@[k] == b@[k],
        decreases 32 - i,
    {
        if a[i] != b[i] {
            return false;
        }
        i = i + 1;
    }
    proof {
        assert(a@ =~= b@);
    }
    true
}

/// Recomputes the commitment from a supplied secret and checks it against a
/// stored one. True exactly when the secret's SHA-256 digest is the stored
/// commitment; the secret's bytes are hashed as they are, so any difference
/// in case, whitespace or encoding misses.
pub fn secret_matches(secret: &[u8], commitment: &[u8; 32]) -> (r: bool)
    ensures
        r == (sha256_of(secret@) == commitment@),
{
    let digest = sha256(secret);
    digests_equal(&digest, commitment)
}

/// The commitment hasher is deterministic: digests computed from the same
/// secret bytes are equal, in every invocation.
pub proof fn lemma_hash_deterministic(s: Seq<u8>, d1: Seq<u8>, d2: Seq<u8>)
    requires
        d1 == sha256_of(s),
        d2 == sha256_of(s),
    ensures
        d1 == d2,
{
}

} // verus!
