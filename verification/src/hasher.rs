//! The commitment hasher: a 32-byte Blake2b digest binds the descriptor's
//! header-plus-keys prefix to the 20-byte policy commitment published
//! on-chain. The signatures are never part of the hashed prefix, so one
//! committed policy serves any number of spends with different signature
//! sets.

use vstd::prelude::*;

verus! {

/// Size in bytes of the Blake2b digest the hasher is configured for.
pub const BLAKE2B_BLOCK_SIZE: usize = 32;

/// Size in bytes of the on-chain policy commitment: the digest's prefix.
pub const COMMITMENT_SIZE: usize = 20;

/// The 32-byte Blake2b digest of a byte sequence, a function of those
/// bytes alone.
pub uninterp spec fn blake2b_digest_of(data: Seq<u8>) -> Seq<u8>;

/// Relies on blake2b_ref::Blake2bBuilder and blake2b_ref::Blake2b: built
/// for a 32-byte output with no key, salt or personalization, updating
/// with the input once and finalizing yields the 32-byte Blake2b digest of
/// the input, a function of the input bytes alone.
#[verifier::external_body]
fn blake2b_256(data: &[u8]) -> (r: Vec<u8>)
    ensures
        r@ == blake2b_digest_of(data@),
        r@.len() == BLAKE2B_BLOCK_SIZE,
{
    let mut out = [0u8; 32];
    let mut hasher = blake2b_ref::Blake2bBuilder::new(BLAKE2B_BLOCK_SIZE).build();
    hasher.update(data);
    hasher.finalize(&mut out);
    out.to_vec()
}

/// The 20-byte policy commitment of a descriptor prefix: the leading bytes
/// of its 32-byte Blake2b digest.
pub fn compute_commitment(prefix: &[u8]) -> (r: Vec<u8>)
    ensures
        r@ == blake2b_digest_of(prefix@).take(COMMITMENT_SIZE as int),
        r@.len() == COMMITMENT_SIZE,
{
    let digest = blake2b_256(prefix);
    let commitment = vstd::slice::slice_subrange(digest.as_slice(), 0, COMMITMENT_SIZE);
    proof {
        assert(digest@.subrange(0, COMMITMENT_SIZE as int) =~= digest@.take(
            COMMITMENT_SIZE as int,
        ));
    }
    vstd::slice::slice_to_vec(commitment)
}

/// Whether a descriptor prefix hashes to the given on-chain commitment.
pub fn commitment_matches(prefix: &[u8], commitment: &[u8]) -> (r: bool)
    ensures
        r == (commitment@ == blake2b_digest_of(prefix@).take(COMMITMENT_SIZE as int)),
{
    let computed = compute_commitment(prefix);
    if commitment.len() != COMMITMENT_SIZE {
        proof {
            assert(commitment@.len() != COMMITMENT_SIZE);
        }
        return false;
    }
    let mut i: usize = 0;
    while i < COMMITMENT_SIZE
        invariant
            0 <= i <= COMMITMENT_SIZE,
            commitment@.len() == COMMITMENT_SIZE,
            computed@ == blake2b_digest_of(prefix@).take(COMMITMENT_SIZE as int),
            computed@.len() == COMMITMENT_SIZE,
            forall|j: int| 0 <= j < i ==> commitment@[j] == computed@[j],
        decreases COMMITMENT_SIZE - i,
    {
        if commitment[i] != computed[i] {
            proof {
                assert(commitment@ != computed@);
            }
            return false;
        }
        i += 1;
    }
    proof {
        assert(commitment@ =~= computed@);
    }
    true
}

/// The digest is a function of the hashed bytes: hashing the same prefix
/// twice, or two equal prefixes, yields identical digests.
pub proof fn lemma_digest_deterministic(a: Seq<u8>, b: Seq<u8>)
    requires
        a == b,
    ensures
        blake2b_digest_of(a) == blake2b_digest_of(b),
{
}

} // verus!
