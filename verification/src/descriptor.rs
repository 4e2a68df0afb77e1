//! The witness-supplied policy descriptor: its byte layout, its structural
//! invariants, and the codec between the two.
//!
//! The wire layout is `reserved (1) | require_first_n (1) | threshold (1) |
//! pubkey_count (1) | pubkey_hashes (20 * pubkey_count) | signatures
//! (65 * threshold)`, with no padding; any length deviation is rejected.

use vstd::prelude::*;

use crate::error::Error;

verus! {

/// Size in bytes of one public-key hash identifier.
pub const BLAKE160_SIZE: usize = 20;

/// Size in bytes of the descriptor's fixed header.
pub const HEADER_SIZE: usize = 4;

/// Size in bytes of one recoverable signature blob.
pub const SIGNATURE_SIZE: usize = 65;

/// A decoded, structurally valid policy descriptor.
///
/// `pubkey_hashes` holds the `pubkey_count` 20-byte key-hash identifiers
/// back to back, and `signatures` the `threshold` 65-byte signature blobs
/// back to back, exactly as they stand on the wire.
#[derive(Debug, Clone, PartialEq, Eq)]
pub struct Descriptor {
    /// How many of the first-listed signers must be among the actual signers.
    pub require_first_n: u8,
    /// Minimum number of valid signatures required (M).
    pub threshold: u8,
    /// Number of declared public-key hashes (N).
    pub pubkey_count: u8,
    /// The N key-hash identifiers, 20 bytes each, in signer order.
    pub pubkey_hashes: Vec<u8>,
    /// The M signature blobs, 65 bytes each.
    pub signatures: Vec<u8>,
}

/// The mathematical model of a descriptor.
pub ghost struct DescriptorView {
    pub require_first_n: u8,
    pub threshold: u8,
    pub pubkey_count: u8,
    pub pubkey_hashes: Seq<u8>,
    pub signatures: Seq<u8>,
}

impl View for Descriptor {
    type V = DescriptorView;

    open spec fn view(&self) -> DescriptorView {
        DescriptorView {
            require_first_n: self.require_first_n,
            threshold: self.threshold,
            pubkey_count: self.pubkey_count,
            pubkey_hashes: self.pubkey_hashes@,
            signatures: self.signatures@,
        }
    }
}

impl DescriptorView {
    /// The structural invariants of a descriptor: at least one key and one
    /// required signature, a threshold within the declared keys, designated
    /// first signers within the threshold, and field lengths exactly as the
    /// header announces.
    pub open spec fn well_formed(self) -> bool {
        &&& self.threshold >= 1
        &&& self.pubkey_count >= 1
        &&& self.threshold <= self.pubkey_count
        &&& self.require_first_n <= self.threshold
        &&& self.pubkey_hashes.len() == BLAKE160_SIZE * self.pubkey_count
        &&& self.signatures.len() == SIGNATURE_SIZE * self.threshold
    }

    /// Length in bytes of the header-plus-keys prefix, the part of the
    /// encoding that the policy commitment covers.
    pub open spec fn prefix_len(self) -> int {
        HEADER_SIZE + BLAKE160_SIZE * self.pubkey_count
    }

    /// The exact wire length its header announces.
    pub open spec fn encoded_len(self) -> int {
        self.prefix_len() + SIGNATURE_SIZE * self.threshold
    }
}

/// The wire encoding of a descriptor: a zero reserved byte, the three header
/// fields, then the key hashes and the signatures back to back.
pub open spec fn spec_encode(d: DescriptorView) -> Seq<u8> {
    seq![0u8, d.require_first_n, d.threshold, d.pubkey_count] + d.pubkey_hashes + d.signatures
}

/// Decoding and validation of raw witness bytes, checks in wire order: the
/// reserved byte must be zero, threshold and key count must be nonzero,
/// the threshold must not exceed the key count, the designated first
/// signers must not exceed the threshold, and the total length must equal
/// exactly what the header announces. The first violated check names the
/// error.
pub open spec fn spec_decode(s: Seq<u8>) -> Result<DescriptorView, Error> {
    if s.len() < HEADER_SIZE {
        Err(Error::WitnessSize)
    } else if s[0] != 0 {
        Err(Error::ReservedFieldNonzero)
    } else if s[2] == 0 {
        Err(Error::ThresholdZero)
    } else if s[3] == 0 {
        Err(Error::PubkeyCountZero)
    } else if s[2] > s[3] {
        Err(Error::ThresholdExceedsPubkeyCount)
    } else if s[1] > s[2] {
        Err(Error::RequireFirstNExceedsThreshold)
    } else if s.len() != HEADER_SIZE + BLAKE160_SIZE * (s[3] as int) + SIGNATURE_SIZE * (
    s[2] as int) {
        Err(Error::DescriptorLengthMismatch)
    } else {
        Ok(
            DescriptorView {
                require_first_n: s[1],
                threshold: s[2],
                pubkey_count: s[3],
                pubkey_hashes: s.subrange(
                    HEADER_SIZE as int,
                    HEADER_SIZE + BLAKE160_SIZE * (s[3] as int),
                ),
                signatures: s.subrange(HEADER_SIZE + BLAKE160_SIZE * (s[3] as int), s.len() as int),
            },
        )
    }
}

/// A decode that succeeds yields a well-formed descriptor whose fields come
/// from the byte ranges the header announces.
pub proof fn lemma_decode_ok_well_formed(s: Seq<u8>, d: DescriptorView)
    requires
        spec_decode(s) == Ok::<DescriptorView, Error>(d),
    ensures
        d.well_formed(),
        s.len() == d.encoded_len(),
{
}

/// Decodes and validates a descriptor from raw witness bytes.
pub fn decode_descriptor(bytes: &[u8]) -> (r: Result<Descriptor, Error>)
    ensures
        match r {
            Ok(d) => spec_decode(bytes@) == Ok::<DescriptorView, Error>(d@),
            Err(e) => spec_decode(bytes@) == Err::<DescriptorView, Error>(e),
        },
{
    if bytes.len() < HEADER_SIZE {
        return Err(Error::WitnessSize);
    }
    let reserved = bytes[0];
    let require_first_n = bytes[1];
    let threshold = bytes[2];
    let pubkey_count = bytes[3];
    if reserved != 0 {
        return Err(Error::ReservedFieldNonzero);
    }
    if threshold == 0 {
        return Err(Error::ThresholdZero);
    }
    if pubkey_count == 0 {
        return Err(Error::PubkeyCountZero);
    }
    if threshold > pubkey_count {
        return Err(Error::ThresholdExceedsPubkeyCount);
    }
    if require_first_n > threshold {
        return Err(Error::RequireFirstNExceedsThreshold);
    }
    let prefix_len: usize = HEADER_SIZE + BLAKE160_SIZE * (pubkey_count as usize);
    let signatures_len: usize = SIGNATURE_SIZE * (threshold as usize);
    let required_len: usize = prefix_len + signatures_len;
    if bytes.len() != required_len {
        return Err(Error::DescriptorLengthMismatch);
    }
    let pubkey_hashes = vstd::slice::slice_to_vec(
        vstd::slice::slice_subrange(bytes, HEADER_SIZE, prefix_len),
    );
    let signatures = vstd::slice::slice_to_vec(
        vstd::slice::slice_subrange(bytes, prefix_len, required_len),
    );
    Ok(Descriptor { require_first_n, threshold, pubkey_count, pubkey_hashes, signatures })
}

impl Descriptor {
    /// Encodes the descriptor back into its wire layout.
    pub fn encode(&self) -> (r: Vec<u8>)
        ensures
            r@ == spec_encode(self@),
    {
        let mut out: Vec<u8> = Vec::new();
        out.push(0u8);
        out.push(self.require_first_n);
        out.push(self.threshold);
        out.push(self.pubkey_count);
        let mut i: usize = 0;
        while i < self.pubkey_hashes.len()
            invariant
                0 <= i <= self.pubkey_hashes@.len(),
                out@ == seq![
                    0u8,
                    self.require_first_n,
                    self.threshold,
                    self.pubkey_count,
                ] + self.pubkey_hashes@.take(i as int),
            decreases self.pubkey_hashes@.len() - i,
        {
            out.push(self.pubkey_hashes[i]);
            proof {
                assert(self.pubkey_hashes@.take(i + 1) =~= self.pubkey_hashes@.take(i as int).push(
                    self.pubkey_hashes@[i as int],
                ));
            }
            i += 1;
        }
        proof {
            assert(self.pubkey_hashes@.take(self.pubkey_hashes@.len() as int)
                =~= self.pubkey_hashes@);
        }
        let mut j: usize = 0;
        while j < self.signatures.len()
            invariant
                0 <= j <= self.signatures@.len(),
                out@ == seq![
                    0u8,
                    self.require_first_n,
                    self.threshold,
                    self.pubkey_count,
                ] + self.pubkey_hashes@ + self.signatures@.take(j as int),
            decreases self.signatures@.len() - j,
        {
            out.push(self.signatures[j]);
            proof {
                assert(self.signatures@.take(j + 1) =~= self.signatures@.take(j as int).push(
                    self.signatures@[j as int],
                ));
            }
            j += 1;
        }
        proof {
            assert(self.signatures@.take(self.signatures@.len() as int) =~= self.signatures@);
            assert(out@ =~= spec_encode(self@));
        }
        out
    }
}

/// Round trip: decoding the encoding of any well-formed descriptor yields
/// that descriptor back, unchanged.
pub proof fn lemma_decode_encode(d: DescriptorView)
    requires
        d.well_formed(),
    ensures
        spec_decode(spec_encode(d)) == Ok::<DescriptorView, Error>(d),
{
    let s = spec_encode(d);
    assert(s.len() == 4 + d.pubkey_hashes.len() + d.signatures.len());
    assert(s[0] == 0 && s[1] == d.require_first_n && s[2] == d.threshold && s[3] == d.pubkey_count);
    let decoded = spec_decode(s).unwrap();
    assert(decoded.pubkey_hashes =~= d.pubkey_hashes);
    assert(decoded.signatures =~= d.signatures);
}

/// Validation rejects any descriptor whose threshold exceeds its declared
/// key count, whatever the other fields hold.
pub proof fn lemma_threshold_exceeds_pubkey_count_rejected(d: DescriptorView)
    requires
        d.threshold >= 1,
        d.pubkey_count >= 1,
        d.threshold > d.pubkey_count,
    ensures
        spec_decode(spec_encode(d)) == Err::<DescriptorView, Error>(
            Error::ThresholdExceedsPubkeyCount,
        ),
{
}

/// Validation rejects any descriptor whose designated-first-signer count
/// exceeds its threshold, whatever the other fields hold.
pub proof fn lemma_require_first_n_exceeds_threshold_rejected(d: DescriptorView)
    requires
        d.threshold >= 1,
        d.pubkey_count >= 1,
        d.threshold <= d.pubkey_count,
        d.require_first_n > d.threshold,
    ensures
        spec_decode(spec_encode(d)) == Err::<DescriptorView, Error>(
            Error::RequireFirstNExceedsThreshold,
        ),
{
}

} // verus!
