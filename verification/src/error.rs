use vstd::prelude::*;

verus! {

/// Every way a validation run can be rejected.
///
/// All variants are fatal: a run either ends in `Ok(())` or in exactly one
/// of these, and nothing is retried or partially accepted.
#[derive(Debug, Clone, Copy, PartialEq, Eq, Structural)]
pub enum Error {
    /// The on-chain arguments are neither 20 nor 28 bytes long.
    ArgumentsLen,
    /// The witness lock field is missing or shorter than the descriptor
    /// header, or its total length disagrees with the header's field counts.
    WitnessSize,
    /// The descriptor's reserved byte is not zero.
    ReservedFieldNonzero,
    /// The descriptor's signature threshold is zero.
    ThresholdZero,
    /// The descriptor declares zero public-key hashes.
    PubkeyCountZero,
    /// The threshold exceeds the number of declared public-key hashes.
    ThresholdExceedsPubkeyCount,
    /// The number of designated first signers exceeds the threshold.
    RequireFirstNExceedsThreshold,
    /// The descriptor's total length is not exactly what its header
    /// announces.
    DescriptorLengthMismatch,
    /// The commitment digest of the descriptor's header-plus-keys prefix
    /// does not match the on-chain policy commitment.
    CommitmentMismatch,
    /// An output slot's time-lock flags differ from the bound's flags.
    IncorrectSinceFlags,
    /// An output slot's time-lock value is less mature than the bound.
    IncorrectSinceValue,
    /// A host data source failed for a reason other than running past the
    /// last slot. Produced only by the host-facing caller, never by the
    /// library itself.
    HostDataUnavailable,
}

} // verus!
