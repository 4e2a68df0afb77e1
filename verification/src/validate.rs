//! The validation orchestrator: the top-level decision procedure.
//!
//! Five phases run in order, each a potential exit: decode the on-chain
//! arguments, take the witness lock field, decode and validate the policy
//! descriptor, hold the descriptor's header-plus-keys prefix against the
//! on-chain commitment, and enforce the optional relative time-lock
//! against every associated output slot's own value.
//!
//! The caller reads the host data (arguments, witness lock, one `since`
//! value per output slot of the group) and hands it in as plain values;
//! the library makes the decision.

use vstd::prelude::*;

use crate::arguments::ArgumentsView;
use crate::arguments::decode_arguments;
use crate::arguments::spec_decode_arguments;
use crate::descriptor::BLAKE160_SIZE;
use crate::descriptor::DescriptorView;
use crate::descriptor::HEADER_SIZE;
use crate::descriptor::decode_descriptor;
use crate::descriptor::spec_decode;
use crate::error::Error;
use crate::hasher::COMMITMENT_SIZE;
use crate::hasher::blake2b_digest_of;
use crate::hasher::commitment_matches;
use crate::since::check_since;
use crate::since::spec_check_since;

verus! {

/// Whether a decoded descriptor's commitment prefix, cut from the witness
/// bytes, hashes to the decoded arguments' policy commitment.
pub open spec fn spec_commitment_ok(a: ArgumentsView, d: DescriptorView, lock: Seq<u8>) -> bool {
    a.policy_commitment == blake2b_digest_of(lock.take(d.prefix_len())).take(
        COMMITMENT_SIZE as int,
    )
}

/// The outcome of one whole validation run, phase by phase: the first
/// failing phase names the error, and a run only ends in `Ok(())` when the
/// arguments decode, the witness lock is present, the descriptor is
/// structurally valid, the commitment binds, and — when a nonzero bound
/// is present and enforcement is on — every output slot's `since` value
/// satisfies the bound.
pub open spec fn spec_validate(
    args: Seq<u8>,
    witness_lock: Option<Seq<u8>>,
    output_sinces: Seq<u64>,
    enforce_timelock: bool,
) -> Result<(), Error> {
    match spec_decode_arguments(args) {
        Err(e) => Err(e),
        Ok(a) => match witness_lock {
            None => Err(Error::WitnessSize),
            Some(lock) => match spec_decode(lock) {
                Err(e) => Err(e),
                Ok(d) => if !spec_commitment_ok(a, d, lock) {
                    Err(Error::CommitmentMismatch)
                } else if enforce_timelock && a.since_bound != 0 {
                    spec_check_since(a.since_bound, output_sinces)
                } else {
                    Ok(())
                },
            },
        },
    }
}

/// Decides whether a spend is authorized.
///
/// `args` are the running policy's on-chain committed argument bytes,
/// `witness_lock` the witness lock field of the controlling input slot if
/// present, and `output_sinces` the relative time-lock value of every
/// output slot in the same group, in slot order. `enforce_timelock`
/// switches the time-lock phase on; with it off the run ends after the
/// commitment check. A zero bound (a 20-byte argument, or an explicit
/// zero) always skips the time-lock phase.
pub fn validate(
    args: &[u8],
    witness_lock: Option<&[u8]>,
    output_sinces: &[u64],
    enforce_timelock: bool,
) -> (r: Result<(), Error>)
    ensures
        r == spec_validate(
            args@,
            match witness_lock {
                Some(lock) => Some(lock@),
                None => None::<Seq<u8>>,
            },
            output_sinces@,
            enforce_timelock,
        ),
{
    let arguments = match decode_arguments(args) {
        Ok(a) => a,
        Err(e) => { return Err(e) },
    };
    let lock_bytes = match witness_lock {
        Some(lock) => lock,
        None => { return Err(Error::WitnessSize) },
    };
    let descriptor = match decode_descriptor(lock_bytes) {
        Ok(d) => d,
        Err(e) => { return Err(e) },
    };
    let prefix_len: usize = HEADER_SIZE + BLAKE160_SIZE * (descriptor.pubkey_count as usize);
    proof {
        crate::descriptor::lemma_decode_ok_well_formed(lock_bytes@, descriptor@);
        assert(prefix_len <= lock_bytes@.len());
    }
    let prefix = vstd::slice::slice_subrange(lock_bytes, 0, prefix_len);
    proof {
        assert(lock_bytes@.subrange(0, prefix_len as int) =~= lock_bytes@.take(
            descriptor@.prefix_len(),
        ));
    }
    if !commitment_matches(prefix, arguments.policy_commitment.as_slice()) {
        return Err(Error::CommitmentMismatch);
    }
    if enforce_timelock && arguments.since_bound != 0 {
        check_since(arguments.since_bound, output_sinces)
    } else {
        Ok(())
    }
}

/// Any argument bytes of a length other than 20 or 28 are rejected as
/// `ArgumentsLen`, whatever the witness, the output slots and the
/// enforcement toggle hold.
pub proof fn lemma_arguments_len_rejected(
    args: Seq<u8>,
    witness_lock: Option<Seq<u8>>,
    output_sinces: Seq<u64>,
    enforce_timelock: bool,
)
    requires
        args.len() != 20,
        args.len() != 28,
    ensures
        spec_validate(args, witness_lock, output_sinces, enforce_timelock) == Err::<(), Error>(
            Error::ArgumentsLen,
        ),
{
}

/// With a 20-byte argument — a commitment alone — the decoded bound is
/// zero and the time-lock phase is skipped unconditionally: the output
/// slots' own values cannot fail the run, whatever they hold.
pub proof fn lemma_no_bound_skips_timelock(
    args: Seq<u8>,
    witness_lock: Option<Seq<u8>>,
    output_sinces: Seq<u64>,
    enforce_timelock: bool,
)
    requires
        args.len() == 20,
    ensures
        spec_validate(args, witness_lock, output_sinces, enforce_timelock) == spec_validate(
            args,
            witness_lock,
            Seq::<u64>::empty(),
            enforce_timelock,
        ),
{
}

} // verus!
