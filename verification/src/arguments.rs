//! The on-chain committed arguments: a 20-byte policy commitment,
//! optionally followed by an 8-byte little-endian relative time-lock bound.

use vstd::prelude::*;

use crate::descriptor::BLAKE160_SIZE;
use crate::error::Error;

verus! {

/// Size in bytes of the optional little-endian time-lock bound.
pub const SINCE_BOUND_SIZE: usize = 8;

/// The decoded on-chain arguments.
#[derive(Debug, Clone, PartialEq, Eq)]
pub struct Arguments {
    /// The 20-byte policy commitment the descriptor must hash to.
    pub policy_commitment: Vec<u8>,
    /// The relative time-lock bound; zero means no time-lock is required.
    pub since_bound: u64,
}

/// The mathematical model of the decoded arguments.
pub ghost struct ArgumentsView {
    pub policy_commitment: Seq<u8>,
    pub since_bound: u64,
}

impl View for Arguments {
    type V = ArgumentsView;

    open spec fn view(&self) -> ArgumentsView {
        ArgumentsView {
            policy_commitment: self.policy_commitment@,
            since_bound: self.since_bound,
        }
    }
}

/// Decoding of the raw argument bytes: exactly 20 bytes are the commitment
/// alone with a zero bound, exactly 28 bytes append the bound in little
/// endian, and every other length is rejected.
pub open spec fn spec_decode_arguments(s: Seq<u8>) -> Result<ArgumentsView, Error> {
    if s.len() != BLAKE160_SIZE && s.len() != BLAKE160_SIZE + SINCE_BOUND_SIZE {
        Err(Error::ArgumentsLen)
    } else {
        Ok(
            ArgumentsView {
                policy_commitment: s.take(BLAKE160_SIZE as int),
                since_bound: if s.len() == BLAKE160_SIZE + SINCE_BOUND_SIZE {
                    vstd::bytes::spec_u64_from_le_bytes(s.skip(BLAKE160_SIZE as int))
                } else {
                    0
                },
            },
        )
    }
}

/// Decodes the on-chain argument bytes.
pub fn decode_arguments(args: &[u8]) -> (r: Result<Arguments, Error>)
    ensures
        match r {
            Ok(a) => spec_decode_arguments(args@) == Ok::<ArgumentsView, Error>(a@),
            Err(e) => spec_decode_arguments(args@) == Err::<ArgumentsView, Error>(e),
        },
{
    if args.len() != BLAKE160_SIZE && args.len() != BLAKE160_SIZE + SINCE_BOUND_SIZE {
        return Err(Error::ArgumentsLen);
    }
    let policy_commitment = vstd::slice::slice_to_vec(
        vstd::slice::slice_subrange(args, 0, BLAKE160_SIZE),
    );
    let since_bound: u64 = if args.len() == BLAKE160_SIZE + SINCE_BOUND_SIZE {
        vstd::bytes::u64_from_le_bytes(
            vstd::slice::slice_subrange(args, BLAKE160_SIZE, BLAKE160_SIZE + SINCE_BOUND_SIZE),
        )
    } else {
        0
    };
    proof {
        if args@.len() == BLAKE160_SIZE + SINCE_BOUND_SIZE {
            assert(args@.subrange(BLAKE160_SIZE as int, (BLAKE160_SIZE + SINCE_BOUND_SIZE) as int)
                =~= args@.skip(BLAKE160_SIZE as int));
        }
        assert(args@.subrange(0, BLAKE160_SIZE as int) =~= args@.take(BLAKE160_SIZE as int));
    }
    Ok(Arguments { policy_commitment, since_bound })
}

} // verus!
