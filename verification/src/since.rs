//! Relative time-lock (`since`) values and their comparison.
//!
//! A `since` value is a 64-bit unsigned integer whose top byte carries the
//! encoding flags and whose low 56 bits carry the value. When the flags
//! denote the epoch-fraction encoding, the value itself packs three
//! sub-fields, `number + index/length` epochs, and two values are compared
//! by epoch number first and then by cross-multiplied fractions, avoiding
//! any division.

use vstd::prelude::*;

use crate::error::Error;

verus! {

/// Number of low bits of a `since` value that carry the value proper.
pub const SINCE_VALUE_BITS: u64 = 56;

/// Mask selecting the low 56 value bits of a `since` value.
pub const SINCE_VALUE_MASK: u64 = 0x00ff_ffff_ffff_ffff;

/// Flag byte denoting the epoch-fraction encoding of the value bits.
pub const SINCE_EPOCH_FRACTION_FLAG: u64 = 0b0010_0000;

/// Mask selecting the 24-bit epoch `number` once shifted into place.
pub const EPOCH_NUMBER_MASK: u64 = 0x00ff_ffff;

/// Bit offset of the 16-bit epoch `index` sub-field.
pub const EPOCH_INDEX_OFFSET: u64 = 24;

/// Mask selecting the 16-bit epoch `index` once shifted into place.
pub const EPOCH_INDEX_MASK: u64 = 0xffff;

/// Bit offset of the 16-bit epoch `length` sub-field.
pub const EPOCH_LENGTH_OFFSET: u64 = 40;

/// Mask selecting the 16-bit epoch `length` once shifted into place.
pub const EPOCH_LENGTH_MASK: u64 = 0xffff;

/// The flag byte of a `since` value: its top 8 bits.
pub open spec fn since_flags(s: u64) -> u64 {
    s >> SINCE_VALUE_BITS
}

/// The value bits of a `since` value: its low 56 bits.
pub open spec fn since_value(s: u64) -> u64 {
    s & SINCE_VALUE_MASK
}

/// The epoch number packed into the low 24 bits of an epoch-fraction value.
pub open spec fn epoch_number(v: u64) -> u64 {
    v & EPOCH_NUMBER_MASK
}

/// The fraction numerator packed into bits 24..40 of an epoch-fraction value.
pub open spec fn epoch_index(v: u64) -> u64 {
    (v >> EPOCH_INDEX_OFFSET) & EPOCH_INDEX_MASK
}

/// The fraction denominator packed into bits 40..56 of an epoch-fraction value.
pub open spec fn epoch_length(v: u64) -> u64 {
    (v >> EPOCH_LENGTH_OFFSET) & EPOCH_LENGTH_MASK
}

/// Three-way comparison of two epoch-fraction values: the epoch numbers
/// decide first, and on equal numbers the fractions `index/length` are
/// compared by cross-multiplication, `a.index * b.length` against
/// `b.index * a.length`.
pub open spec fn spec_epoch_cmp(a: u64, b: u64) -> int {
    if epoch_number(a) < epoch_number(b) {
        -1
    } else if epoch_number(a) > epoch_number(b) {
        1
    } else {
        let a_block = epoch_index(a) as int * epoch_length(b) as int;
        let b_block = epoch_index(b) as int * epoch_length(a) as int;
        if a_block < b_block {
            -1
        } else if a_block > b_block {
            1
        } else {
            0
        }
    }
}

/// Compares two epoch-fraction `since` values `a` and `b`.
/// Returns -1 if `a` is less mature than `b`, 0 if they are equally mature,
/// and 1 if `a` is more mature than `b`.
pub fn epoch_number_with_fraction_cmp(a: u64, b: u64) -> (r: i32)
    ensures
        r as int == spec_epoch_cmp(a, b),
{
    let a_number = a & EPOCH_NUMBER_MASK;
    let a_index = (a >> EPOCH_INDEX_OFFSET) & EPOCH_INDEX_MASK;
    let a_length = (a >> EPOCH_LENGTH_OFFSET) & EPOCH_LENGTH_MASK;

    let b_number = b & EPOCH_NUMBER_MASK;
    let b_index = (b >> EPOCH_INDEX_OFFSET) & EPOCH_INDEX_MASK;
    let b_length = (b >> EPOCH_LENGTH_OFFSET) & EPOCH_LENGTH_MASK;

    if a_number < b_number {
        -1
    } else if a_number > b_number {
        1
    } else {
        proof {
            assert((a >> EPOCH_INDEX_OFFSET) & EPOCH_INDEX_MASK <= 0xffff) by (bit_vector);
            assert((b >> EPOCH_INDEX_OFFSET) & EPOCH_INDEX_MASK <= 0xffff) by (bit_vector);
            assert((a >> EPOCH_LENGTH_OFFSET) & EPOCH_LENGTH_MASK <= 0xffff) by (bit_vector);
            assert((b >> EPOCH_LENGTH_OFFSET) & EPOCH_LENGTH_MASK <= 0xffff) by (bit_vector);
            assert(a_index * b_length <= 0xffff * 0xffff) by (nonlinear_arith)
                requires
                    a_index <= 0xffff,
                    b_length <= 0xffff,
            ;
            assert(b_index * a_length <= 0xffff * 0xffff) by (nonlinear_arith)
                requires
                    b_index <= 0xffff,
                    a_length <= 0xffff,
            ;
        }
        let a_block = a_index * b_length;
        let b_block = b_index * a_length;
        if a_block < b_block {
            -1
        } else if a_block > b_block {
            1
        } else {
            0
        }
    }
}

/// Every epoch-fraction value compares equal to itself.
pub proof fn lemma_epoch_cmp_reflexive(a: u64)
    ensures
        spec_epoch_cmp(a, a) == 0,
{
}

/// The comparator flips its sign when its operands are swapped, so the
/// order it induces on epoch-fraction values is antisymmetric.
pub proof fn lemma_epoch_cmp_antisymmetric(a: u64, b: u64)
    ensures
        spec_epoch_cmp(a, b) == -spec_epoch_cmp(b, a),
{
}

/// The order induced by the comparator is transitive, provided the middle
/// operand's fraction denominator is nonzero (a zero `length` makes the
/// cross-multiplication rule degenerate and is excluded).
pub proof fn lemma_epoch_cmp_transitive(a: u64, b: u64, c: u64)
    requires
        epoch_length(b) != 0,
        spec_epoch_cmp(a, b) <= 0,
        spec_epoch_cmp(b, c) <= 0,
    ensures
        spec_epoch_cmp(a, c) <= 0,
{
    if epoch_number(a) == epoch_number(b) && epoch_number(b) == epoch_number(c) {
        let ia = epoch_index(a) as int;
        let ib = epoch_index(b) as int;
        let ic = epoch_index(c) as int;
        let la = epoch_length(a) as int;
        let lb = epoch_length(b) as int;
        let lc = epoch_length(c) as int;
        assert(ia * lc <= ic * la) by (nonlinear_arith)
            requires
                ia * lb <= ib * la,
                ib * lc <= ic * lb,
                lb > 0,
                ia >= 0,
                ib >= 0,
                ic >= 0,
                la >= 0,
                lc >= 0,
        ;
    }
}

/// Whether a candidate `since` value is at least as mature as a bound of
/// the same flavor: under the epoch-fraction flag the comparator decides,
/// otherwise the value bits are compared as plain unsigned integers.
pub open spec fn spec_since_satisfies(candidate: u64, bound: u64) -> bool
    recommends
        since_flags(candidate) == since_flags(bound),
{
    if since_flags(candidate) == SINCE_EPOCH_FRACTION_FLAG {
        spec_epoch_cmp(since_value(candidate), since_value(bound)) >= 0
    } else {
        since_value(candidate) >= since_value(bound)
    }
}

/// Whether `candidate` is at least as mature as `bound`. The two must be of
/// the same flavor; mixing flavors is meaningless and rejected upstream.
pub fn since_satisfies(candidate: u64, bound: u64) -> (r: bool)
    requires
        since_flags(candidate) == since_flags(bound),
    ensures
        r == spec_since_satisfies(candidate, bound),
{
    let candidate_flags = candidate >> SINCE_VALUE_BITS;
    let candidate_value = candidate & SINCE_VALUE_MASK;
    let bound_value = bound & SINCE_VALUE_MASK;
    if candidate_flags == SINCE_EPOCH_FRACTION_FLAG {
        epoch_number_with_fraction_cmp(candidate_value, bound_value) >= 0
    } else {
        candidate_value >= bound_value
    }
}

/// The outcome of holding one output slot's `since` value against the bound:
/// differing flags are rejected outright, a less mature value is rejected,
/// and anything at least as mature as the bound passes.
pub open spec fn spec_check_since_pair(candidate: u64, bound: u64) -> Result<(), Error> {
    if since_flags(candidate) != since_flags(bound) {
        Err(Error::IncorrectSinceFlags)
    } else if !spec_since_satisfies(candidate, bound) {
        Err(Error::IncorrectSinceValue)
    } else {
        Ok(())
    }
}

/// Holds one output slot's `since` value against the bound.
pub fn check_since_pair(candidate: u64, bound: u64) -> (r: Result<(), Error>)
    ensures
        r == spec_check_since_pair(candidate, bound),
{
    if (candidate >> SINCE_VALUE_BITS) != (bound >> SINCE_VALUE_BITS) {
        Err(Error::IncorrectSinceFlags)
    } else if !since_satisfies(candidate, bound) {
        Err(Error::IncorrectSinceValue)
    } else {
        Ok(())
    }
}

/// The outcome of holding every output slot's `since` value against the
/// bound, in slot order: the first failing slot decides, and an empty
/// sequence of slots passes.
pub open spec fn spec_check_since(bound: u64, sinces: Seq<u64>) -> Result<(), Error>
    decreases sinces.len(),
{
    if sinces.len() == 0 {
        Ok(())
    } else if spec_check_since_pair(sinces[0], bound) is Err {
        spec_check_since_pair(sinces[0], bound)
    } else {
        spec_check_since(bound, sinces.skip(1))
    }
}

/// Holds every output slot's `since` value against the bound, in slot
/// order, and reports the first violation.
pub fn check_since(bound: u64, sinces: &[u64]) -> (r: Result<(), Error>)
    ensures
        r == spec_check_since(bound, sinces@),
{
    let ghost all = sinces@;
    proof {
        assert(all.skip(0) =~= all);
    }
    let mut i: usize = 0;
    while i < sinces.len()
        invariant
            0 <= i <= all.len(),
            all == sinces@,
            spec_check_since(bound, all) == spec_check_since(bound, all.skip(i as int)),
        decreases all.len() - i,
    {
        proof {
            assert(all.skip(i as int)[0] == all[i as int]);
            assert(all.skip(i as int).skip(1) =~= all.skip(i as int + 1));
        }
        let pair = check_since_pair(sinces[i], bound);
        if pair.is_err() {
            return pair;
        }
        i += 1;
    }
    Ok(())
}

} // verus!
