use ckb_multisig::error::Error;
use ckb_multisig::hasher::compute_commitment;
use ckb_multisig::validate::validate;

const EPOCH_FLAG: u64 = 0x20;
const TIMESTAMP_FLAG: u64 = 0x40;

fn descriptor_bytes(require_first_n: u8, threshold: u8, pubkey_count: u8) -> Vec<u8> {
    let mut bytes = vec![0u8, require_first_n, threshold, pubkey_count];
    for k in 0..pubkey_count as usize * 20 {
        bytes.push((k % 251) as u8);
    }
    for k in 0..threshold as usize * 65 {
        bytes.push((k % 249) as u8);
    }
    bytes
}

fn commitment_for(witness: &[u8], pubkey_count: u8) -> Vec<u8> {
    compute_commitment(&witness[..4 + 20 * pubkey_count as usize])
}

fn epoch_value(number: u64, index: u64, length: u64) -> u64 {
    number | (index << 24) | (length << 40)
}

fn since(flags: u64, value: u64) -> u64 {
    (flags << 56) | value
}

fn args_with_bound(commitment: &[u8], bound: u64) -> Vec<u8> {
    let mut args = commitment.to_vec();
    args.extend_from_slice(&bound.to_le_bytes());
    args
}

#[test]
fn matching_commitment_authorizes() {
    let witness = descriptor_bytes(1, 2, 3);
    let args = commitment_for(&witness, 3);
    assert_eq!(validate(&args, Some(&witness), &[], true), Ok(()));
}

#[test]
fn flipped_key_hash_byte_fails_commitment() {
    let witness = descriptor_bytes(1, 2, 3);
    let args = commitment_for(&witness, 3);
    let mut tampered = witness.clone();
    tampered[10] ^= 0x01; // inside the key-hash region
    assert_eq!(
        validate(&args, Some(&tampered), &[], true),
        Err(Error::CommitmentMismatch)
    );
}

#[test]
fn bad_argument_lengths_rejected_before_anything_else() {
    let witness = descriptor_bytes(1, 2, 3);
    for len in [0usize, 19, 21, 27, 29] {
        let args = vec![0u8; len];
        assert_eq!(
            validate(&args, Some(&witness), &[], true),
            Err(Error::ArgumentsLen)
        );
    }
}

#[test]
fn missing_witness_rejected() {
    let args = vec![0u8; 20];
    assert_eq!(validate(&args, None, &[], true), Err(Error::WitnessSize));
}

#[test]
fn commitment_only_arguments_skip_since_enforcement() {
    // 20-byte arguments: no bound, so even immature outputs pass.
    let witness = descriptor_bytes(1, 2, 3);
    let args = commitment_for(&witness, 3);
    let sinces = [since(0, 999_999), since(TIMESTAMP_FLAG, 7), since(EPOCH_FLAG, 1)];
    assert_eq!(validate(&args, Some(&witness), &sinces, true), Ok(()));
}

#[test]
fn zero_bound_in_28_byte_arguments_skips_since_enforcement() {
    let witness = descriptor_bytes(1, 2, 3);
    let args = args_with_bound(&commitment_for(&witness, 3), 0);
    let sinces = [since(TIMESTAMP_FLAG, 7)];
    assert_eq!(validate(&args, Some(&witness), &sinces, true), Ok(()));
}

#[test]
fn epoch_fraction_bound_met_by_later_fraction() {
    // Bound 10 + 1/4; the output slot stands at 10 + 1/2.
    let witness = descriptor_bytes(1, 2, 3);
    let bound = since(EPOCH_FLAG, epoch_value(10, 1, 4));
    let args = args_with_bound(&commitment_for(&witness, 3), bound);
    let sinces = [since(EPOCH_FLAG, epoch_value(10, 1, 2))];
    assert_eq!(validate(&args, Some(&witness), &sinces, true), Ok(()));
}

#[test]
fn epoch_fraction_bound_unmet_rejected() {
    // Bound 10 + 1/2; the output slot stands at 10 + 1/4.
    let witness = descriptor_bytes(1, 2, 3);
    let bound = since(EPOCH_FLAG, epoch_value(10, 1, 2));
    let args = args_with_bound(&commitment_for(&witness, 3), bound);
    let sinces = [since(EPOCH_FLAG, epoch_value(10, 1, 4))];
    assert_eq!(
        validate(&args, Some(&witness), &sinces, true),
        Err(Error::IncorrectSinceValue)
    );
}

#[test]
fn mismatched_since_flags_rejected() {
    // Block-number bound against a timestamp output slot.
    let witness = descriptor_bytes(1, 2, 3);
    let bound = since(0, 5);
    let args = args_with_bound(&commitment_for(&witness, 3), bound);
    let sinces = [since(TIMESTAMP_FLAG, 1_000_000)];
    assert_eq!(
        validate(&args, Some(&witness), &sinces, true),
        Err(Error::IncorrectSinceFlags)
    );
}

#[test]
fn block_number_bound_unmet_rejected() {
    let witness = descriptor_bytes(1, 2, 3);
    let args = args_with_bound(&commitment_for(&witness, 3), since(0, 10));
    let sinces = [since(0, 5)];
    assert_eq!(
        validate(&args, Some(&witness), &sinces, true),
        Err(Error::IncorrectSinceValue)
    );
}

#[test]
fn disabled_enforcement_ignores_since_entirely() {
    let witness = descriptor_bytes(1, 2, 3);
    let args = args_with_bound(&commitment_for(&witness, 3), since(0, 10));
    let sinces = [since(TIMESTAMP_FLAG, 1)];
    assert_eq!(validate(&args, Some(&witness), &sinces, false), Ok(()));
    assert_eq!(
        validate(&args, Some(&witness), &sinces, true),
        Err(Error::IncorrectSinceFlags)
    );
}

#[test]
fn descriptor_errors_surface_through_validation() {
    let witness = descriptor_bytes(0, 3, 2);
    let args = vec![0u8; 20];
    assert_eq!(
        validate(&args, Some(&witness), &[], true),
        Err(Error::ThresholdExceedsPubkeyCount)
    );

    let short = descriptor_bytes(1, 2, 3);
    assert_eq!(
        validate(&args, Some(&short[..193]), &[], true),
        Err(Error::DescriptorLengthMismatch)
    );
}
