use ckb_multisig::hasher::compute_commitment;

#[test]
fn same_prefix_hashes_to_same_commitment() {
    let prefix: Vec<u8> = (0u8..64).collect();
    let first = compute_commitment(&prefix);
    let second = compute_commitment(&prefix);
    assert_eq!(first, second);
    assert_eq!(first.len(), 20);
}

#[test]
fn changed_key_hash_byte_changes_commitment() {
    let prefix: Vec<u8> = (0u8..64).collect();
    let baseline = compute_commitment(&prefix);
    for position in 4..64usize {
        let mut tampered = prefix.clone();
        tampered[position] ^= 0x01;
        assert_ne!(compute_commitment(&tampered), baseline);
    }
}

#[test]
fn commitment_is_leading_bytes_of_blake2b_digest() {
    let prefix: Vec<u8> = (0u8..64).map(|b| b.wrapping_mul(3)).collect();
    let mut digest = [0u8; 32];
    let mut hasher = blake2b_ref::Blake2bBuilder::new(32).build();
    hasher.update(&prefix);
    hasher.finalize(&mut digest);
    assert_eq!(compute_commitment(&prefix), digest[..20].to_vec());
}

#[test]
fn commitment_of_empty_prefix_is_not_input_echo() {
    // The digest of an empty input is a fixed nonzero value, so the
    // hasher cannot be handing its input back.
    let empty: Vec<u8> = Vec::new();
    let commitment = compute_commitment(&empty);
    assert_eq!(commitment.len(), 20);
    assert_ne!(commitment, vec![0u8; 20]);
}
