use chain_ledger::submit_proof;
use chain_ledger::verify_chain;
use chain_ledger::ErrorCode;
use chain_ledger::ProofData;
use sha2::Digest;
use sha2::Sha256;

fn pair_with_qualifying_link() -> ([u8; 32], [u8; 32]) {
    // Two data hashes, each clearing the submission target of three zero
    // bytes, whose joined digest clears the chain target of two.
    let mut prev_hash = [0x11u8; 32];
    prev_hash[0] = 0;
    prev_hash[1] = 0;
    prev_hash[2] = 0;
    let mut curr_hash = [0u8; 32];
    curr_hash[3] = 37;
    curr_hash[4] = 74;
    curr_hash[5] = 2;
    (prev_hash, curr_hash)
}

fn pair_without_qualifying_link() -> ([u8; 32], [u8; 32]) {
    let mut prev_hash = [0x22u8; 32];
    prev_hash[0] = 0;
    prev_hash[1] = 0;
    prev_hash[2] = 0;
    let mut curr_hash = [0x33u8; 32];
    curr_hash[0] = 0;
    curr_hash[1] = 0;
    curr_hash[2] = 0;
    (prev_hash, curr_hash)
}

#[test]
fn submit_proof_zero_hash_succeeds_for_any_nonce() {
    for nonce in [0u64, 1, 42, u64::MAX] {
        let r = submit_proof([7u8; 32], [0u8; 32], nonce, 100);
        let p = r.expect("zero hash clears the difficulty target");
        assert_eq!(p.owner, [7u8; 32]);
        assert_eq!(p.data_hash, [0u8; 32]);
        assert_eq!(p.nonce, nonce);
        assert_eq!(p.timestamp, 100);
        assert!(p.verified);
    }
}

#[test]
fn submit_proof_nonzero_first_byte_fails() {
    let mut h = [0u8; 32];
    h[0] = 1;
    let r = submit_proof([7u8; 32], h, 5, 100);
    assert_eq!(r.err(), Some(ErrorCode::InvalidProof));
}

#[test]
fn submit_proof_two_zero_bytes_still_fails() {
    let mut h = [0u8; 32];
    h[2] = 0xab;
    let r = submit_proof([7u8; 32], h, 5, 100);
    assert_eq!(r.err(), Some(ErrorCode::InvalidProof));
}

#[test]
fn verify_chain_rejects_out_of_order_timestamps() {
    // Even a pair whose joined digest clears the chain target fails when the
    // previous record is not strictly older.
    let (prev_hash, curr_hash) = pair_with_qualifying_link();
    let prev = submit_proof([1u8; 32], prev_hash, 1, 50).unwrap();
    let curr = submit_proof([2u8; 32], curr_hash, 2, 50).unwrap();
    assert_eq!(verify_chain(&prev, &curr).err(), Some(ErrorCode::InvalidChain));
    let older = submit_proof([2u8; 32], curr_hash, 2, 40).unwrap();
    assert_eq!(verify_chain(&prev, &older).err(), Some(ErrorCode::InvalidChain));
}

#[test]
fn verify_chain_accepts_qualifying_link() {
    let (prev_hash, curr_hash) = pair_with_qualifying_link();
    let mut joined = Vec::new();
    joined.extend_from_slice(&prev_hash);
    joined.extend_from_slice(&curr_hash);
    let chain_hash: [u8; 32] = Sha256::digest(&joined).into();
    assert_eq!(chain_hash[0], 0);
    assert_eq!(chain_hash[1], 0);
    let prev = submit_proof([1u8; 32], prev_hash, 1, 50).unwrap();
    let curr = submit_proof([2u8; 32], curr_hash, 2, 60).unwrap();
    assert_eq!(verify_chain(&prev, &curr), Ok(()));
}

#[test]
fn verify_chain_rejects_link_missing_difficulty() {
    let (prev_hash, curr_hash) = pair_without_qualifying_link();
    let mut joined = Vec::new();
    joined.extend_from_slice(&prev_hash);
    joined.extend_from_slice(&curr_hash);
    let chain_hash: [u8; 32] = Sha256::digest(&joined).into();
    assert!(chain_hash[0] != 0 || chain_hash[1] != 0);
    let prev = submit_proof([1u8; 32], prev_hash, 1, 50).unwrap();
    let curr = submit_proof([2u8; 32], curr_hash, 2, 60).unwrap();
    assert_eq!(verify_chain(&prev, &curr).err(), Some(ErrorCode::InvalidChain));
}

#[test]
fn verify_chain_leaves_records_readable() {
    // Verification is pure: it persists nothing and the records can be
    // checked again in any order with the same outcome.
    let (prev_hash, curr_hash) = pair_with_qualifying_link();
    let prev = submit_proof([1u8; 32], prev_hash, 1, 50).unwrap();
    let curr = submit_proof([2u8; 32], curr_hash, 2, 60).unwrap();
    assert_eq!(verify_chain(&prev, &curr), Ok(()));
    assert_eq!(verify_chain(&prev, &curr), Ok(()));
    assert_eq!(verify_chain(&curr, &prev).err(), Some(ErrorCode::InvalidChain));
}

#[test]
fn stored_nonce_is_not_rehashed() {
    // The gap the design keeps open: the nonce is stored as asserted, never
    // checked against the data hash, so contradictory nonces both pass.
    let a: ProofData = submit_proof([7u8; 32], [0u8; 32], 1, 100).unwrap();
    let b: ProofData = submit_proof([7u8; 32], [0u8; 32], 2, 100).unwrap();
    assert_eq!(a.data_hash, b.data_hash);
    assert_ne!(a.nonce, b.nonce);
    assert!(a.verified && b.verified);
}
