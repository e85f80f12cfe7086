use pso_vdf::params::VdfParams;
use pso_vdf::types::VdfInput;
use sha2::{Digest, Sha256};

#[test]
fn derive_input_is_deterministic() {
    let p = VdfParams::new([0xab; 20], 7, 100, 19280501, 1_000_000);
    assert_eq!(p.derive_input(), p.derive_input());
}

#[test]
fn different_signers_produce_different_inputs() {
    let a = VdfParams::new([0x01; 20], 0, 100, 19280501, 1_000_000);
    let b = VdfParams::new([0x02; 20], 0, 100, 19280501, 1_000_000);
    assert_ne!(a.derive_input(), b.derive_input());
}

#[test]
fn different_nonces_produce_different_inputs() {
    let a = VdfParams::new([0x01; 20], 0, 100, 19280501, 1_000_000);
    let b = VdfParams::new([0x01; 20], 1, 100, 19280501, 1_000_000);
    assert_ne!(a.derive_input(), b.derive_input());
}

#[test]
fn different_chain_ids_produce_different_inputs() {
    let a = VdfParams::new([0x01; 20], 0, 100, 19280501, 1_000_000);
    let b = VdfParams::new([0x01; 20], 0, 100, 19280502, 1_000_000);
    assert_ne!(a.derive_input(), b.derive_input());
}

#[test]
fn block_validity_window() {
    // current_block=100, window=32: accept submitted_block in [68, 100]
    assert!(VdfParams::is_block_valid(100, 100, 32)); // delta=0
    assert!(VdfParams::is_block_valid(68, 100, 32)); // delta=32 (boundary)
    assert!(!VdfParams::is_block_valid(67, 100, 32)); // delta=33, too old
    assert!(!VdfParams::is_block_valid(101, 100, 32)); // future block
}

#[test]
fn derive_input_matches_sha256_of_preimage() {
    let signer = [0x5a; 20];
    let p = VdfParams::new(signer, 0x0102030405060708, 42, 19280501, 9);
    let mut hasher = Sha256::new();
    hasher.update(signer);
    hasher.update(0x0102030405060708u64.to_le_bytes());
    hasher.update(42u64.to_le_bytes());
    hasher.update(19280501u64.to_le_bytes());
    let expected: [u8; 32] = hasher.finalize().into();
    assert_eq!(p.derive_input(), VdfInput::from_bytes(expected));
    assert_eq!(
        VdfParams::derive_input_from(signer, 0x0102030405060708, 42, 19280501),
        VdfInput::from_bytes(expected)
    );
}

#[test]
fn different_blocks_produce_different_inputs() {
    let a = VdfParams::new([0x01; 20], 0, 100, 19280501, 1_000_000);
    let b = VdfParams::new([0x01; 20], 0, 101, 19280501, 1_000_000);
    assert_ne!(a.derive_input(), b.derive_input());
}

#[test]
fn new_keeps_fields() {
    let p = VdfParams::new([3; 20], 1, 2, 3, 4);
    assert_eq!(p.signer, [3; 20]);
    assert_eq!((p.nonce, p.submitted_block, p.chain_id, p.difficulty), (1, 2, 3, 4));
}

#[test]
fn block_validity_no_underflow() {
    assert!(!VdfParams::is_block_valid(u64::MAX, 0, u64::MAX));
    assert!(VdfParams::is_block_valid(0, u64::MAX, u64::MAX));
}
