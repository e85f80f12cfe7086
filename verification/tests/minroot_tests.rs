use ark_bls12_381::Fq;
use ark_ff::PrimeField;
use pso_vdf::error::VdfError;
use pso_vdf::field::FieldElement;
use pso_vdf::minroot::{
    compute_inv5_exponent, single_forward_iteration, single_iteration, verify_forward,
    MinRootProof, MinRootVdf,
};
use pso_vdf::types::{VdfInput, VdfOutput};
use pso_vdf::Vdf;

fn fe(val: u64) -> FieldElement {
    let mut bytes = [0u8; 32];
    bytes[..8].copy_from_slice(&val.to_le_bytes());
    FieldElement::from_le_bytes_mod_order(&bytes)
}

#[test]
fn inv5_exponent_is_nonzero() {
    let e = compute_inv5_exponent();
    assert!(
        e.limbs.iter().any(|&limb| limb != 0),
        "inv5 exponent must be nonzero"
    );
}

#[test]
fn p_mod_5_is_2() {
    // Sanity check our assumption about the BLS12-381 prime.
    let p = <Fq as PrimeField>::MODULUS;
    let mut rem = 0u128;
    for i in (0..6).rev() {
        rem = (rem << 64) | u128::from(p.0[i]);
        rem %= 5;
    }
    assert_eq!(rem, 2, "BLS12-381 Fq prime must be == 2 (mod 5)");
}

#[test]
fn fifth_root_roundtrip() {
    let x = fe(42);
    let inv5 = compute_inv5_exponent();
    let root = x.pow(&inv5.limbs);
    let restored = single_forward_iteration(root);
    assert_eq!(x, restored, "x^(e) raised to 5th power must return x");
}

#[test]
fn fifth_root_roundtrip_multiple_values() {
    let inv5 = compute_inv5_exponent();
    for val in [1u64, 2, 7, 1337, u64::MAX] {
        let x = fe(val);
        let root = x.pow(&inv5.limbs);
        let restored = single_forward_iteration(root);
        assert_eq!(x, restored, "roundtrip failed for val={val}");
    }
}

#[test]
fn fifth_root_of_one_is_one() {
    let inv5 = compute_inv5_exponent();
    let one = fe(1);
    let root = one.pow(&inv5.limbs);
    assert_eq!(root, one, "fifth root of 1 must be 1");
}

#[test]
fn eval_produces_deterministic_output() {
    let input = VdfInput::from_bytes([0xabu8; 32]);
    let t = 100u64;
    let (out1, _) = MinRootVdf::eval(&input, t);
    let (out2, _) = MinRootVdf::eval(&input, t);
    assert_eq!(out1, out2, "eval must be deterministic");
}

#[test]
fn different_inputs_give_different_outputs() {
    let a = VdfInput::from_bytes([0x01u8; 32]);
    let b = VdfInput::from_bytes([0x02u8; 32]);
    let t = 100u64;

    let (out_a, _) = MinRootVdf::eval(&a, t);
    let (out_b, _) = MinRootVdf::eval(&b, t);
    assert_ne!(out_a, out_b);
}

#[test]
fn different_difficulties_give_different_outputs() {
    let input = VdfInput::from_bytes([0xffu8; 32]);
    let (out1, _) = MinRootVdf::eval(&input, 50);
    let (out2, _) = MinRootVdf::eval(&input, 100);
    assert_ne!(out1, out2);
}

#[test]
fn eval_verify_roundtrip() {
    let input = VdfInput::from_bytes([0xdeu8; 32]);
    let t = 100u64;
    let (output, proof) = MinRootVdf::eval(&input, t);
    assert!(MinRootVdf::verify(&input, &output, &proof, t));
}

#[test]
fn verify_rejects_wrong_output() {
    let input = VdfInput::from_bytes([0xdeu8; 32]);
    let t = 100u64;
    let (_output, proof) = MinRootVdf::eval(&input, t);
    let wrong_output = VdfOutput::from_bytes(vec![0u8; 48]);
    assert!(!MinRootVdf::verify(&input, &wrong_output, &proof, t));
}

#[test]
fn verify_rejects_wrong_difficulty() {
    let input = VdfInput::from_bytes([0xdeu8; 32]);
    let (output, proof) = MinRootVdf::eval(&input, 100);
    assert!(!MinRootVdf::verify(&input, &output, &proof, 50));
}

#[test]
fn verify_rejects_wrong_proof() {
    let input = VdfInput::from_bytes([0xdeu8; 32]);
    let t = 100u64;
    let (output, _proof) = MinRootVdf::eval(&input, t);
    let wrong_proof = MinRootProof {
        inner: vec![0u8; 48],
    };
    assert!(!MinRootVdf::verify(&input, &output, &wrong_proof, t));
}

#[test]
fn forward_verification_matches_eval() {
    let input = VdfInput::from_bytes([0xabu8; 32]);
    let t = 100u64;
    let (output, _) = MinRootVdf::eval(&input, t);
    assert!(verify_forward(&input, &output, t));
}

#[test]
fn forward_verification_rejects_wrong_output() {
    let input = VdfInput::from_bytes([0xabu8; 32]);
    let wrong_output = VdfOutput::from_bytes(vec![0u8; 48]);
    assert!(!verify_forward(&input, &wrong_output, 100));
}

#[test]
fn verify_zero_difficulty_returns_false() {
    let input = VdfInput::from_bytes([0x01u8; 32]);
    let output = VdfOutput::from_bytes(vec![0u8; 48]);
    let proof = MinRootProof {
        inner: vec![0u8; 48],
    };
    assert!(!MinRootVdf::verify(&input, &output, &proof, 0));
}

#[test]
fn wesolowski_verify_cross_check_with_forward() {
    // Both Wesolowski O(1) verify and O(T) forward verify should agree.
    let input = VdfInput::from_bytes([0x42u8; 32]);
    let t = 50u64;
    let (output, proof) = MinRootVdf::eval(&input, t);

    assert!(MinRootVdf::verify(&input, &output, &proof, t));
    assert!(verify_forward(&input, &output, t));
}

#[test]
fn proof_is_48_bytes() {
    let input = VdfInput::from_bytes([0xabu8; 32]);
    let (_output, proof) = MinRootVdf::eval(&input, 10);
    assert_eq!(
        proof.inner.len(),
        48,
        "Wesolowski proof must be 48 bytes (one Fq element)"
    );
}

#[test]
fn output_is_48_bytes() {
    let input = VdfInput::from_bytes([0x11u8; 32]);
    let (output, _) = MinRootVdf::eval(&input, 3);
    assert_eq!(output.0.len(), VdfOutput::MINROOT_LEN);
}

#[test]
fn inv5_exponent_times_five() {
    // 5 * e = 4 * p - 3, checked with the limbs of e and p.
    let e = compute_inv5_exponent();
    let p = <Fq as PrimeField>::MODULUS.0;
    let mut carry = 0u128;
    let mut five_e_plus_3 = [0u64; 7];
    for i in 0..6 {
        let wide = u128::from(e.limbs[i]) * 5 + carry + if i == 0 { 3 } else { 0 };
        five_e_plus_3[i] = wide as u64;
        carry = wide >> 64;
    }
    five_e_plus_3[6] = carry as u64;
    let mut carry4 = 0u128;
    let mut four_p = [0u64; 7];
    for i in 0..6 {
        let wide = u128::from(p[i]) * 4 + carry4;
        four_p[i] = wide as u64;
        carry4 = wide >> 64;
    }
    four_p[6] = carry4 as u64;
    assert_eq!(five_e_plus_3, four_p);
}

#[test]
fn single_iteration_is_fifth_root() {
    let x = fe(12345);
    let root = single_iteration(x);
    assert_eq!(single_forward_iteration(root), x);
    // 2^5 = 32
    assert_eq!(single_forward_iteration(fe(2)), fe(32));
}

#[test]
fn verify_rejects_short_output_and_proof() {
    let input = VdfInput::from_bytes([0x05u8; 32]);
    let (output, proof) = MinRootVdf::eval(&input, 5);
    let short_output = VdfOutput::from_bytes(output.0[..47].to_vec());
    assert!(!MinRootVdf::verify(&input, &short_output, &proof, 5));
    let short_proof = MinRootProof {
        inner: proof.inner[..47].to_vec(),
    };
    assert!(!MinRootVdf::verify(&input, &output, &short_proof, 5));
    // Trailing bytes after the first 48 are not read.
    let mut long_output = output.0.clone();
    long_output.push(7);
    assert!(MinRootVdf::verify(&input, &VdfOutput::from_bytes(long_output), &proof, 5));
}

#[test]
fn verify_rejects_non_canonical_output() {
    // p itself is not a canonical encoding.
    let input = VdfInput::from_bytes([0x05u8; 32]);
    let (_output, proof) = MinRootVdf::eval(&input, 5);
    let p = <Fq as PrimeField>::MODULUS.0;
    let mut bytes = Vec::new();
    for limb in p {
        bytes.extend_from_slice(&limb.to_le_bytes());
    }
    assert!(!MinRootVdf::verify(&input, &VdfOutput::from_bytes(bytes.clone()), &proof, 5));
    assert_eq!(
        FieldElement::deserialize_compressed(&bytes),
        Err(VdfError::Serialisation)
    );
}

#[test]
fn checked_eval_and_verify_agree() {
    let input = VdfInput::from_bytes([0x33u8; 32]);
    assert!(MinRootVdf::checked_eval(&input, 0).is_none());
    let (output, proof) = MinRootVdf::checked_eval(&input, 7).unwrap();
    assert_eq!((output.clone(), proof.clone()), MinRootVdf::eval(&input, 7));
    assert_eq!(
        MinRootVdf::checked_verify(&input, &output, &proof, 7),
        Some(true)
    );
    assert_eq!(
        MinRootVdf::checked_verify(&input, &output, &proof, 0),
        Some(false)
    );
}

#[test]
fn min_root_proof_from_bytes() {
    assert_eq!(
        MinRootProof::from_bytes(vec![]),
        Err(VdfError::MalformedProof {
            reason: "empty proof bytes"
        })
    );
    assert_eq!(
        MinRootProof::from_bytes(vec![1, 2, 3]),
        Err(VdfError::MalformedProof {
            reason: "proof must be 48 bytes"
        })
    );
    assert_eq!(
        MinRootProof::from_bytes(vec![7u8; 49]),
        Err(VdfError::MalformedProof {
            reason: "proof must be 48 bytes"
        })
    );
    let p = MinRootProof::from_bytes(vec![7u8; 48]).unwrap();
    assert_eq!(p.inner, vec![7u8; 48]);
}

#[test]
fn serialization_roundtrip() {
    let x = fe(0xdead_beef);
    let bytes = x.serialize_compressed();
    assert_eq!(bytes.len(), 48);
    assert_eq!(&bytes[..4], &[0xef, 0xbe, 0xad, 0xde]);
    assert_eq!(FieldElement::deserialize_compressed(&bytes), Ok(x));
}

#[test]
fn eval_with_one_step_is_fifth_root() {
    let input = VdfInput::from_bytes([0x09u8; 32]);
    let (output, _) = MinRootVdf::eval(&input, 1);
    let x = FieldElement::from_le_bytes_mod_order(&[0x09u8; 32]);
    assert_eq!(output.0, single_iteration(x).serialize_compressed());
}
