//! MinRoot VDF over the BLS12-381 base field (Fp) with Wesolowski O(1) verification.
//!
//! ## Algorithm outline
//!
//! MinRoot is defined as iterated application of the "fifth-root" map in Fp:
//!
//! ```text
//! x_{i+1} = x_i^(1/5)  mod p     (where p is the BLS12-381 base field prime)
//! ```
//!
//! Since `gcd(5, p-1) = 1` for the BLS12-381 prime (p = 2 mod 5, so p-1 = 1
//! mod 5), the fifth root is a permutation of Fp and the inverse exponent
//! `e = (4p - 3) / 5` is well-defined.
//!
//! After `T` iterations the output is `y = x_T`.
//!
//! ## Wesolowski proof
//!
//! T iterations of `f(x) = x^e` equal a single exponentiation `y = x^E`
//! where `E = e^T mod (p-1)`. This enables a Wesolowski proof:
//!
//! - Prover computes `pi = x^floor(E/l)` where `l = hash_to_prime(x, y)`
//! - Verifier checks `pi^l * x^r == y` where `r = E mod l`
//! - Two 128-bit exponentiations + 1 multiplication: O(1) verification
use vstd::prelude::*;
use vstd::arithmetic::power::*;
use vstd::arithmetic::power2::*;
use vstd::arithmetic::div_mod::*;
use vstd::arithmetic::mul::*;
use crate::bigint::{
    BigUint384, limbs_val, lemma_val6, lemma_limbs_val_bound, lemma_pow2_384, lemma_pow2_64,
    lemma_limbs_val_take_step, lemma_pow2_limb_step, lemma_scale_step, lemma_limbs_val_update,
    lemma_limbs_val_split, powmod, divmod_by_u128,
};
use crate::digest::{le_bytes_val, le_bytes_of, sha256};
use crate::field::{FieldElement, fq_modulus, fq_modulus_limbs};
use crate::error::VdfError;
use crate::prime::{challenge_prime, checked_hash_to_prime, hash_prime_candidate, hash_to_prime, prime_search_succeeds};
use crate::types::{VdfDifficulty, VdfInput, VdfOutput};
use crate::Vdf;

verus! {

/// `u64::overflowing_sub` from std: the difference wrapped to 64 bits, and
/// whether the true difference was negative.
pub assume_specification[ <u64>::overflowing_sub ](x: u64, y: u64) -> (r: (u64, bool))
    ensures
        r.1 == (x < y),
        r.0 == (if x < y { (x - y + 0x1_0000_0000_0000_0000) as u64 } else { (x - y) as u64 }),
;

/// The fifth-root exponent `e = (4p - 3) / 5`.
pub open spec fn inv5_exponent_value() -> nat {
    ((4 * fq_modulus() - 3) as nat) / 5
}

/// Compute `p - 1` for the BLS12-381 base field.
fn compute_p_minus_1() -> (r: BigUint384)
    ensures
        r@ == fq_modulus() - 1,
{
    let mut p = fq_modulus_limbs();
    let one = BigUint384 { limbs: [1u64, 0, 0, 0, 0, 0] };
    proof {
        lemma_val6(one.limbs);
        lemma_limbs_val_bound(p.limbs@);
    }
    p.sub_with_borrow(&one);
    proof {
        lemma_limbs_val_bound(p.limbs@);
        lemma_pow2_384();
    }
    p
}

/// Compute the fifth-root exponent for the BLS12-381 Fp field.
///
/// We need `e` such that `5 * e = 1 (mod p - 1)`, i.e. `x -> x^e` is the
/// unique fifth-root map on Fq*.
///
/// For BLS12-381, `p = 2 (mod 5)`, so `p - 1 = 1 (mod 5)`. The inverse of
/// 5 modulo `(p - 1)` is:
///
///   `e = (4 * (p - 1) + 1) / 5 = (4p - 3) / 5`
///
/// Verification: `5e = 4p - 3 = 4(p-1) + 1 = 1 (mod p-1)`.
pub fn compute_inv5_exponent() -> (e: BigUint384)
    ensures
        e@ == inv5_exponent_value(),
        5 * e@ + 3 == 4 * fq_modulus(),
{
    let p = fq_modulus_limbs();
    proof {
        lemma_pow2_64();
    }
    // Step 1: compute 4p.
    // We work in 7 limbs to handle potential overflow (4p can be up to 383 bits).
    let mut four_p = [0u64; 7];
    let mut carry: u128 = 0;
    let mut i: usize = 0;
    while i < 6
        invariant
            i <= 6,
            carry <= 3,
            forall|j: int| i <= j < 7 ==> four_p[j] == 0,
            limbs_val(four_p@.take(i as int)) + carry * pow2(64 * i as nat) == 4 * limbs_val(
                p.limbs@.take(i as int),
            ),
        decreases 6 - i,
    {
        let pi = p.limbs[i];
        let wide = (pi as u128) * 4 + carry;
        let x = wide as u64;
        let c2 = wide >> 64u128;
        assert(x + c2 * 0x1_0000_0000_0000_0000 == 4 * pi + carry && c2 <= 3) by (bit_vector)
            requires
                carry <= 3,
                wide == (pi as u128) * 4 + carry,
                x == wide as u64,
                c2 == wide >> 64u128,
        ;
        let ghost before = four_p@;
        four_p[i] = x;
        proof {
            assert(four_p@.take(i as int) =~= before.take(i as int));
            lemma_limbs_val_take_step(four_p@, i as int);
            lemma_limbs_val_take_step(p.limbs@, i as int);
            lemma_pow2_limb_step(i as nat);
            lemma_scale_step(
                limbs_val(before.take(i as int)) as int,
                limbs_val(p.limbs@.take(i as int)) as int,
                pow2(64 * i as nat) as int,
                x as int,
                pi as int,
                carry as int,
                c2 as int,
                4,
            );
        }
        carry = c2;
        i = i + 1;
    }
    let ghost before6 = four_p@;
    four_p[6] = carry as u64;
    proof {
        assert(p.limbs@.take(6) =~= p.limbs@);
        assert(four_p@.take(6) =~= before6.take(6));
        lemma_limbs_val_take_step(four_p@, 6);
        assert(four_p@.take(7) =~= four_p@);
        assert(limbs_val(four_p@) == 4 * fq_modulus());
        lemma_limbs_val_bound(four_p@);
    }
    // Step 2: subtract 3 -> (4p - 3)
    proof {
        lemma2_to64();
    }
    let mut borrow: u64 = 3;
    let mut k: usize = 0;
    while k < 7 && borrow != 0
        invariant
            k <= 7,
            borrow <= 3,
            k > 0 ==> borrow <= 1,
            four_p@.len() == 7,
            limbs_val(four_p@) == 4 * fq_modulus() - 3 + borrow * pow2(64 * k as nat),
        decreases 7 - k,
    {
        let limb = four_p[k];
        let (val, b) = limb.overflowing_sub(borrow);
        let ghost before = four_p@;
        four_p[k] = val;
        proof {
            lemma_limbs_val_update(before, k as int, val);
            lemma_pow2_limb_step(k as nat);
            let pk = pow2(64 * k as nat);
            let bb: int = if b { 1 } else { 0 };
            assert(val + borrow == limb + bb * 0x1_0000_0000_0000_0000);
            assert(val * pk + borrow * pk == limb * pk + bb * (0x1_0000_0000_0000_0000 * pk))
                by (nonlinear_arith)
                requires
                    val + borrow == limb + bb * 0x1_0000_0000_0000_0000,
            ;
        }
        borrow = if b {
            1
        } else {
            0
        };
        k = k + 1;
    }
    proof {
        if borrow != 0 {
            // only reachable with k == 7, where the value would not fit in 7 limbs
            lemma_limbs_val_bound(four_p@);
            assert(64 * 7 == 448);
        }
        assert(limbs_val(four_p@) == 4 * fq_modulus() - 3);
    }
    // Step 3: divide by 5 (schoolbook long division, MSB to LSB)
    let mut result = [0u64; 7];
    let mut remainder: u128 = 0;
    let mut j: usize = 7;
    proof {
        assert(four_p@.skip(7) =~= Seq::<u64>::empty());
        assert(result@.skip(7) =~= Seq::<u64>::empty());
    }
    while j > 0
        invariant
            j <= 7,
            remainder < 5,
            four_p@.len() == 7,
            limbs_val(four_p@.skip(j as int)) == 5 * limbs_val(result@.skip(j as int)) + remainder,
        decreases j,
    {
        j = j - 1;
        let f = four_p[j];
        let dividend = (remainder << 64u128) | (f as u128);
        assert(dividend == remainder * 0x1_0000_0000_0000_0000 + f) by (bit_vector)
            requires
                remainder < 5,
                dividend == (remainder << 64u128) | (f as u128),
        ;
        let q = (dividend / 5) as u64;
        let r2 = dividend % 5;
        let ghost before = result@;
        result[j] = q;
        proof {
            lemma_pow2_64();
            lemma_limbs_val_split(four_p@, j as int);
            lemma_limbs_val_split(result@, j as int);
            assert(result@.skip(j + 1) =~= before.skip(j + 1));
            let hi = limbs_val(before.skip(j + 1)) as int;
            assert(limbs_val(four_p@.skip(j as int)) == 5 * (q + 0x1_0000_0000_0000_0000 * hi)
                + r2) by (nonlinear_arith)
                requires
                    limbs_val(four_p@.skip(j as int)) == f + 0x1_0000_0000_0000_0000 * limbs_val(
                        four_p@.skip(j + 1),
                    ),
                    limbs_val(four_p@.skip(j + 1)) == 5 * hi + remainder,
                    dividend == remainder * 0x1_0000_0000_0000_0000 + f,
                    dividend == 5 * q + r2,
            ;
        }
        remainder = r2;
    }
    proof {
        assert(four_p@.skip(0) =~= four_p@);
        assert(result@.skip(0) =~= result@);
        let big_p = fq_modulus();
        assert((4 * big_p - 3) % 5 == 0);
        lemma_fundamental_div_mod_converse(
            (4 * big_p - 3) as int,
            5,
            limbs_val(result@) as int,
            remainder as int,
        );
        lemma_limbs_val_split(result@, 6);
        assert(result@.skip(7) =~= Seq::<u64>::empty());
        assert(limbs_val(result@.skip(7)) == 0);
        lemma_pow2_384();
        assert(64 * 6 == 384);
        let lo = limbs_val(result@.take(6));
        let top = result[6] as int;
        let w = pow2(384) as int;
        assert(limbs_val(result@) == lo + top * w);
        assert(limbs_val(result@) < w);
        // the quotient is below 2^384, so the top limb is zero
        assert(top == 0) by (nonlinear_arith)
            requires
                lo >= 0,
                top >= 0,
                w > 0,
                lo + top * w < w,
        ;
    }
    // The result fits in 6 limbs because e < p.
    let e = BigUint384 { limbs: [result[0], result[1], result[2], result[3], result[4], result[5]] };
    proof {
        assert(e.limbs@ =~= result@.take(6));
    }
    e
}

/// Compute the fifth-root exponent and return it.
fn inv5_exponent() -> (e: BigUint384)
    ensures
        e@ == inv5_exponent_value(),
{
    compute_inv5_exponent()
}


/// The field element a VDF input stands for: its bytes read little-endian, modulo `p`.
pub open spec fn input_value(input: VdfInput) -> nat {
    le_bytes_val(input.0@) % fq_modulus()
}

/// The 48-byte encoding of a field element's canonical value.
pub open spec fn fq_encoding(v: nat) -> Seq<u8> {
    le_bytes_of(v, 48)
}

/// Whether bytes start with the encoding of a field element.
pub open spec fn decodes(bytes: Seq<u8>) -> bool {
    bytes.len() >= 48 && le_bytes_val(bytes.take(48)) < fq_modulus()
}

/// The field element whose encoding the bytes start with.
pub open spec fn decoded(bytes: Seq<u8>) -> nat {
    le_bytes_val(bytes.take(48))
}

/// One MinRoot step: `x^e mod p`, the fifth root.
pub open spec fn fifth_root(x: nat) -> nat {
    (pow(x as int, inv5_exponent_value()) % (fq_modulus() as int)) as nat
}

/// One forward step: `x^5 mod p`.
pub open spec fn fifth_power(x: nat) -> nat {
    (pow(x as int, 5) % (fq_modulus() as int)) as nat
}

/// `t` MinRoot steps from `x`.
pub open spec fn minroot_chain(x: nat, t: nat) -> nat
    decreases t,
{
    if t == 0 {
        x
    } else {
        fifth_root(minroot_chain(x, (t - 1) as nat))
    }
}

/// `t` forward steps from `z`.
pub open spec fn forward_chain(z: nat, t: nat) -> nat
    decreases t,
{
    if t == 0 {
        z
    } else {
        fifth_power(forward_chain(z, (t - 1) as nat))
    }
}

/// `E = e^T mod (p - 1)`, the single exponent that `T` MinRoot steps amount to.
pub open spec fn wesolowski_exponent(t: nat) -> nat {
    (pow(inv5_exponent_value() as int, t) % ((fq_modulus() - 1) as int)) as nat
}

/// The digest behind the challenge prime for input `x` and output `y`.
pub open spec fn challenge_digest(x: nat, y: nat) -> Seq<u8> {
    sha256(fq_encoding(x) + fq_encoding(y))
}

/// Whether the challenge-prime search for `(x, y)` stays within 128 bits.
pub open spec fn challenge_search_succeeds(x: nat, y: nat) -> bool {
    prime_search_succeeds(hash_prime_candidate(challenge_digest(x, y)))
}

/// The Fiat-Shamir challenge prime `l` for input `x` and output `y`.
pub open spec fn minroot_challenge(x: nat, y: nat) -> u128 {
    challenge_prime(challenge_digest(x, y))
}

/// The Wesolowski witness `pi = x^floor(E / l) mod p` for `T` steps from `x`.
pub open spec fn wesolowski_witness(x: nat, t: nat) -> nat {
    let l = minroot_challenge(x, minroot_chain(x, t));
    (pow(x as int, wesolowski_exponent(t) / (l as nat)) % (fq_modulus() as int)) as nat
}

/// The Wesolowski check `pi^l * x^r == y (mod p)` with `r = E mod l`.
pub open spec fn wesolowski_check(x: nat, y: nat, pi: nat, t: nat) -> bool {
    let l = minroot_challenge(x, y);
    let r = wesolowski_exponent(t) % (l as nat);
    ((pow(pi as int, l as nat) % (fq_modulus() as int)) * (pow(x as int, r) % (fq_modulus() as int)))
        % (fq_modulus() as int) == y
}

/// MinRoot VDF over BLS12-381 Fp.
pub struct MinRootVdf;

/// MinRoot-specific proof type.
///
/// Contains a single serialised Fq element `pi` (48 bytes): the Wesolowski
/// proof witness.
#[derive(Clone, Debug, PartialEq, Eq)]
pub struct MinRootProof {
    /// Serialised proof bytes (48 bytes: one BLS12-381 Fq element).
    pub inner: Vec<u8>,
}

impl MinRootProof {
    /// Deserialise from raw bytes.
    ///
    /// A proof is one serialised Fq element: any length other than 48 bytes
    /// is malformed.
    pub fn from_bytes(b: Vec<u8>) -> (r: Result<Self, VdfError>)
        ensures
            r is Err <==> b@.len() != 48,
            r matches Ok(p) ==> p.inner@ == b@,
            r matches Err(e) ==> e == (if b@.len() == 0 {
                VdfError::MalformedProof { reason: "empty proof bytes" }
            } else {
                VdfError::MalformedProof { reason: "proof must be 48 bytes" }
            }),
    {
        if b.len() == 0 {
            return Err(VdfError::MalformedProof { reason: "empty proof bytes" });
        }
        if b.len() != 48 {
            return Err(VdfError::MalformedProof { reason: "proof must be 48 bytes" });
        }
        Ok(Self { inner: b })
    }
}

/// Serialise an Fq element to compressed bytes.
fn serialize_fq(x: &FieldElement) -> (r: Vec<u8>)
    ensures
        r@ == fq_encoding(x@),
{
    x.serialize_compressed()
}

/// `t` MinRoot steps from `x`: `x <- x^e`, each depending on the previous one.
fn minroot_iterate(x: FieldElement, difficulty: VdfDifficulty, inv5: &BigUint384) -> (y: FieldElement)
    requires
        inv5@ == inv5_exponent_value(),
    ensures
        y@ == minroot_chain(x@, difficulty as nat),
{
    let mut y = x;
    let mut i: u64 = 0;
    while i < difficulty
        invariant
            i <= difficulty,
            inv5@ == inv5_exponent_value(),
            y@ == minroot_chain(x@, i as nat),
        decreases difficulty - i,
    {
        y = y.pow(&inv5.limbs);
        i = i + 1;
    }
    y
}

/// Two little-endian limbs of a `u128`.
fn u128_limbs(v: u128) -> (r: [u64; 2])
    ensures
        limbs_val(r@) == v,
{
    let r = [v as u64, (v >> 64u128) as u64];
    proof {
        lemma_pow2_64();
        reveal_with_fuel(limbs_val, 3);
        assert(r@.drop_first().drop_first() =~= Seq::<u64>::empty());
        let lo = v as u64;
        let hi = (v >> 64u128) as u64;
        assert(lo + hi * 0x1_0000_0000_0000_0000 == v) by (bit_vector)
            requires
                lo == v as u64,
                hi == (v >> 64u128) as u64,
        ;
    }
    r
}

/// The Wesolowski proof for `difficulty` steps from `x_orig`, given the
/// serialised output and the challenge prime `l`; returns output and proof.
fn wesolowski_prove(
    x_orig: &FieldElement,
    output_bytes: Vec<u8>,
    difficulty: VdfDifficulty,
    inv5: BigUint384,
    l: u128,
) -> (r: (VdfOutput, MinRootProof))
    requires
        inv5@ == inv5_exponent_value(),
        difficulty > 0,
        l == minroot_challenge(x_orig@, minroot_chain(x_orig@, difficulty as nat)),
        l > 0,
    ensures
        r.0.0@ == output_bytes@,
        r.1.inner@ == fq_encoding(wesolowski_witness(x_orig@, difficulty as nat)),
{
    // E = e^T mod (p-1)
    let p_minus_1 = compute_p_minus_1();
    let e_big = powmod(inv5, difficulty, &p_minus_1);
    // pi = x^floor(E/l)
    let (q, r) = divmod_by_u128(e_big, l);
    proof {
        lemma_fundamental_div_mod_converse(e_big@ as int, l as int, q@ as int, r as int);
    }
    let pi = x_orig.pow(&q.limbs);
    let proof_bytes = serialize_fq(&pi);
    let proof = MinRootProof { inner: proof_bytes };
    (VdfOutput::from_bytes(output_bytes), proof)
}

impl Vdf for MinRootVdf {
    type Proof = MinRootProof;

    /// `eval` needs a positive difficulty, and the challenge-prime search for
    /// its input and output must stay within 128 bits.
    open spec fn eval_requires(input: VdfInput, difficulty: VdfDifficulty) -> bool {
        difficulty > 0 && challenge_search_succeeds(
            input_value(input),
            minroot_chain(input_value(input), difficulty as nat),
        )
    }

    /// `verify` needs the challenge-prime search to stay within 128 bits
    /// whenever it gets that far: positive difficulty and decodable output and proof.
    open spec fn verify_requires(
        input: VdfInput,
        output: VdfOutput,
        proof: MinRootProof,
        difficulty: VdfDifficulty,
    ) -> bool {
        (difficulty > 0 && decodes(output.0@) && decodes(proof.inner@)) ==> challenge_search_succeeds(
            input_value(input),
            decoded(output.0@),
        )
    }

    fn eval(input: &VdfInput, difficulty: VdfDifficulty) -> (r: (VdfOutput, MinRootProof))
        ensures
            r.0.0@ == fq_encoding(minroot_chain(input_value(*input), difficulty as nat)),
            r.1.inner@ == fq_encoding(wesolowski_witness(input_value(*input), difficulty as nat)),
    {
        // Derive an Fq element from the 32-byte input.
        let x_orig = FieldElement::from_le_bytes_mod_order(input.as_bytes());
        // Core iteration: x_{i+1} = x_i^inv5
        let inv5 = inv5_exponent();
        let y = minroot_iterate(x_orig, difficulty, &inv5);
        // Serialise output and input for proof computation.
        let output_bytes = serialize_fq(&y);
        let x_bytes = serialize_fq(&x_orig);
        // l = hash_to_prime(x, y)
        let l = hash_to_prime(x_bytes.as_slice(), output_bytes.as_slice());
        wesolowski_prove(&x_orig, output_bytes, difficulty, inv5, l)
    }

    fn verify(
        input: &VdfInput,
        output: &VdfOutput,
        proof: &MinRootProof,
        difficulty: VdfDifficulty,
    ) -> (ok: bool)
        ensures
            ok == (difficulty > 0 && decodes(output.0@) && decodes(proof.inner@) && wesolowski_check(
                input_value(*input),
                decoded(output.0@),
                decoded(proof.inner@),
                difficulty as nat,
            )),
    {
        if difficulty == 0 {
            return false;
        }
        // Deserialise x, y, pi.
        let x = FieldElement::from_le_bytes_mod_order(input.as_bytes());
        let y = match FieldElement::deserialize_compressed(output.0.as_slice()) {
            Ok(val) => val,
            Err(_) => return false,
        };
        let pi = match FieldElement::deserialize_compressed(proof.inner.as_slice()) {
            Ok(val) => val,
            Err(_) => return false,
        };
        // Canonical serialisation for hash_to_prime (must match eval).
        let x_bytes = serialize_fq(&x);
        let y_bytes = serialize_fq(&y);
        // E = e^T mod (p-1)
        let inv5 = inv5_exponent();
        let p_minus_1 = compute_p_minus_1();
        let e_big = powmod(inv5, difficulty, &p_minus_1);
        // l = hash_to_prime(x, y)
        let l = hash_to_prime(x_bytes.as_slice(), y_bytes.as_slice());
        // E = q*l + r
        let (_q, r) = divmod_by_u128(e_big, l);
        proof {
            lemma_fundamental_div_mod_converse(e_big@ as int, l as int, _q@ as int, r as int);
        }
        // Check: pi^l * x^r == y
        let l_limbs = u128_limbs(l);
        let r_limbs = u128_limbs(r);
        let pi_l = pi.pow(&l_limbs);
        let x_r = x.pow(&r_limbs);
        pi_l.mul(&x_r) == y
    }
}

impl MinRootVdf {
    /// `eval` where it finishes, and `None` otherwise: for a zero difficulty,
    /// or where the challenge-prime search would run past 128 bits.
    pub fn checked_eval(input: &VdfInput, difficulty: VdfDifficulty) -> (r: Option<(VdfOutput, MinRootProof)>)
        ensures
            r is Some <==> Self::eval_requires(*input, difficulty),
            r matches Some(v) ==> v.0.0@ == fq_encoding(minroot_chain(input_value(*input), difficulty as nat))
                && v.1.inner@ == fq_encoding(wesolowski_witness(input_value(*input), difficulty as nat)),
    {
        if difficulty == 0 {
            return None;
        }
        let x_orig = FieldElement::from_le_bytes_mod_order(input.as_bytes());
        let inv5 = inv5_exponent();
        let y = minroot_iterate(x_orig, difficulty, &inv5);
        let output_bytes = serialize_fq(&y);
        let x_bytes = serialize_fq(&x_orig);
        match checked_hash_to_prime(x_bytes.as_slice(), output_bytes.as_slice()) {
            Some(l) => Some(wesolowski_prove(&x_orig, output_bytes, difficulty, inv5, l)),
            None => None,
        }
    }

    /// `verify` where it finishes, and `None` where its challenge-prime search
    /// would run past 128 bits.
    pub fn checked_verify(
        input: &VdfInput,
        output: &VdfOutput,
        proof: &MinRootProof,
        difficulty: VdfDifficulty,
    ) -> (r: Option<bool>)
        ensures
            r is Some <==> Self::verify_requires(*input, *output, *proof, difficulty),
            r matches Some(ok) ==> ok == (difficulty > 0 && decodes(output.0@) && decodes(
                proof.inner@,
            ) && wesolowski_check(
                input_value(*input),
                decoded(output.0@),
                decoded(proof.inner@),
                difficulty as nat,
            )),
    {
        if difficulty == 0 {
            return Some(Self::verify(input, output, proof, difficulty));
        }
        let x = FieldElement::from_le_bytes_mod_order(input.as_bytes());
        let y = match FieldElement::deserialize_compressed(output.0.as_slice()) {
            Ok(val) => val,
            Err(_) => return Some(Self::verify(input, output, proof, difficulty)),
        };
        match FieldElement::deserialize_compressed(proof.inner.as_slice()) {
            Ok(_) => {},
            Err(_) => return Some(Self::verify(input, output, proof, difficulty)),
        }
        let x_bytes = serialize_fq(&x);
        let y_bytes = serialize_fq(&y);
        match checked_hash_to_prime(x_bytes.as_slice(), y_bytes.as_slice()) {
            Some(_) => Some(Self::verify(input, output, proof, difficulty)),
            None => None,
        }
    }
}

/// Verify a MinRoot chain by running the *forward* direction.
///
/// Given output `y`, compute `y^5` for `T` iterations and check that the
/// result equals `x`. This is O(T) but uses only field multiplication (no
/// exponentiation), so it is faster than re-running eval.
pub fn verify_forward(input: &VdfInput, output: &VdfOutput, difficulty: VdfDifficulty) -> (ok: bool)
    ensures
        ok == (decodes(output.0@) && forward_chain(decoded(output.0@), difficulty as nat)
            == input_value(*input)),
{
    let x = FieldElement::from_le_bytes_mod_order(input.as_bytes());
    let y = match FieldElement::deserialize_compressed(output.0.as_slice()) {
        Ok(val) => val,
        Err(_) => return false,
    };
    // Forward check: y^(5^T) should equal x.
    // Each step: z = z^5 (3 multiplications).
    let mut z = y;
    let mut i: u64 = 0;
    while i < difficulty
        invariant
            i <= difficulty,
            z@ == forward_chain(y@, i as nat),
        decreases difficulty - i,
    {
        z = single_forward_iteration(z);
        i = i + 1;
    }
    z == x
}

/// Perform a single fifth-root iteration: `x -> x^e`.
///
/// Exposed for benchmarking the cost of one iteration, which directly
/// determines the relationship between difficulty `T` and wall-clock time.
pub fn single_iteration(x: FieldElement) -> (r: FieldElement)
    ensures
        r@ == fifth_root(x@),
{
    let inv5 = inv5_exponent();
    x.pow(&inv5.limbs)
}

/// `x^5 mod p` through the squares `x^2` and `x^4`.
proof fn lemma_fifth_power_by_squares(x: nat, p: nat)
    requires
        p > 0,
    ensures
        (((((x * x) % p) * ((x * x) % p)) % p * x) as int) % (p as int) == pow(x as int, 5) % (p as int),
{
    let x2 = x * x;
    lemma_mul_mod_noop(x2 as int, x2 as int, p as int);
    lemma_mul_mod_noop_left((x2 * x2) as int, x as int, p as int);
    reveal_with_fuel(pow, 6);
    let xi = x as int;
    let p1 = pow(xi, 1);
    let p2 = pow(xi, 2);
    let p3 = pow(xi, 3);
    let p4 = pow(xi, 4);
    let p5 = pow(xi, 5);
    assert(p1 == xi);
    assert(p2 == xi * p1);
    assert(p3 == xi * p2);
    assert(p4 == xi * p3);
    assert(p5 == xi * p4);
    assert((x2 * x2) * x == p5) by (nonlinear_arith)
        requires
            x2 == x * x,
            p1 == xi,
            xi == x,
            p2 == xi * p1,
            p3 == xi * p2,
            p4 == xi * p3,
            p5 == xi * p4,
    ;
}

/// Perform a single forward (fifth-power) iteration: `x -> x^5`.
///
/// This is the inverse of the fifth-root and is used in forward verification.
/// Costs only 3 field multiplications.
pub fn single_forward_iteration(x: FieldElement) -> (r: FieldElement)
    ensures
        r@ == fifth_power(x@),
{
    let x2 = x.mul(&x);
    let x4 = x2.mul(&x2);
    let r = x4.mul(&x);
    proof {
        lemma_fifth_power_by_squares(x@, fq_modulus());
    }
    r
}

} // verus!
