//! Laws of the MinRoot VDF: what evaluation, forward verification and
//! Wesolowski verification promise of one another.
//!
//! The laws that rest on Fermat's little theorem use the primality of the
//! field modulus, which `fq_prime` proves.
use vstd::prelude::*;
use vstd::arithmetic::power::*;
use vstd::arithmetic::power2::*;
use vstd::arithmetic::div_mod::*;
use vstd::arithmetic::mul::*;
use crate::bigint::lemma_pow2_384;
use crate::digest::{sha256, le_bytes_val, le_bytes_of, lemma_le_bytes_of, lemma_le_bytes_injective, lemma_le_bytes_bound};
use crate::field::fq_modulus;
use crate::fq_prime::lemma_prime_fq_modulus;
use crate::minroot::{
    challenge_digest, challenge_search_succeeds, decoded, decodes, fifth_power, fifth_root,
    forward_chain, fq_encoding, input_value, inv5_exponent_value, minroot_chain,
    minroot_challenge, wesolowski_check, wesolowski_exponent, wesolowski_witness, MinRootProof,
    MinRootVdf,
};
use crate::number_theory::{
    divides, is_prime, lemma_euclid, lemma_pow_exponent_mod, lemma_pow_mod_compose,
};
use crate::prime::{challenge_prime, hash_prime_candidate, lemma_candidate_high_bit, lemma_pow2_128, lemma_search_first};
use crate::types::{VdfInput, VdfOutput};
use crate::Vdf;

verus! {

/// `5 e == 4 (p - 1) + 1`, so `5 e == 1 (mod p - 1)`.
pub proof fn lemma_inv5_exponent_identity()
    ensures
        5 * inv5_exponent_value() == 4 * (fq_modulus() - 1) + 1,
        (5 * inv5_exponent_value()) % ((fq_modulus() - 1) as nat) == 1,
        inv5_exponent_value() > 0,
        fq_modulus() > 2,
{
    let p = fq_modulus();
    assert((4 * p - 3) % 5 == 0);
    assert(5 * inv5_exponent_value() == 4 * p - 3);
    lemma_fundamental_div_mod_converse(
        (5 * inv5_exponent_value()) as int,
        (p - 1) as int,
        4,
        1,
    );
}

/// Every power of `e` is non-zero modulo `p - 1`, since `5 e == 1 (mod p - 1)`.
pub proof fn lemma_exponent_power_nonzero(t: nat)
    ensures
        pow(inv5_exponent_value() as int, t) > 0,
        pow(inv5_exponent_value() as int, t) % ((fq_modulus() - 1) as int) != 0,
{
    let e = inv5_exponent_value() as int;
    let m = (fq_modulus() - 1) as int;
    lemma_inv5_exponent_identity();
    lemma_pow_positive(e, t);
    lemma_pow_distributes(5, e, t);
    lemma_pow_mod_noop(5 * e, t, m);
    lemma1_pow(t);
    lemma_small_mod(1, m as nat);
    assert(pow(5 * e, t) % m == 1);
    if pow(e, t) % m == 0 {
        lemma_mul_mod_noop_right(pow(5, t), pow(e, t), m);
        assert((pow(5, t) * 0) % m == 0) by (nonlinear_arith)
            requires
                m > 0,
        ;
    }
}

/// A fifth root is a canonical field element.
pub proof fn lemma_fifth_root_canonical(x: nat)
    ensures
        fifth_root(x) < fq_modulus(),
        fifth_power(x) < fq_modulus(),
{
    lemma_mod_bound(pow(x as int, inv5_exponent_value()), fq_modulus() as int);
    lemma_mod_bound(pow(x as int, 5), fq_modulus() as int);
}

/// `t` MinRoot steps amount to the single power `x^(e^t) mod p`.
pub proof fn lemma_minroot_chain_closed(x: nat, t: nat)
    requires
        x < fq_modulus(),
    ensures
        minroot_chain(x, t) == pow(x as int, pow(inv5_exponent_value() as int, t) as nat) % (
        fq_modulus() as int),
        minroot_chain(x, t) < fq_modulus(),
    decreases t,
{
    let e = inv5_exponent_value();
    let p = fq_modulus();
    reveal(pow);
    lemma_pow_positive(e as int, t);
    if t == 0 {
        lemma_pow1(x as int);
        lemma_small_mod(x, p);
    } else {
        let t1 = (t - 1) as nat;
        lemma_minroot_chain_closed(x, t1);
        lemma_pow_positive(e as int, t1);
        let a = pow(e as int, t1) as nat;
        lemma_pow_mod_compose(x as int, a, e, p);
        assert(pow(e as int, t) == e * pow(e as int, t1));
        assert(a * e == pow(e as int, t)) by (nonlinear_arith)
            requires
                pow(e as int, t) == e * pow(e as int, t1),
                a == pow(e as int, t1),
        ;
        lemma_fifth_root_canonical(minroot_chain(x, t1));
    }
}

/// The fifth power undoes the fifth root, and the fifth root undoes the
/// fifth power, on every element of the field.
pub proof fn law_fifth_root_roundtrip(x: nat)
    requires
        x < fq_modulus(),
    ensures
        fifth_power(fifth_root(x)) == x,
        fifth_root(fifth_power(x)) == x,
{
    lemma_prime_fq_modulus();
    let e = inv5_exponent_value();
    let p = fq_modulus();
    lemma_inv5_exponent_identity();
    lemma_pow_mod_compose(x as int, e, 5, p);
    lemma_pow_mod_compose(x as int, 5, e, p);
    assert(e * 5 == 5 * e);
    lemma_small_mod(x, p);
    lemma_pow_exponent_mod(x, 5 * e, p);
    lemma_pow1(x as int);
}

/// `t` forward steps are one fifth power followed by `t - 1` forward steps.
pub proof fn lemma_forward_chain_shift(z: nat, t: nat)
    requires
        t >= 1,
    ensures
        forward_chain(z, t) == forward_chain(fifth_power(z), (t - 1) as nat),
    decreases t,
{
    if t > 1 {
        lemma_forward_chain_shift(z, (t - 1) as nat);
        assert(forward_chain(fifth_power(z), (t - 1) as nat) == fifth_power(
            forward_chain(fifth_power(z), (t - 2) as nat),
        ));
    } else {
        assert(forward_chain(z, 0) == z);
    }
}

/// Forward verification inverts MinRoot evaluation: `t` fifth powers of the
/// result of `t` fifth roots give back the field element.
pub proof fn law_forward_inverts_minroot(x: nat, t: nat)
    requires
        x < fq_modulus(),
    ensures
        forward_chain(minroot_chain(x, t), t) == x,
    decreases t,
{
    lemma_prime_fq_modulus();
    if t > 0 {
        let t1 = (t - 1) as nat;
        let prev = minroot_chain(x, t1);
        lemma_minroot_chain_closed(x, t1);
        lemma_forward_chain_shift(minroot_chain(x, t), t);
        law_fifth_root_roundtrip(prev);
        law_forward_inverts_minroot(x, t1);
    }
}

/// Encoding a field element and decoding it gives it back.
pub proof fn lemma_encoding_roundtrip(v: nat)
    requires
        v < fq_modulus(),
    ensures
        fq_encoding(v).len() == 48,
        decodes(fq_encoding(v)),
        decoded(fq_encoding(v)) == v,
{
    lemma_le_bytes_of(v, 48);
    lemma_pow2_384();
    assert(8 * 48 == 384);
    assert(fq_encoding(v).take(48) =~= fq_encoding(v));
    lemma_small_mod(v, pow2(384));
}

/// The field element of a 32-byte input is the input read little-endian, unreduced.
pub proof fn lemma_input_value_unreduced(input: VdfInput)
    ensures
        input_value(input) == le_bytes_val(input.0@),
        input_value(input) < fq_modulus(),
{
    lemma_le_bytes_bound(input.0@);
    assert(8 * 32 == 256);
    lemma_pow2_128();
    lemma_pow2_adds(128, 128);
    lemma_small_mod(le_bytes_val(input.0@), fq_modulus());
}

/// Wesolowski's identity: `pi^l * x^r == x^E (mod p)` for `pi = x^floor(E / l)`
/// and `r = E mod l`.
pub proof fn lemma_wesolowski_identity(x: nat, big_e: nat, l: nat)
    requires
        l > 0,
    ensures
        ((pow((pow(x as int, big_e / l) % (fq_modulus() as int)), l) % (fq_modulus() as int)) * (
        pow(x as int, big_e % l) % (fq_modulus() as int))) % (fq_modulus() as int) == pow(
            x as int,
            big_e,
        ) % (fq_modulus() as int),
{
    let p = fq_modulus() as int;
    let q = big_e / l;
    let r = big_e % l;
    lemma_pow_mod_compose(x as int, q, l, fq_modulus());
    lemma_mul_mod_noop(pow(x as int, q * l), pow(x as int, r), p);
    lemma_mod_twice(pow(x as int, q * l), p);
    lemma_mod_twice(pow(x as int, r), p);
    lemma_pow_adds(x as int, q * l, r);
    lemma_fundamental_div_mod(big_e as int, l as int);
    lemma_mul_is_commutative(q as int, l as int);
    assert(q * l + r == big_e);
}

/// What `verify` accepts of what `eval` produces: for any output and proof
/// with the contents that `eval` gives them, `verify` may be called, finds
/// both decodable, and its Wesolowski check holds; so it returns `true`.
pub proof fn law_verify_accepts_eval(
    input: VdfInput,
    output: VdfOutput,
    proof: MinRootProof,
    t: u64,
)
    requires
        MinRootVdf::eval_requires(input, t),
        output.0@ == fq_encoding(minroot_chain(input_value(input), t as nat)),
        proof.inner@ == fq_encoding(wesolowski_witness(input_value(input), t as nat)),
    ensures
        MinRootVdf::verify_requires(input, output, proof, t),
        t > 0 && decodes(output.0@) && decodes(proof.inner@) && wesolowski_check(
            input_value(input),
            decoded(output.0@),
            decoded(proof.inner@),
            t as nat,
        ),
{
    lemma_prime_fq_modulus();
    let x = input_value(input);
    let p = fq_modulus();
    let y = minroot_chain(x, t as nat);
    let pi = wesolowski_witness(x, t as nat);
    lemma_input_value_unreduced(input);
    lemma_minroot_chain_closed(x, t as nat);
    lemma_encoding_roundtrip(y);
    // the challenge prime is at least the search start, which has bit 127 set
    let c = hash_prime_candidate(challenge_digest(x, y));
    lemma_search_first(c);
    lemma_candidate_high_bit(challenge_digest(x, y));
    let l = minroot_challenge(x, y);
    assert(l >= c);
    let big_e = wesolowski_exponent(t as nat);
    lemma_mod_bound(pow(x as int, big_e / (l as nat)), p as int);
    assert(pi < p);
    lemma_encoding_roundtrip(pi);
    lemma_wesolowski_identity(x, big_e, l as nat);
    // x^E == x^(e^t) (mod p)
    lemma_exponent_power_nonzero(t as nat);
    lemma_inv5_exponent_identity();
    let et = pow(inv5_exponent_value() as int, t as nat) as nat;
    if divides(p, x as int) {
        assert(et % ((p - 1) as nat) != 0);
    }
    lemma_pow_exponent_mod(x, et, p);
    assert(big_e == et % ((p - 1) as nat));
}

/// Forward verification accepts what `eval` produces.
pub proof fn law_forward_accepts_eval(input: VdfInput, output: VdfOutput, t: u64)
    requires
        output.0@ == fq_encoding(minroot_chain(input_value(input), t as nat)),
    ensures
        decodes(output.0@) && forward_chain(decoded(output.0@), t as nat) == input_value(input),
{
    lemma_prime_fq_modulus();
    let x = input_value(input);
    lemma_input_value_unreduced(input);
    lemma_minroot_chain_closed(x, t as nat);
    lemma_encoding_roundtrip(minroot_chain(x, t as nat));
    law_forward_inverts_minroot(x, t as nat);
}

/// Different inputs give different outputs: MinRoot permutes the field, and
/// distinct 32-byte inputs are distinct field elements.
pub proof fn law_distinct_inputs_distinct_outputs(a: VdfInput, b: VdfInput, t: nat)
    requires
        a.0@ != b.0@,
    ensures
        fq_encoding(minroot_chain(input_value(a), t)) != fq_encoding(
            minroot_chain(input_value(b), t),
        ),
{
    lemma_prime_fq_modulus();
    let xa = input_value(a);
    let xb = input_value(b);
    lemma_input_value_unreduced(a);
    lemma_input_value_unreduced(b);
    if xa == xb {
        lemma_le_bytes_injective(a.0@, b.0@);
    }
    lemma_minroot_chain_closed(xa, t);
    lemma_minroot_chain_closed(xb, t);
    law_forward_inverts_minroot(xa, t);
    law_forward_inverts_minroot(xb, t);
    lemma_encoding_roundtrip(minroot_chain(xa, t));
    lemma_encoding_roundtrip(minroot_chain(xb, t));
}


/// Powers of a number that the prime `p` does not divide are not divisible by `p`.
proof fn lemma_pow_not_multiple(p: nat, x: int, k: nat)
    requires
        is_prime(p),
        x % (p as int) != 0,
    ensures
        pow(x, k) % (p as int) != 0,
    decreases k,
{
    reveal(pow);
    if k == 0 {
        lemma_small_mod(1, p);
    } else {
        lemma_pow_not_multiple(p, x, (k - 1) as nat);
        assert(pow(x, k) == x * pow(x, (k - 1) as nat));
        if divides(p, x * pow(x, (k - 1) as nat)) {
            lemma_euclid(p, x, pow(x, (k - 1) as nat));
        }
    }
}

/// Modulo a prime, a factor that the prime does not divide cancels.
proof fn lemma_cancel_mod_prime(p: nat, a: int, b: int, c: int)
    requires
        is_prime(p),
        a % (p as int) != 0,
        0 <= b < p,
        0 <= c < p,
        (a * b) % (p as int) == (a * c) % (p as int),
    ensures
        b == c,
{
    lemma_sub_mod_noop(a * b, a * c, p as int);
    lemma_small_mod(0, p);
    assert(a * b - a * c == a * (b - c)) by (nonlinear_arith);
    assert(divides(p, a * (b - c)));
    lemma_euclid(p, a, b - c);
    lemma_fundamental_div_mod(b - c, p as int);
    let q = (b - c) / (p as int);
    assert(q == 0) by (nonlinear_arith)
        requires
            b - c == p * q,
            -(p as int) < b - c < p,
            p > 1,
    ;
}

/// What `eval` produces, unpacked: the output decodes to `y = x^E mod p`,
/// the proof to `pi = x^floor(E / l) mod p`, and `pi^l * x^(E mod l) == y`.
proof fn lemma_eval_results(input: VdfInput, output: VdfOutput, proof: MinRootProof, t: u64)
    requires
        MinRootVdf::eval_requires(input, t),
        output.0@ == fq_encoding(minroot_chain(input_value(input), t as nat)),
        proof.inner@ == fq_encoding(wesolowski_witness(input_value(input), t as nat)),
    ensures
        decodes(output.0@),
        decodes(proof.inner@),
        decoded(output.0@) == minroot_chain(input_value(input), t as nat),
        decoded(proof.inner@) == wesolowski_witness(input_value(input), t as nat),
        input_value(input) < fq_modulus(),
        minroot_challenge(input_value(input), decoded(output.0@)) > 0,
        challenge_digest(input_value(input), decoded(output.0@)) == sha256(
            fq_encoding(input_value(input)) + output.0@,
        ),
        ({
            let x = input_value(input);
            let p = fq_modulus() as int;
            let l = minroot_challenge(x, decoded(output.0@)) as nat;
            let e = wesolowski_exponent(t as nat);
            ((pow(decoded(proof.inner@) as int, l) % p) * (pow(x as int, e % l) % p)) % p
                == decoded(output.0@)
        }),
{
    lemma_prime_fq_modulus();
    let x = input_value(input);
    let p = fq_modulus();
    let y = minroot_chain(x, t as nat);
    let pi = wesolowski_witness(x, t as nat);
    lemma_input_value_unreduced(input);
    lemma_minroot_chain_closed(x, t as nat);
    lemma_encoding_roundtrip(y);
    let c = hash_prime_candidate(challenge_digest(x, y));
    lemma_search_first(c);
    lemma_candidate_high_bit(challenge_digest(x, y));
    let l = minroot_challenge(x, y);
    assert(l >= c);
    let big_e = wesolowski_exponent(t as nat);
    lemma_mod_bound(pow(x as int, big_e / (l as nat)), p as int);
    lemma_encoding_roundtrip(pi);
    lemma_wesolowski_identity(x, big_e, l as nat);
    lemma_exponent_power_nonzero(t as nat);
    lemma_inv5_exponent_identity();
    let et = pow(inv5_exponent_value() as int, t as nat) as nat;
    if divides(p, x as int) {
        assert(et % ((p - 1) as nat) != 0);
    }
    lemma_pow_exponent_mod(x, et, p);
    assert(big_e == et % ((p - 1) as nat));
}

/// `eval`'s proof is `x^floor(E / l) mod p`, with `E = e^T mod (p - 1)` and
/// `l` the challenge prime of the SHA-256 digest of the input's encoding
/// followed by the output's encoding (in that order).
pub proof fn law_eval_proof_challenge(
    input: VdfInput,
    output: VdfOutput,
    proof: MinRootProof,
    t: u64,
)
    requires
        MinRootVdf::eval_requires(input, t),
        output.0@ == fq_encoding(minroot_chain(input_value(input), t as nat)),
        proof.inner@ == fq_encoding(wesolowski_witness(input_value(input), t as nat)),
    ensures
        ({
            let x = input_value(input);
            let p = fq_modulus() as int;
            let l = challenge_prime(sha256(fq_encoding(x) + output.0@)) as nat;
            let e = (pow(inv5_exponent_value() as int, t as nat) % (p - 1)) as nat;
            &&& l >= 0x8000_0000_0000_0000_0000_0000_0000_0000nat
            &&& proof.inner@ == fq_encoding((pow(x as int, e / l) % p) as nat)
        }),
{
    lemma_eval_results(input, output, proof, t);
    let x = input_value(input);
    let y = minroot_chain(x, t as nat);
    let c = hash_prime_candidate(challenge_digest(x, y));
    lemma_search_first(c);
    lemma_candidate_high_bit(challenge_digest(x, y));
}

/// Verification is tied to the difficulty its proof was made for: `verify` at
/// difficulty `t2` accepts the output and proof that `eval` made for
/// difficulty `t1` from a nonzero input value `x` exactly when
/// `x^(E(t2) mod l) == x^(E(t1) mod l) (mod p)`, where `E(t) = e^t mod (p - 1)`
/// and `l` is the challenge prime of the input's and output's encodings.
pub proof fn law_verify_difficulty_of_eval(
    input: VdfInput,
    output: VdfOutput,
    proof: MinRootProof,
    t1: u64,
    t2: u64,
)
    requires
        MinRootVdf::eval_requires(input, t1),
        output.0@ == fq_encoding(minroot_chain(input_value(input), t1 as nat)),
        proof.inner@ == fq_encoding(wesolowski_witness(input_value(input), t1 as nat)),
        input_value(input) != 0,
        t2 > 0,
    ensures
        ({
            let x = input_value(input);
            let p = fq_modulus() as int;
            let l = challenge_prime(sha256(fq_encoding(x) + output.0@)) as nat;
            let e1 = (pow(inv5_exponent_value() as int, t1 as nat) % (p - 1)) as nat;
            let e2 = (pow(inv5_exponent_value() as int, t2 as nat) % (p - 1)) as nat;
            (t2 > 0 && decodes(output.0@) && decodes(proof.inner@) && wesolowski_check(
                x,
                decoded(output.0@),
                decoded(proof.inner@),
                t2 as nat,
            )) <==> pow(x as int, e2 % l) % p == pow(x as int, e1 % l) % p
        }),
{
    lemma_prime_fq_modulus();
    lemma_eval_results(input, output, proof, t1);
    let x = input_value(input);
    let p = fq_modulus();
    let y = decoded(output.0@);
    let pi = decoded(proof.inner@);
    let l = minroot_challenge(x, y) as nat;
    let e1 = wesolowski_exponent(t1 as nat);
    let e2 = wesolowski_exponent(t2 as nat);
    let a = pow(pi as int, l) % (p as int);
    let b1 = pow(x as int, e1 % l) % (p as int);
    let b2 = pow(x as int, e2 % l) % (p as int);
    // pi = x^k mod p and x is not a multiple of p, so neither is pi^l
    lemma_small_mod(x, p);
    lemma_pow_not_multiple(p, x as int, e1 / l);
    lemma_mod_twice(pow(x as int, e1 / l), p as int);
    assert((pi as int) % (p as int) != 0);
    lemma_pow_not_multiple(p, pi as int, l);
    lemma_mod_twice(pow(pi as int, l), p as int);
    lemma_mod_bound(pow(x as int, e1 % l), p as int);
    lemma_mod_bound(pow(x as int, e2 % l), p as int);
    assert((a * b1) % (p as int) == y);
    if (a * b2) % (p as int) == y {
        lemma_cancel_mod_prime(p, a, b2, b1);
    }
}

} // verus!
