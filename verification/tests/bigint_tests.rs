use ark_bls12_381::Fq;
use ark_ff::PrimeField;
use pso_vdf::bigint::{divmod_by_u128, mulmod, powmod, reduce_wide, BigUint384};

fn big(limbs: [u64; 6]) -> BigUint384 {
    BigUint384 { limbs }
}

#[test]
fn mulmod_known_values() {
    // 7 * 11 mod 13 = 77 mod 13 = 12
    let a = big([7u64, 0, 0, 0, 0, 0]);
    let b = big([11u64, 0, 0, 0, 0, 0]);
    let m = big([13u64, 0, 0, 0, 0, 0]);
    let r = mulmod(a, b, &m);
    assert_eq!(r, big([12u64, 0, 0, 0, 0, 0]));
}

#[test]
fn mulmod_larger_values() {
    // (2^64 + 1) * 3 mod (2^64 + 5) = 2^64 - 7
    let a = big([1u64, 1, 0, 0, 0, 0]);
    let b = big([3u64, 0, 0, 0, 0, 0]);
    let m = big([5u64, 1, 0, 0, 0, 0]);
    let expected = big([u64::MAX - 6, 0, 0, 0, 0, 0]);
    let r = mulmod(a, b, &m);
    assert_eq!(r, expected);
}

#[test]
fn powmod_identity() {
    let m = big([17u64, 0, 0, 0, 0, 0]);
    let base = big([5u64, 0, 0, 0, 0, 0]);
    // base^0 = 1
    assert_eq!(powmod(base, 0, &m), big([1u64, 0, 0, 0, 0, 0]));
    // base^1 = base mod m = 5
    assert_eq!(powmod(base, 1, &m), big([5u64, 0, 0, 0, 0, 0]));
}

#[test]
fn powmod_small() {
    // 3^10 mod 17 = 59049 mod 17 = 8
    let base = big([3u64, 0, 0, 0, 0, 0]);
    let m = big([17u64, 0, 0, 0, 0, 0]);
    let r = powmod(base, 10, &m);
    assert_eq!(r, big([8u64, 0, 0, 0, 0, 0]));
}

#[test]
fn powmod_with_real_modulus() {
    // Use BLS12-381 p-1 as the modulus (the actual use case).
    let p = big(<Fq as PrimeField>::MODULUS.0);
    let mut p_minus_1 = p;
    let one = big([1u64, 0, 0, 0, 0, 0]);
    p_minus_1.sub_with_borrow(&one);

    let base = big([42u64, 0, 0, 0, 0, 0]);
    // base^1 mod (p-1) = base (since 42 < p-1)
    assert_eq!(powmod(base, 1, &p_minus_1), base);

    // base^2 = 1764, still small
    let expected = big([1764u64, 0, 0, 0, 0, 0]);
    assert_eq!(powmod(base, 2, &p_minus_1), expected);
}

#[test]
fn divmod_small() {
    // 100 / 7 = 14 remainder 2
    let a = big([100u64, 0, 0, 0, 0, 0]);
    let (q, r) = divmod_by_u128(a, 7);
    assert_eq!(q, big([14u64, 0, 0, 0, 0, 0]));
    assert_eq!(r, 2u128);
}

#[test]
fn divmod_large_dividend() {
    // (2^64 + 10) / 3
    let a = big([10u64, 1, 0, 0, 0, 0]);
    let (q, r) = divmod_by_u128(a, 3);
    let val = (1u128 << 64) + 10;
    let expected_q = val / 3;
    let expected_r = val % 3;
    assert_eq!(u128::from(q.limbs[0]), expected_q);
    assert_eq!(r, expected_r);
}

#[test]
fn divmod_reconstructs() {
    let a = big([
        0xDEAD_BEEF_CAFE_BABEu64,
        0x1234_5678_9ABC_DEF0,
        0x42,
        0,
        0,
        0,
    ]);
    let d: u128 = (1u128 << 127) | 17; // large 128-bit divisor
    let (_q, r) = divmod_by_u128(a, d);
    assert!(r < d, "remainder must be less than divisor");

    // a / 1 == a, remainder 0
    let (q_one, r_one) = divmod_by_u128(a, 1);
    assert_eq!(q_one, a);
    assert_eq!(r_one, 0);
}

#[test]
fn reduce_wide_modulus_above_2_383() {
    // With a modulus above 2^383 the doubling carries out of the top limb;
    // (2^384 - 1) * 2^384 + 0 mod (2^384 - 1) = 0.
    let m = big([u64::MAX; 6]);
    let r = reduce_wide(big([0; 6]), big([u64::MAX; 6]), &m);
    assert_eq!(r, big([0; 6]));
    // (1 * 2^384 + 5) mod (2^384 - 1) = 6
    let r2 = reduce_wide(big([5, 0, 0, 0, 0, 0]), big([1, 0, 0, 0, 0, 0]), &m);
    assert_eq!(r2, big([6, 0, 0, 0, 0, 0]));
}

#[test]
fn mulmod_full_width_product() {
    // (2^383) * 4 mod (2^384 - 1) = 2^385 mod (2^384 - 1) = 2
    let a = big([0, 0, 0, 0, 0, 1u64 << 63]);
    let b = big([4, 0, 0, 0, 0, 0]);
    let m = big([u64::MAX; 6]);
    assert_eq!(mulmod(a, b, &m), big([2, 0, 0, 0, 0, 0]));
}

#[test]
fn limb_operations() {
    let mut x = big([u64::MAX, u64::MAX, 0, 0, 0, 0]);
    let carry = x.add_with_carry(&big([1, 0, 0, 0, 0, 0]));
    assert!(!carry);
    assert_eq!(x, big([0, 0, 1, 0, 0, 0]));
    let mut y = big([0; 6]);
    let borrow = y.sub_with_borrow(&big([1, 0, 0, 0, 0, 0]));
    assert!(borrow);
    assert_eq!(y, big([u64::MAX; 6]));
    let mut z = big([0, 0, 0, 0, 0, 1u64 << 63]);
    assert!(z.mul2());
    assert_eq!(z, big([0; 6]));
    assert!(big([0, 1, 0, 0, 0, 0]).get_bit(64));
    assert!(!big([0, 1, 0, 0, 0, 0]).get_bit(63));
    assert!(!big([u64::MAX; 6]).get_bit(384));
    assert!(big([3, 0, 0, 0, 0, 0]).is_geq(&big([3, 0, 0, 0, 0, 0])));
    assert!(!big([3, 0, 0, 0, 0, 0]).is_geq(&big([0, 1, 0, 0, 0, 0])));
}
