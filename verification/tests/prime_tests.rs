use pso_vdf::prime::{
    checked_hash_to_prime, hash_to_prime, is_prime_128, mul_mod_128, pow_mod_128,
    search_prime_from,
};

#[test]
fn known_primes() {
    assert!(is_prime_128(2));
    assert!(is_prime_128(3));
    assert!(is_prime_128(5));
    assert!(is_prime_128(7));
    assert!(is_prime_128(13));
    assert!(is_prime_128(104729)); // 10000th prime
    // Large known prime: 2^127 - 1 (Mersenne prime M127)
    assert!(is_prime_128((1u128 << 127) - 1));
}

#[test]
fn known_composites() {
    assert!(!is_prime_128(0));
    assert!(!is_prime_128(1));
    assert!(!is_prime_128(4));
    assert!(!is_prime_128(9));
    assert!(!is_prime_128(15));
    assert!(!is_prime_128(100));
    assert!(!is_prime_128(1000003 * 1000033)); // product of two primes
}

#[test]
fn hash_to_prime_deterministic() {
    let x = [0xabu8; 48];
    let y = [0xcdu8; 48];
    let p1 = hash_to_prime(&x, &y);
    let p2 = hash_to_prime(&x, &y);
    assert_eq!(p1, p2, "hash_to_prime must be deterministic");
}

#[test]
fn hash_to_prime_returns_prime() {
    let x = [0x01u8; 48];
    let y = [0x02u8; 48];
    let p = hash_to_prime(&x, &y);
    assert!(is_prime_128(p), "hash_to_prime must return a prime");
    assert!(p >= 1u128 << 127, "result must be at least 128 bits");
}

#[test]
fn hash_to_prime_different_inputs() {
    let x = [0x01u8; 48];
    let y1 = [0x02u8; 48];
    let y2 = [0x03u8; 48];
    let p1 = hash_to_prime(&x, &y1);
    let p2 = hash_to_prime(&x, &y2);
    assert_ne!(p1, p2, "different inputs should produce different primes");
}

#[test]
fn mul_mod_128_basic() {
    assert_eq!(mul_mod_128(7, 11, 13), 77 % 13);
    assert_eq!(mul_mod_128(0, 100, 7), 0);
    assert_eq!(mul_mod_128(100, 0, 7), 0);
    assert_eq!(mul_mod_128(1, 42, 100), 42);
}

#[test]
fn mul_mod_128_large() {
    let a = u128::MAX - 1; // even
    let b = 2u128;
    let m = u128::MAX;
    // (MAX-1) * 2 mod MAX = 2*MAX - 2 mod MAX = MAX - 2
    assert_eq!(mul_mod_128(a, b, m), u128::MAX - 2);
}

#[test]
fn pow_mod_128_basic() {
    // 3^10 mod 17 = 59049 mod 17 = 8
    assert_eq!(pow_mod_128(3, 10, 17), 8);
    // a^0 = 1
    assert_eq!(pow_mod_128(42, 0, 17), 1);
    // a^1 mod m = a mod m
    assert_eq!(pow_mod_128(42, 1, 17), 42 % 17);
}

#[test]
fn pow_mod_128_modulus_one() {
    assert_eq!(pow_mod_128(5, 0, 1), 0);
    assert_eq!(pow_mod_128(5, 3, 1), 0);
}

#[test]
fn mul_mod_128_overflowing_sums() {
    // Near-maximal modulus, where a + a overflows u128 inside the doubling.
    let m = u128::MAX - 1;
    let a = u128::MAX - 3;
    // (m - 2) * 3 mod m = m - 6
    assert_eq!(mul_mod_128(a, 3, m), m - 6);
}

#[test]
fn trial_division_and_table_primes() {
    assert!(is_prime_128(1229)); // last table prime
    assert!(!is_prime_128(1229 * 1231));
    assert!(!is_prime_128(3 * 1_000_000_007));
    assert!(is_prime_128(1_000_000_007));
    assert!(!is_prime_128(1u128 << 100));
    // 561 = 3 * 11 * 17 is a Carmichael number, caught by trial division.
    assert!(!is_prime_128(561));
}

#[test]
fn search_from_prime_and_overflow() {
    // 2^127 - 1 is prime: the search returns it.
    assert_eq!(search_prime_from((1u128 << 127) - 1), Some((1u128 << 127) - 1));
    // 2^128 - 1 is divisible by 3 and no larger odd value fits in u128.
    assert_eq!(search_prime_from(u128::MAX), None);
    // 2^128 - 159 is the largest prime below 2^128.
    let top = u128::MAX - 158;
    assert_eq!(search_prime_from(top - 10), Some(top));
}

#[test]
fn checked_hash_to_prime_matches() {
    let x = [0x07u8; 48];
    let y = [0x08u8; 48];
    assert_eq!(checked_hash_to_prime(&x, &y), Some(hash_to_prime(&x, &y)));
}
