//! Hash-to-prime for Fiat-Shamir challenge derivation in Wesolowski proofs.
//!
//! Derives a deterministic 128-bit prime `l` from `(x, y)` via SHA-256,
//! used as the Fiat-Shamir challenge in the Wesolowski proof scheme.
use vstd::prelude::*;
use vstd::arithmetic::power::*;
use vstd::arithmetic::power2::*;
use vstd::arithmetic::div_mod::*;
use vstd::arithmetic::mul::*;
use crate::bigint::lemma_square_multiply_step;
use crate::number_theory::{divides, is_prime, lemma_euclid, lemma_fermat_little};
use crate::digest::{concat_bytes, sha256, sha256_digest, le_bytes_val, lemma_le_bytes_bound};

verus! {

/// `u128::overflowing_add` from std: the sum wrapped to 128 bits, and whether
/// the true sum exceeded `u128::MAX`.
pub assume_specification[ <u128>::overflowing_add ](x: u128, y: u128) -> (r: (u128, bool))
    ensures
        r.1 == (x + y > u128::MAX),
        r.0 == (if x + y > u128::MAX { (x + y - 0x1_0000_0000_0000_0000_0000_0000_0000_0000) as u128 } else { (x + y) as u128 }),
;

/// First 200 odd primes for trial division (2 is excluded since candidates
/// are always forced odd).
pub const SMALL_PRIMES: [u64; 200] = [
    3, 5, 7, 11, 13, 17, 19, 23, 29, 31, 37, 41,
    43, 47, 53, 59, 61, 67, 71, 73, 79, 83, 89, 97,
    101, 103, 107, 109, 113, 127, 131, 137, 139, 149, 151, 157,
    163, 167, 173, 179, 181, 191, 193, 197, 199, 211, 223, 227,
    229, 233, 239, 241, 251, 257, 263, 269, 271, 277, 281, 283,
    293, 307, 311, 313, 317, 331, 337, 347, 349, 353, 359, 367,
    373, 379, 383, 389, 397, 401, 409, 419, 421, 431, 433, 439,
    443, 449, 457, 461, 463, 467, 479, 487, 491, 499, 503, 509,
    521, 523, 541, 547, 557, 563, 569, 571, 577, 587, 593, 599,
    601, 607, 613, 617, 619, 631, 641, 643, 647, 653, 659, 661,
    673, 677, 683, 691, 701, 709, 719, 727, 733, 739, 743, 751,
    757, 761, 769, 773, 787, 797, 809, 811, 821, 823, 827, 829,
    839, 853, 857, 859, 863, 877, 881, 883, 887, 907, 911, 919,
    929, 937, 941, 947, 953, 967, 971, 977, 983, 991, 997, 1009,
    1013, 1019, 1021, 1031, 1033, 1039, 1049, 1051, 1061, 1063, 1069, 1087,
    1091, 1093, 1097, 1103, 1109, 1117, 1123, 1129, 1151, 1153, 1163, 1171,
    1181, 1187, 1193, 1201, 1213, 1217, 1223, 1229,
];

/// Modular addition for 128-bit values, handling overflow.
fn add_mod(a: u128, b: u128, m: u128) -> (r: u128)
    requires
        a < m,
        b < m,
    ensures
        r == (a + b) % (m as int),
        r < m,
{
    let (sum, overflow) = a.overflowing_add(b);
    proof {
        lemma_mod_one_sum(a as nat, b as nat, m as nat);
    }
    if overflow || sum >= m {
        sum.wrapping_sub(m)
    } else {
        sum
    }
}

/// `a + b` for `a, b < m` is below `2 m`, so one subtraction reduces it.
proof fn lemma_mod_one_sum(a: nat, b: nat, m: nat)
    requires
        a < m,
        b < m,
    ensures
        a + b >= m ==> (a + b) % m == a + b - m,
        a + b < m ==> (a + b) % m == a + b,
{
    if a + b >= m {
        lemma_fundamental_div_mod_converse((a + b) as int, m as int, 1, (a + b - m) as int);
    } else {
        lemma_fundamental_div_mod_converse((a + b) as int, m as int, 0, (a + b) as int);
    }
}

/// One doubling step of binary multiplication keeps `result + a * b` fixed
/// modulo `m`.
proof fn lemma_double_add_step(result: nat, a: nat, b: nat, m: nat)
    requires
        m > 0,
    ensures
        b % 2 == 1 ==> (((result + a) % m) + ((a + a) % m) * (b / 2)) % m == (result + a * b)
            % m,
        b % 2 == 0 ==> (result + ((a + a) % m) * (b / 2)) % m == (result + a * b) % m,
{
    let h = (b / 2) as int;
    let mi = m as int;
    let w = (a + a) as int;
    let aa = w % mi;
    // (z + (w % m) * h) % m == (z + w * h) % m
    lemma_mul_mod_noop_left(w, h, mi);
    let z1 = (result + a) as int;
    let z0 = result as int;
    lemma_add_mod_noop_right(z1, aa * h, mi);
    lemma_add_mod_noop_right(z1, w * h, mi);
    lemma_add_mod_noop_right(z0, aa * h, mi);
    lemma_add_mod_noop_right(z0, w * h, mi);
    // ((r + a) % m + y) % m == (r + a + y) % m
    lemma_add_mod_noop_right(aa * h, z1, mi);
    assert(w * h == a * (2 * h)) by (nonlinear_arith)
        requires
            w == a + a,
    ;
    if b % 2 == 1 {
        assert(a * b == a * (2 * h) + a) by (nonlinear_arith)
            requires
                b == 2 * h + 1,
        ;
    } else {
        assert(a * b == a * (2 * h)) by (nonlinear_arith)
            requires
                b == 2 * h,
        ;
    }
}

/// Modular multiplication for 128-bit values via binary doubling.
///
/// Computes `(a * b) mod m` without requiring 256-bit arithmetic.
/// Uses 128 iterations of conditional doubling.
pub fn mul_mod_128(a: u128, b: u128, m: u128) -> (r: u128)
    requires
        m > 0,
    ensures
        r == (a * b) % (m as int),
        r < m,
{
    let ghost a0 = a;
    let ghost b0 = b;
    let mut a = a % m;
    let mut b = b % m;
    let mut result: u128 = 0;
    proof {
        lemma_mul_mod_noop(a0 as int, b0 as int, m as int);
    }
    while b > 0
        invariant
            m > 0,
            a < m,
            result < m,
            (result + a * b) % (m as int) == (a0 * b0) % (m as int),
        decreases b,
    {
        proof {
            lemma_double_add_step(result as nat, a as nat, b as nat, m as nat);
            assert((b & 1u128 == 1u128) == (b % 2 == 1)) by (bit_vector);
            assert(b >> 1u128 == b / 2) by (bit_vector);
        }
        if b & 1 == 1 {
            result = add_mod(result, a, m);
        }
        a = add_mod(a, a, m);
        b >>= 1;
    }
    proof {
        lemma_small_mod(result as nat, m as nat);
    }
    result
}

/// Modular exponentiation for 128-bit values via square-and-multiply.
pub fn pow_mod_128(base: u128, exp: u128, m: u128) -> (r: u128)
    requires
        m > 0,
    ensures
        r == pow(base as int, exp as nat) % (m as int),
        r < m,
{
    let ghost base0 = base;
    let ghost exp0 = exp;
    if m == 1 {
        return 0;
    }
    let mut base = base;
    let mut exp = exp;
    let mut result: u128 = 1;
    base %= m;
    proof {
        lemma_pow_mod_noop(base0 as int, exp0 as nat, m as int);
        lemma_small_mod(1, m as nat);
    }
    while exp > 0
        invariant
            m > 1,
            base < m,
            result < m,
            (result * pow(base as int, exp as nat)) % (m as int) == pow(base0 as int, exp0 as nat)
                % (m as int),
        decreases exp,
    {
        proof {
            lemma_square_multiply_step(result as nat, base as nat, exp as nat, m as nat);
            assert((exp & 1u128 == 1u128) == (exp % 2 == 1)) by (bit_vector);
            assert(exp >> 1u128 == exp / 2) by (bit_vector);
        }
        if exp & 1 == 1 {
            result = mul_mod_128(result, base, m);
        }
        exp >>= 1;
        base = mul_mod_128(base, base, m);
    }
    proof {
        lemma_pow0(base as int);
        lemma_small_mod(result as nat, m as nat);
    }
    result
}


/// Entry `i` of the table is the first one that divides `n`.
pub open spec fn first_table_divisor(n: u128, i: int) -> bool {
    &&& 0 <= i < 200
    &&& n % (SMALL_PRIMES[i] as u128) == 0
    &&& forall|j: int| 0 <= j < i ==> n % (#[trigger] SMALL_PRIMES[j] as u128) != 0
}

/// Some table entry divides `n`.
pub open spec fn has_table_divisor(n: u128) -> bool {
    exists|i: int| 0 <= i < 200 && n % (#[trigger] SMALL_PRIMES[i] as u128) == 0
}

/// The odd part of `x`: `x` with every factor 2 divided out (zero stays zero).
pub open spec fn odd_part(x: nat) -> nat
    decreases x,
{
    if x > 0 && x % 2 == 0 {
        odd_part(x / 2)
    } else {
        x
    }
}

/// The number of factors 2 in `x` (zero for zero).
pub open spec fn two_adic_valuation(x: nat) -> nat
    decreases x,
{
    if x > 0 && x % 2 == 0 {
        1 + two_adic_valuation(x / 2)
    } else {
        0
    }
}

/// `a^(d * 2^j) mod n`, where `d` is the odd part of `n - 1`.
pub open spec fn mr_power(n: nat, a: nat, j: nat) -> int {
    pow(a as int, odd_part((n - 1) as nat) * pow2(j)) % (n as int)
}

/// One Miller-Rabin round for `n` to base `a`: with `n - 1 = d * 2^s`, `d`
/// odd, either `a^d` is `1` or `-1` modulo `n`, or `a^(d * 2^j)` is `-1`
/// modulo `n` for some `1 <= j < s`.
pub open spec fn miller_rabin_round(n: nat, a: nat) -> bool {
    let s = two_adic_valuation((n - 1) as nat);
    ||| mr_power(n, a, 0) == 1
    ||| mr_power(n, a, 0) == n - 1
    ||| exists|j: nat| 1 <= j < s && #[trigger] mr_power(n, a, j) == n - 1
}

/// What `is_prime_128` answers for `n`: below 2 never; 2 and 3 always; even
/// numbers never; otherwise, if a table prime divides `n`, whether the first
/// such prime is `n` itself; otherwise whether `n` passes Miller-Rabin rounds
/// to the bases 2 and 3.
#[verifier::opaque]
pub open spec fn is_prime_128_spec(n: u128) -> bool {
    if n < 2 {
        false
    } else if n == 2 || n == 3 {
        true
    } else if n % 2 == 0 {
        false
    } else if has_table_divisor(n) {
        exists|i: int| first_table_divisor(n, i) && SMALL_PRIMES[i] == n
    } else {
        miller_rabin_round(n as nat, 2) && miller_rabin_round(n as nat, 3)
    }
}

/// `2^128` as a literal.
pub proof fn lemma_pow2_128()
    ensures
        pow2(128) == 0x1_0000_0000_0000_0000_0000_0000_0000_0000nat,
{
    lemma2_to64();
    lemma_pow2_adds(64, 64);
}

/// Squaring the witness power moves to the next exponent `d * 2^(j+1)`.
proof fn lemma_mr_power_square(n: nat, a: nat, j: nat)
    requires
        n > 1,
    ensures
        mr_power(n, a, j + 1) == (mr_power(n, a, j) * mr_power(n, a, j)) % (n as int),
{
    let d = odd_part((n - 1) as nat);
    let e = d * pow2(j);
    lemma_pow2_adds(j, 1);
    lemma2_to64();
    assert(d * pow2(j + 1) == e * 2) by (nonlinear_arith)
        requires
            e == d * pow2(j),
            pow2(j + 1) == pow2(j) * 2,
    ;
    lemma_pow_multiplies(a as int, e, 2);
    lemma_square_is_pow2(pow(a as int, e));
    lemma_mul_mod_noop(pow(a as int, e), pow(a as int, e), n as int);
}

/// Halving an even number keeps the odd part and lowers the two-adic valuation by one.
proof fn lemma_halve_even(x: nat)
    requires
        x > 0,
        x % 2 == 0,
    ensures
        odd_part(x / 2) == odd_part(x),
        two_adic_valuation(x) == 1 + two_adic_valuation(x / 2),
{
}

/// Single round of Miller-Rabin primality test.
fn miller_rabin(n: u128, a: u128) -> (r: bool)
    requires
        n > 1,
    ensures
        r == miller_rabin_round(n as nat, a as nat),
{
    // Write n-1 = 2^s * d, d odd.
    let mut d = n - 1;
    let mut s = 0u32;
    proof {
        lemma2_to64();
        lemma_pow2_128();
    }
    while d % 2 == 0
        invariant
            n > 1,
            d > 0,
            odd_part(d as nat) == odd_part((n - 1) as nat),
            two_adic_valuation((n - 1) as nat) == s + two_adic_valuation(d as nat),
            (d as nat) * pow2(s as nat) == n - 1,
            s < 128,
            pow2(128) == 0x1_0000_0000_0000_0000_0000_0000_0000_0000nat,
        decreases d,
    {
        proof {
            lemma_halve_even(d as nat);
            lemma_pow2_adds(s as nat, 1);
            lemma2_to64();
            let dd = d as nat;
            let ps = pow2(s as nat);
            assert((dd / 2) * pow2((s + 1) as nat) == n - 1) by (nonlinear_arith)
                requires
                    dd * ps == n - 1,
                    dd % 2 == 0,
                    pow2((s + 1) as nat) == ps * 2,
            ;
            if s + 1 >= 128 {
                if s + 1 > 128 {
                    lemma_pow2_strictly_increases(128, (s + 1) as nat);
                }
                assert((dd / 2) * pow2((s + 1) as nat) >= pow2((s + 1) as nat)) by (nonlinear_arith)
                    requires
                        dd / 2 >= 1,
                ;
            }
            assert(d >> 1u128 == d / 2) by (bit_vector);
        }
        d >>= 1;
        s += 1;
    }
    proof {
        lemma2_to64();
        assert(odd_part(d as nat) == d);
        assert(two_adic_valuation(d as nat) == 0);
        assert((d as nat) * pow2(0) == d);
    }
    // x = a^d mod n
    let mut x = pow_mod_128(a, d, n);
    assert(x == mr_power(n as nat, a as nat, 0));
    if x == 1 || x == n - 1 {
        return true;
    }
    let mut j: u32 = 1;
    while j < s
        invariant
            n > 1,
            1 <= j,
            j <= s || s == 0,
            s == two_adic_valuation((n - 1) as nat),
            x == mr_power(n as nat, a as nat, (j - 1) as nat),
            mr_power(n as nat, a as nat, 0) != 1,
            mr_power(n as nat, a as nat, 0) != n - 1,
            forall|k: nat| 1 <= k < j ==> #[trigger] mr_power(n as nat, a as nat, k) != n - 1,
        decreases s - j,
    {
        proof {
            lemma_mr_power_square(n as nat, a as nat, (j - 1) as nat);
        }
        x = mul_mod_128(x, x, n);
        if x == n - 1 {
            return true;
        }
        j = j + 1;
    }
    false
}

/// Entry `i` of the small-prime table, widened.
fn small_prime(i: usize) -> (p: u128)
    requires
        i < 200,
    ensures
        p == SMALL_PRIMES[i as int],
{
    SMALL_PRIMES[i] as u128
}

/// Trial division stopping at entry `i`: the spec's answer is whether entry `i` is `n`.
proof fn lemma_trial_hit(n: u128, i: int)
    requires
        0 <= i < 200,
        n % (SMALL_PRIMES[i] as u128) == 0,
        forall|j: int| 0 <= j < i ==> n % (#[trigger] SMALL_PRIMES[j] as u128) != 0,
    ensures
        has_table_divisor(n),
        (exists|k: int| first_table_divisor(n, k) && SMALL_PRIMES[k] == n) == (SMALL_PRIMES[i] == n),
{
    assert(first_table_divisor(n, i));
    assert forall|k: int| first_table_divisor(n, k) implies k == i by {
        if k < i {
            assert(n % (SMALL_PRIMES[k] as u128) != 0);
        } else if k > i {
            assert(n % (SMALL_PRIMES[i] as u128) != 0);
        }
    }
}

/// Trial division by the table: the answer when some table prime divides `n`.
fn trial_division(n: u128) -> (r: Option<bool>)
    ensures
        r is Some <==> has_table_divisor(n),
        r matches Some(b) ==> b == exists|k: int| first_table_divisor(n, k) && SMALL_PRIMES[k] == n,
{
    let mut i: usize = 0;
    while i < 200
        invariant
            i <= 200,
            forall|j: int| 0 <= j < i ==> n % (#[trigger] SMALL_PRIMES[j] as u128) != 0,
        decreases 200 - i,
    {
        let p = small_prime(i);
        if n == p {
            proof {
                lemma_trial_hit(n, i as int);
            }
            return Some(true);
        }
        if n % p == 0 {
            proof {
                lemma_trial_hit(n, i as int);
            }
            return Some(false);
        }
        i += 1;
    }
    None
}

/// Primality test for 128-bit values.
///
/// Trial division by the first 200 small primes, then 2 rounds of
/// Miller-Rabin (bases 2, 3). Error probability per candidate is about 4^-2;
/// negligible in the Fiat-Shamir context.
pub fn is_prime_128(n: u128) -> (r: bool)
    ensures
        r == is_prime_128_spec(n),
{
    reveal(is_prime_128_spec);
    if n < 2 {
        return false;
    }
    if n == 2 || n == 3 {
        return true;
    }
    if n % 2 == 0 {
        return false;
    }
    // Trial division by small primes.
    match trial_division(n) {
        Some(answer) => {
            return answer;
        },
        None => {},
    }
    // Miller-Rabin with bases 2 and 3.
    miller_rabin(n, 2) && miller_rabin(n, 3)
}


/// The first 16 bytes of a digest read as a little-endian `u128`.
fn le_u128_prefix(bytes: &[u8; 32]) -> (v: u128)
    ensures
        v == le_bytes_val(bytes@.take(16)),
{
    let mut v: u128 = 0;
    let mut i: usize = 16;
    proof {
        assert(bytes@.subrange(16, 16) =~= Seq::<u8>::empty());
    }
    while i > 0
        invariant
            i <= 16,
            v == le_bytes_val(bytes@.subrange(i as int, 16)),
        decreases i,
    {
        i = i - 1;
        proof {
            let s = bytes@.subrange(i as int, 16);
            assert(s.drop_first() =~= bytes@.subrange(i + 1, 16));
            lemma_le_bytes_bound(bytes@.subrange(i + 1, 16));
            lemma_pow2_adds(8 * (15 - i) as nat, 8);
            assert(8 * (15 - i) + 8 == 8 * (16 - i));
            if i > 0 {
                lemma_pow2_strictly_increases(8 * (16 - i) as nat, 128);
            }
            lemma_pow2_128();
            lemma2_to64();
            let p = pow2(8 * (15 - i) as nat);
            let vv = v as nat;
            let b = bytes[i as int] as nat;
            assert(vv * 256 + b < p * 256) by (nonlinear_arith)
                requires
                    vv < p,
                    b < 256,
            ;
        }
        v = v * 256 + (bytes[i] as u128);
    }
    proof {
        assert(bytes@.subrange(0, 16) =~= bytes@.take(16));
    }
    v
}

/// The search start derived from a digest: its first 16 bytes read little-endian,
/// with bit 127 and bit 0 forced on.
pub open spec fn hash_prime_candidate(digest: Seq<u8>) -> u128 {
    ((le_bytes_val(digest.take(16)) as u128) | 0x8000_0000_0000_0000_0000_0000_0000_0000u128) | 1u128
}

/// `l` is the first value passing `is_prime_128` among `c, c + 2, c + 4, ...`.
pub open spec fn is_first_passing_from(c: u128, l: u128) -> bool {
    &&& c <= l
    &&& (l - c) % 2 == 0
    &&& is_prime_128_spec(l)
    &&& forall|k: u128| c <= k < l && (k - c) % 2 == 0 ==> !#[trigger] is_prime_128_spec(k)
}

/// Some value among `c, c + 2, c + 4, ...` that fits in 128 bits passes `is_prime_128`.
pub open spec fn prime_search_succeeds(c: u128) -> bool {
    exists|l: u128| c <= l && (l - c) % 2 == 0 && #[trigger] is_prime_128_spec(l)
}

/// The first value passing `is_prime_128` among `c, c + 2, c + 4, ...`.
pub open spec fn first_passing_from(c: u128) -> u128 {
    choose|l: u128| is_first_passing_from(c, l)
}

/// The Fiat-Shamir challenge prime of a digest.
pub open spec fn challenge_prime(digest: Seq<u8>) -> u128 {
    first_passing_from(hash_prime_candidate(digest))
}

/// Every table entry is above one.
proof fn lemma_small_primes_above_one()
    ensures
        forall|i: int| 0 <= i < 200 ==> #[trigger] SMALL_PRIMES[i] > 1,
{
    assert(forall|i: int| 0 <= i < 200 ==> #[trigger] SMALL_PRIMES[i] > 1);
}

/// A table entry dividing `n` yields a first one.
proof fn lemma_first_table_divisor_exists(n: u128, i: int)
    requires
        0 <= i < 200,
        n % (SMALL_PRIMES[i] as u128) == 0,
    ensures
        exists|k: int| first_table_divisor(n, k),
    decreases i,
{
    if forall|j: int| 0 <= j < i ==> n % (#[trigger] SMALL_PRIMES[j] as u128) != 0 {
        assert(first_table_divisor(n, i));
    } else {
        let j = choose|j: int| 0 <= j < i && n % (#[trigger] SMALL_PRIMES[j] as u128) == 0;
        lemma_first_table_divisor_exists(n, j);
    }
}

/// Halving out the factors of two: `x == odd_part(x) * 2^v(x)` for `x > 0`.
pub proof fn lemma_odd_part_decomposition(x: nat)
    requires
        x > 0,
    ensures
        odd_part(x) * pow2(two_adic_valuation(x)) == x,
        odd_part(x) % 2 == 1,
    decreases x,
{
    lemma2_to64();
    if x % 2 == 0 {
        lemma_odd_part_decomposition(x / 2);
        let v = two_adic_valuation(x / 2);
        lemma_pow2_adds(1, v);
        let o = odd_part(x / 2);
        assert(o * pow2(v + 1) == 2 * (o * pow2(v))) by (nonlinear_arith)
            requires
                pow2(v + 1) == 2 * pow2(v),
        ;
    } else {
        assert(x * pow2(0) == x);
    }
}

/// Modulo a prime, the only square roots of one are `1` and `-1`.
pub proof fn lemma_square_roots_of_one(n: nat, x: nat)
    requires
        is_prime(n),
        x < n,
        ((x * x) as int) % (n as int) == 1,
    ensures
        x == 1 || x == n - 1,
{
    lemma_small_mod(1, n);
    lemma_sub_mod_noop((x * x) as int, 1, n as int);
    lemma_mod_self_0(n as int);
    assert((x * x - 1) % (n as int) == 0);
    assert(x * x - 1 == (x - 1) * (x + 1)) by (nonlinear_arith);
    lemma_euclid(n, x - 1, (x + 1) as int);
    if divides(n, x - 1) {
        if x >= 1 {
            lemma_small_mod((x - 1) as nat, n);
        } else {
            lemma_mod_bound(-1, n as int);
            lemma_fundamental_div_mod_converse(-1, n as int, -1, (n - 1) as int);
        }
    } else {
        if x + 1 < n {
            lemma_small_mod((x + 1) as nat, n);
        }
    }
}

/// Descending the squaring chain of a prime from a non-one entry reaches a `-1`.
proof fn lemma_mr_chain_reaches_minus_one(n: nat, a: nat, j: nat)
    requires
        is_prime(n),
        j < two_adic_valuation((n - 1) as nat),
        mr_power(n, a, j) != 1,
        mr_power(n, a, two_adic_valuation((n - 1) as nat)) == 1,
    ensures
        exists|k: nat| j <= k < two_adic_valuation((n - 1) as nat) && #[trigger] mr_power(n, a, k) == n - 1,
    decreases two_adic_valuation((n - 1) as nat) - j,
{
    let x = mr_power(n, a, j);
    lemma_mr_power_square(n, a, j);
    lemma_mod_bound(pow(a as int, odd_part((n - 1) as nat) * pow2(j)), n as int);
    if mr_power(n, a, j + 1) == 1 {
        lemma_square_roots_of_one(n, x as nat);
        assert(mr_power(n, a, j) == n - 1);
    } else {
        lemma_mr_chain_reaches_minus_one(n, a, j + 1);
        let k = choose|k: nat| j + 1 <= k < two_adic_valuation((n - 1) as nat) && #[trigger] mr_power(n, a, k) == n - 1;
        assert(mr_power(n, a, k) == n - 1);
    }
}

/// A Miller-Rabin round never rejects a prime to a base it does not divide.
pub proof fn lemma_miller_rabin_accepts_primes(n: nat, a: nat)
    requires
        is_prime(n),
        !divides(n, a as int),
    ensures
        miller_rabin_round(n, a),
{
    let m = (n - 1) as nat;
    let s = two_adic_valuation(m);
    lemma_odd_part_decomposition(m);
    lemma_fermat_little(a, n);
    assert(mr_power(n, a, s) == 1);
    if mr_power(n, a, 0) != 1 {
        if s == 0 {
            lemma2_to64();
            assert(odd_part(m) * pow2(0) == odd_part(m));
        } else {
            lemma_mr_chain_reaches_minus_one(n, a, 0);
            let k = choose|k: nat| 0 <= k < s && #[trigger] mr_power(n, a, k) == n - 1;
            if k >= 1 {
                assert(exists|j: nat| 1 <= j < s && #[trigger] mr_power(n, a, j) == n - 1);
            }
        }
    }
}

/// `is_prime_128` accepts every prime: trial division only rejects numbers
/// with a smaller table divisor, and Miller-Rabin rounds never reject a prime.
pub proof fn law_is_prime_128_accepts_primes(n: u128)
    requires
        is_prime(n as nat),
    ensures
        is_prime_128_spec(n),
{
    reveal(is_prime_128_spec);
    lemma_small_primes_above_one();
    if n > 3 {
        if n % 2 == 0 {
            assert((n as nat) % 2 != 0);
        }
        if has_table_divisor(n) {
            let i = choose|i: int| 0 <= i < 200 && n % (#[trigger] SMALL_PRIMES[i] as u128) == 0;
            lemma_first_table_divisor_exists(n, i);
            let k = choose|k: int| first_table_divisor(n, k);
            let d = SMALL_PRIMES[k] as nat;
            assert(d > 1);
            if d < n {
                assert((n as nat) % d != 0);
            }
            if d > n {
                lemma_small_mod(n as nat, d);
            }
            assert(SMALL_PRIMES[k] == n);
        } else {
            lemma_small_mod(2, n as nat);
            lemma_small_mod(3, n as nat);
            lemma_miller_rabin_accepts_primes(n as nat, 2);
            lemma_miller_rabin_accepts_primes(n as nat, 3);
        }
    }
}

/// The search start always has bit 127 set.
pub proof fn lemma_candidate_high_bit(digest: Seq<u8>)
    ensures
        hash_prime_candidate(digest) >= 0x8000_0000_0000_0000_0000_0000_0000_0000u128,
{
    let v = le_bytes_val(digest.take(16)) as u128;
    assert(((v | 0x8000_0000_0000_0000_0000_0000_0000_0000u128) | 1u128)
        >= 0x8000_0000_0000_0000_0000_0000_0000_0000u128) by (bit_vector);
}

/// A passing value at or above `c` (with the parity of `c`) yields a first one.
proof fn lemma_first_passing_below(c: u128, l: u128)
    requires
        c <= l,
        (l - c) % 2 == 0,
        is_prime_128_spec(l),
    ensures
        exists|f: u128| is_first_passing_from(c, f),
    decreases l - c,
{
    if forall|k: u128| c <= k < l && (k - c) % 2 == 0 ==> !#[trigger] is_prime_128_spec(k) {
        assert(is_first_passing_from(c, l));
    } else {
        let k = choose|k: u128| c <= k < l && (k - c) % 2 == 0 && #[trigger] is_prime_128_spec(k);
        lemma_first_passing_below(c, k);
    }
}

/// Where the search succeeds, its answer is the first passing value.
pub proof fn lemma_search_first(c: u128)
    requires
        prime_search_succeeds(c),
    ensures
        is_first_passing_from(c, first_passing_from(c)),
        first_passing_from(c) >= c,
{
    let l = choose|l: u128| c <= l && (l - c) % 2 == 0 && #[trigger] is_prime_128_spec(l);
    lemma_first_passing_below(c, l);
}

/// The first passing value, where the search succeeds, is unique.
pub proof fn lemma_first_passing_unique(c: u128, l: u128)
    requires
        is_first_passing_from(c, l),
    ensures
        prime_search_succeeds(c),
        first_passing_from(c) == l,
{
    assert(is_first_passing_from(c, l));
    let l2 = first_passing_from(c);
    assert(is_first_passing_from(c, l2));
    if l2 < l {
        assert(!is_prime_128_spec(l2));
    } else if l < l2 {
        assert(!is_prime_128_spec(l));
    }
}

/// Searches `c, c + 2, c + 4, ...` for the first value passing `is_prime_128`;
/// `None` when the search would run past `u128::MAX`.
pub fn search_prime_from(c: u128) -> (r: Option<u128>)
    ensures
        r matches Some(l) ==> is_first_passing_from(c, l),
        r is None <==> !prime_search_succeeds(c),
{
    let mut candidate = c;
    loop
        invariant
            c <= candidate,
            (candidate - c) % 2 == 0,
            forall|k: u128| c <= k < candidate && (k - c) % 2 == 0 ==> !#[trigger] is_prime_128_spec(k),
        decreases u128::MAX - candidate,
    {
        if is_prime_128(candidate) {
            return Some(candidate);
        }
        if candidate > u128::MAX - 2 {
            proof {
                assert forall|l: u128| c <= l && (l - c) % 2 == 0 implies !#[trigger] is_prime_128_spec(l) by {
                    if l >= candidate {
                        assert(l == candidate);
                    }
                }
            }
            return None;
        }
        candidate = candidate + 2;
    }
}

/// Derive a deterministic 128-bit prime from VDF input/output pair.
///
/// 1. SHA-256(x_bytes || y_bytes)
/// 2. Extract 128-bit candidate, force bit 127 high + bit 0 odd
/// 3. Search upward for the next prime (trial division + Miller-Rabin)
///
/// Expected search length: ~89 candidates (prime density at 128 bits is about 1/ln(2^128)).
/// The search must not run past `u128::MAX`, which `checked_hash_to_prime`
/// tests first.
pub fn hash_to_prime(x_bytes: &[u8], y_bytes: &[u8]) -> (l: u128)
    requires
        prime_search_succeeds(hash_prime_candidate(sha256(x_bytes@ + y_bytes@))),
    ensures
        is_first_passing_from(hash_prime_candidate(sha256(x_bytes@ + y_bytes@)), l),
        l == challenge_prime(sha256(x_bytes@ + y_bytes@)),
        l >= 0x8000_0000_0000_0000_0000_0000_0000_0000u128,
{
    let data = concat_bytes(x_bytes, y_bytes);
    let hash = sha256_digest(data.as_slice());
    // Extract 128-bit candidate from first 16 bytes.
    let mut candidate = le_u128_prefix(&hash);
    // Force bit 127 high (ensure 128-bit) and bit 0 odd.
    candidate |= 1u128 << 127u128;
    candidate |= 1;
    assert(1u128 << 127u128 == 0x8000_0000_0000_0000_0000_0000_0000_0000u128) by (bit_vector);
    let ghost v = le_bytes_val(hash@.take(16)) as u128;
    assert(((v | 0x8000_0000_0000_0000_0000_0000_0000_0000u128) | 1u128)
        >= 0x8000_0000_0000_0000_0000_0000_0000_0000u128) by (bit_vector);
    // Find next prime.
    let l = search_prime_from(candidate).expect("hash_to_prime overflow");
    proof {
        lemma_first_passing_unique(candidate, l);
    }
    l
}

/// `hash_to_prime` where its search succeeds, and `None` where it would run
/// past `u128::MAX`.
pub fn checked_hash_to_prime(x_bytes: &[u8], y_bytes: &[u8]) -> (r: Option<u128>)
    ensures
        r is Some <==> prime_search_succeeds(hash_prime_candidate(sha256(x_bytes@ + y_bytes@))),
        r matches Some(l) ==> l == challenge_prime(sha256(x_bytes@ + y_bytes@))
            && l >= 0x8000_0000_0000_0000_0000_0000_0000_0000u128,
{
    let data = concat_bytes(x_bytes, y_bytes);
    let hash = sha256_digest(data.as_slice());
    let mut candidate = le_u128_prefix(&hash);
    candidate |= 1u128 << 127u128;
    candidate |= 1;
    assert(1u128 << 127u128 == 0x8000_0000_0000_0000_0000_0000_0000_0000u128) by (bit_vector);
    let ghost v = le_bytes_val(hash@.take(16)) as u128;
    assert(((v | 0x8000_0000_0000_0000_0000_0000_0000_0000u128) | 1u128)
        >= 0x8000_0000_0000_0000_0000_0000_0000_0000u128) by (bit_vector);
    let found = search_prime_from(candidate);
    proof {
        if let Some(l) = found {
            lemma_first_passing_unique(candidate, l);
        }
    }
    found
}


/// Squaring one, or minus one, modulo `n` gives one.
proof fn lemma_square_of_pm_one(n: nat, x: int)
    requires
        n > 1,
        x == 1 || x == n - 1,
    ensures
        (x * x) % (n as int) == 1,
{
    lemma_small_mod(1, n);
    if x == n - 1 {
        assert(x * x == n * (n - 2) + 1) by (nonlinear_arith)
            requires
                x == n - 1,
        ;
        lemma_fundamental_div_mod_converse(x * x, n as int, n - 2, 1);
    }
}

/// Once the squaring chain of a Miller-Rabin round reaches one, it stays one.
proof fn lemma_mr_power_stays_one(n: nat, a: nat, j: nat, s: nat)
    requires
        n > 1,
        j <= s,
        mr_power(n, a, j) == 1,
    ensures
        mr_power(n, a, s) == 1,
    decreases s - j,
{
    if j < s {
        lemma_mr_power_square(n, a, j);
        lemma_square_of_pm_one(n, 1);
        lemma_mr_power_stays_one(n, a, j + 1, s);
    }
}

/// A number that passes a Miller-Rabin round to base `a` satisfies Fermat's
/// congruence `a^(n - 1) == 1 (mod n)`.
pub proof fn lemma_miller_rabin_fermat(n: nat, a: nat)
    requires
        n > 2,
        n % 2 == 1,
        miller_rabin_round(n, a),
    ensures
        pow(a as int, (n - 1) as nat) % (n as int) == 1,
{
    let m = (n - 1) as nat;
    let s = two_adic_valuation(m);
    lemma_odd_part_decomposition(m);
    assert(s >= 1) by {
        if s == 0 {
            lemma2_to64();
            assert(odd_part(m) * pow2(0) == odd_part(m));
        }
    }
    assert(mr_power(n, a, s) == pow(a as int, m) % (n as int));
    if mr_power(n, a, 0) == 1 {
        lemma_mr_power_stays_one(n, a, 0, s);
    } else if mr_power(n, a, 0) == n - 1 {
        lemma_mr_power_square(n, a, 0);
        lemma_square_of_pm_one(n, n - 1);
        lemma_mr_power_stays_one(n, a, 1, s);
    } else {
        let j = choose|j: nat| 1 <= j < s && #[trigger] mr_power(n, a, j) == n - 1;
        lemma_mr_power_square(n, a, j);
        lemma_square_of_pm_one(n, n - 1);
        lemma_mr_power_stays_one(n, a, j + 1, s);
    }
}

/// Every table entry is at most 1229.
proof fn lemma_small_primes_at_most_1229()
    ensures
        forall|i: int| 0 <= i < 200 ==> #[trigger] SMALL_PRIMES[i] <= 1229,
{
    assert(forall|i: int| 0 <= i < 200 ==> #[trigger] SMALL_PRIMES[i] <= 1229);
}

/// What `is_prime_128` accepts above the table is odd, divisible by no table
/// prime, passes the Miller-Rabin rounds to both bases 2 and 3, and so
/// satisfies Fermat's congruence to both bases: `2^(n - 1) == 1` and
/// `3^(n - 1) == 1 (mod n)`.
pub proof fn law_is_prime_128_accepts_only_probable_primes(n: u128)
    requires
        n > 1229,
        is_prime_128_spec(n),
    ensures
        n % 2 == 1,
        forall|i: int| 0 <= i < 200 ==> n % (#[trigger] SMALL_PRIMES[i] as u128) != 0,
        miller_rabin_round(n as nat, 2),
        miller_rabin_round(n as nat, 3),
        pow(2, (n - 1) as nat) % (n as int) == 1,
        pow(3, (n - 1) as nat) % (n as int) == 1,
{
    reveal(is_prime_128_spec);
    lemma_small_primes_at_most_1229();
    if has_table_divisor(n) {
        let k = choose|k: int| first_table_divisor(n, k) && SMALL_PRIMES[k] == n;
        assert(SMALL_PRIMES[k] <= 1229);
    }
    lemma_miller_rabin_fermat(n as nat, 2);
    lemma_miller_rabin_fermat(n as nat, 3);
}

/// The challenge search starts from the digest's first 16 bytes read
/// little-endian, with bit 127 and bit 0 forced on and bits 1 to 126 left as
/// the digest has them: `2^127 + 2 * floor((v mod 2^127) / 2) + 1`.
pub proof fn law_hash_prime_candidate_value(digest: Seq<u8>)
    requires
        digest.len() >= 16,
    ensures
        hash_prime_candidate(digest) == 0x8000_0000_0000_0000_0000_0000_0000_0000nat + 2 * ((
        le_bytes_val(digest.take(16)) % 0x8000_0000_0000_0000_0000_0000_0000_0000nat) / 2) + 1,
{
    lemma_le_bytes_bound(digest.take(16));
    lemma_pow2_128();
    assert(8 * 16 == 128);
    let v = le_bytes_val(digest.take(16)) as u128;
    assert(v == le_bytes_val(digest.take(16)));
    assert(((v | 0x8000_0000_0000_0000_0000_0000_0000_0000u128) | 1u128) == 0x8000_0000_0000_0000_0000_0000_0000_0000u128
        + 2 * ((v % 0x8000_0000_0000_0000_0000_0000_0000_0000u128) / 2) + 1) by (bit_vector);
}

/// The Fiat-Shamir challenge of a digest, where its search succeeds, is the
/// least value passing `is_prime_128` among `s, s + 2, s + 4, ...`, with `s`
/// the digest's first 16 bytes read little-endian with bits 127 and 0 set.
pub proof fn law_challenge_prime_first_from_digest(digest: Seq<u8>)
    requires
        digest.len() >= 16,
        prime_search_succeeds(hash_prime_candidate(digest)),
    ensures
        ({
            let s = 0x8000_0000_0000_0000_0000_0000_0000_0000nat + 2 * ((le_bytes_val(digest.take(16))
                % 0x8000_0000_0000_0000_0000_0000_0000_0000nat) / 2) + 1;
            let l = challenge_prime(digest);
            &&& s <= l
            &&& (l - s) % 2 == 0
            &&& is_prime_128_spec(l)
            &&& forall|k: u128| s <= k < l && (k - s) % 2 == 0 ==> !#[trigger] is_prime_128_spec(k)
        }),
{
    law_hash_prime_candidate_value(digest);
    lemma_search_first(hash_prime_candidate(digest));
}

} // verus!
