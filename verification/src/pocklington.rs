//! Pocklington's primality criterion.
use vstd::prelude::*;
use vstd::arithmetic::power::*;
use vstd::arithmetic::div_mod::*;
use vstd::arithmetic::mul::*;
use crate::number_theory::{divides, is_prime, lemma_divides_multiple, lemma_euclid, lemma_fermat_little};

verus! {

/// One step of square-and-multiply: from `a^e mod n` to `a^(2 e + b) mod n`.
pub proof fn lemma_pow_step(a: int, e: nat, r: int, n: int, b: nat)
    requires
        n > 0,
        b < 2,
        pow(a, e) % n == r,
    ensures
        pow(a, 2 * e + b) % n == (r * r * (if b == 1 { a } else { 1 })) % n,
{
    let x = pow(a, e);
    let y: int = if b == 1 { a } else { 1 };
    lemma_pow_adds(a, e, e);
    lemma_pow_adds(a, e + e, b);
    reveal_with_fuel(pow, 2);
    assert(pow(a, b) == y);
    assert(2 * e + b == (e + e) + b);
    assert(pow(a, 2 * e + b) == x * x * y);
    lemma_mul_mod_noop_left(x, x, n);
    lemma_mul_mod_noop_right(r, x, n);
    lemma_mul_mod_noop_left(x * x, y, n);
    lemma_mul_mod_noop_left(r * r, y, n);
}

/// `x` is a multiple of `c`, and `c` of `d`: so `x` is a multiple of `d`.
pub proof fn lemma_divides_trans(x: int, c: int, d: int)
    requires
        c > 0,
        d > 0,
        x % c == 0,
        c % d == 0,
    ensures
        x % d == 0,
{
    lemma_fundamental_div_mod(x, c);
    lemma_fundamental_div_mod(c, d);
    let u = x / c;
    let v = c / d;
    assert(x == d * (v * u)) by (nonlinear_arith)
        requires
            x == c * u,
            c == d * v,
    ;
    lemma_mod_multiples_basic(v * u, d);
    lemma_mul_is_commutative(d, v * u);
}

/// A number with a proper divisor has one above one whose square is at most the number.
pub proof fn lemma_small_divisor(n: nat, c: nat) -> (m: nat)
    requires
        1 < c < n,
        n % c == 0,
    ensures
        1 < m,
        m * m <= n,
        n % m == 0,
{
    lemma_fundamental_div_mod(n as int, c as int);
    let c2 = n / c;
    assert(n == c * c2);
    if c2 <= 1 {
        assert(c * c2 <= c) by (nonlinear_arith)
            requires
                c2 <= 1,
                c > 0,
        ;
    }
    lemma_mod_multiples_basic(c as int, c2 as int);
    lemma_mul_is_commutative(c as int, c2 as int);
    if c <= c2 {
        assert(c * c <= c * c2) by (nonlinear_arith)
            requires
                c <= c2,
        ;
        c
    } else {
        assert(c2 * c2 <= c * c2) by (nonlinear_arith)
            requires
                c2 < c,
        ;
        c2
    }
}

/// Every number above one has a prime divisor no larger than itself.
pub proof fn lemma_prime_divisor(m: nat) -> (d: nat)
    requires
        m > 1,
    ensures
        is_prime(d),
        1 < d <= m,
        m % d == 0,
    decreases m,
{
    if is_prime(m) {
        lemma_mod_self_0(m as int);
        m
    } else {
        let c = choose|c: nat| 1 < c < m && #[trigger] (m % c) == 0;
        let d = lemma_prime_divisor(c);
        lemma_divides_trans(m as int, c as int, d as int);
        d
    }
}

/// Pocklington's criterion: if every prime divisor of `n` is one more than a
/// multiple of `f`, and `(f + 1)^2 > n`, then `n` is prime.
pub proof fn lemma_pocklington(n: nat, f: nat)
    requires
        n > 1,
        f > 0,
        (f + 1) * (f + 1) > n,
        forall|d: nat| is_prime(d) && #[trigger] (n % d) == 0 ==> (d - 1) % (f as int) == 0,
    ensures
        is_prime(n),
{
    if !is_prime(n) {
        let c = choose|c: nat| 1 < c < n && #[trigger] (n % c) == 0;
        let m = lemma_small_divisor(n, c);
        let d = lemma_prime_divisor(m);
        lemma_divides_trans(n as int, m as int, d as int);
        assert((d - 1) % (f as int) == 0);
        lemma_fundamental_div_mod(d - 1, f as int);
        let w = (d - 1) / (f as int);
        assert(w >= 1) by (nonlinear_arith)
            requires
                d - 1 == f * w,
                d > 1,
                f > 0,
        ;
        assert(d >= f + 1) by (nonlinear_arith)
            requires
                d - 1 == f * w,
                w >= 1,
                f > 0,
        ;
        assert(d * d <= m * m) by (nonlinear_arith)
            requires
                0 < d <= m,
        ;
        assert((f + 1) * (f + 1) <= d * d) by (nonlinear_arith)
            requires
                f + 1 <= d,
                f > 0,
        ;
    }
}

/// No divisor of `n` in `[j, k)`.
pub open spec fn no_divisor_in(n: nat, j: nat, k: nat) -> bool
    decreases k - j,
{
    if j >= k || j == 0 {
        true
    } else {
        n % j != 0 && no_divisor_in(n, j + 1, k)
    }
}

/// Trial division: no divisor in `[2, k]` and `(k + 1)^2 > n` make `n` prime.
pub proof fn lemma_trial_division(n: nat, k: nat)
    requires
        n > 1,
        (k + 1) * (k + 1) > n,
        no_divisor_in(n, 2, k + 1),
    ensures
        is_prime(n),
{
    if !is_prime(n) {
        let c = choose|c: nat| 1 < c < n && #[trigger] (n % c) == 0;
        let m = lemma_small_divisor(n, c);
        if m > k {
            assert((k + 1) * (k + 1) <= m * m) by (nonlinear_arith)
                requires
                    k + 1 <= m,
            ;
        }
        lemma_no_divisor_in(n, 2, k + 1, m);
    }
}

/// What `no_divisor_in` says of one number in its range.
proof fn lemma_no_divisor_in(n: nat, j: nat, k: nat, i: nat)
    requires
        no_divisor_in(n, j, k),
        0 < j <= i < k,
    ensures
        n % i != 0,
    decreases k - j,
{
    if j < i {
        lemma_no_divisor_in(n, j + 1, k, i);
    }
}

/// Cancelling a prime: if `k` divides `q m` and the prime `q` does not divide `k`,
/// then `k` divides `m`.
proof fn lemma_cancel_prime(k: nat, q: nat, m: nat)
    requires
        k > 0,
        is_prime(q),
        (k as int) % (q as int) != 0,
        ((q * m) as int) % (k as int) == 0,
    ensures
        (m as int) % (k as int) == 0,
{
    lemma_fundamental_div_mod((q * m) as int, k as int);
    let j = ((q * m) as int) / (k as int);
    assert(q * m == k * j);
    lemma_divides_multiple(q, m as int);
    assert(divides(q, (k as int) * j));
    lemma_euclid(q, k as int, j);
    lemma_fundamental_div_mod(j, q as int);
    let j2 = j / (q as int);
    assert(m == k * j2) by (nonlinear_arith)
        requires
            q * m == k * j,
            j == q * j2,
            q > 1,
    ;
    lemma_mod_multiples_basic(j2, k as int);
    lemma_mul_is_commutative(k as int, j2);
}

/// If `g` and a prime `q` that does not divide `g` both divide `x`, so does `g q`.
pub proof fn lemma_coprime_product_divides(g: nat, q: nat, x: int)
    requires
        g > 0,
        is_prime(q),
        (g as int) % (q as int) != 0,
        x % (g as int) == 0,
        x % (q as int) == 0,
    ensures
        x % ((g * q) as int) == 0,
{
    lemma_fundamental_div_mod(x, g as int);
    let h = x / (g as int);
    assert(divides(q, g * h));
    lemma_euclid(q, g as int, h);
    lemma_fundamental_div_mod(h, q as int);
    let h2 = h / (q as int);
    assert(x == (g * q) * h2) by (nonlinear_arith)
        requires
            x == g * h,
            h == q * h2,
    ;
    assert(g * q > 0) by (nonlinear_arith)
        requires
            g > 0,
            q > 1,
    ;
    lemma_mod_multiples_basic(h2, (g * q) as int);
    lemma_mul_is_commutative((g * q) as int, h2);
}

/// The least positive exponent that makes `a` one modulo `d`, found below `e`.
proof fn lemma_least_exponent(a: int, d: int, e: nat) -> (k: nat)
    requires
        d > 1,
        e > 0,
        pow(a, e) % d == 1,
    ensures
        0 < k <= e,
        pow(a, k) % d == 1,
        forall|j: nat| 0 < j < k ==> #[trigger] pow(a, j) % d != 1,
    decreases e,
{
    if exists|j: nat| 0 < j < e && #[trigger] pow(a, j) % d == 1 {
        let j = choose|j: nat| 0 < j < e && #[trigger] pow(a, j) % d == 1;
        lemma_least_exponent(a, d, j)
    } else {
        e
    }
}

/// Every exponent that makes `a` one modulo `d` is a multiple of the least one.
proof fn lemma_least_exponent_divides(a: int, d: int, k: nat, e: nat)
    requires
        d > 1,
        k > 0,
        pow(a, k) % d == 1,
        forall|j: nat| 0 < j < k ==> #[trigger] pow(a, j) % d != 1,
        pow(a, e) % d == 1,
    ensures
        e % k == 0,
{
    let q = e / k;
    let r = e % k;
    lemma_fundamental_div_mod(e as int, k as int);
    lemma_pow_adds(a, k * q, r);
    lemma_pow_multiplies(a, k, q);
    lemma_pow_mod_noop(pow(a, k), q, d);
    lemma1_pow(q);
    lemma_small_mod(1, d as nat);
    assert(pow(a, k * q) % d == 1);
    lemma_mul_mod_noop_left(pow(a, k * q), pow(a, r), d);
    assert(k * q + r == e);
    assert(pow(a, e) == pow(a, k * q) * pow(a, r));
    assert((pow(a, k * q) * pow(a, r)) % d == (1 * pow(a, r)) % d);
    assert(pow(a, r) % d == 1);
    if r > 0 {
        assert(pow(a, r) % d != 1);
    }
}

/// A multiple of the exponent makes `a` one again.
proof fn lemma_pow_multiple_one(a: int, d: int, k: nat, w: nat)
    requires
        d > 1,
        pow(a, k) % d == 1,
    ensures
        pow(a, k * w) % d == 1,
{
    lemma_pow_multiplies(a, k, w);
    lemma_pow_mod_noop(pow(a, k), w, d);
    lemma1_pow(w);
    lemma_small_mod(1, d as nat);
}

/// Reducing modulo `n` and then modulo a divisor `d` of `n` is reducing modulo `d`.
proof fn lemma_mod_divisor(x: int, n: nat, d: nat)
    requires
        d > 0,
        n > 0,
        n % d == 0,
    ensures
        (x % (n as int)) % (d as int) == x % (d as int),
{
    lemma_fundamental_div_mod(n as int, d as int);
    let c = n / d;
    assert(n == d * c);
    assert(c > 0) by (nonlinear_arith)
        requires
            n == d * c,
            n > 0,
            d > 0,
    ;
    lemma_mod_mod(x, d as int, c as int);
}

/// Pocklington's step for one prime `q` of `n - 1`: with a witness `a` such that
/// `a^(n - 1) == 1 (mod n)` and `r = a^((n - 1) / q) mod n` with `r - 1` a unit
/// modulo `n` (`s (r - 1) + t n == 1`), every prime divisor `d` of `n` has
/// `d == 1 (mod q)`.
pub proof fn lemma_pocklington_factor(
    n: nat,
    q: nat,
    m: nat,
    a: nat,
    r: int,
    s: int,
    t: int,
    d: nat,
)
    requires
        n > 1,
        is_prime(q),
        is_prime(d),
        n % d == 0,
        q * m + 1 == n,
        pow(a as int, (n - 1) as nat) % (n as int) == 1,
        pow(a as int, m) % (n as int) == r,
        s * (r - 1) + t * n == 1,
    ensures
        (d - 1) % (q as int) == 0,
{
    let e = (n - 1) as nat;
    assert(e == q * m);
    // modulo d, a^e is one
    lemma_mod_divisor(pow(a as int, e), n, d);
    lemma_small_mod(1, d);
    assert(pow(a as int, e) % (d as int) == 1);
    // so d does not divide a
    if divides(d, a as int) {
        lemma_pow_mod_noop(a as int, e, d as int);
        assert((a as int) % (d as int) == 0);
        lemma0_pow(e);
        assert(pow(0, e) == 0);
        assert(pow((a as int) % (d as int), e) == 0);
        lemma_small_mod(0, d);
        assert(pow(a as int, e) % (d as int) == 0);
    }
    lemma_fermat_little(a, d);
    let k = lemma_least_exponent(a as int, d as int, (d - 1) as nat);
    lemma_least_exponent_divides(a as int, d as int, k, (d - 1) as nat);
    lemma_least_exponent_divides(a as int, d as int, k, e);
    if (d - 1) % (q as int) != 0 {
        // q does not divide k, since k divides d - 1
        if (k as int) % (q as int) == 0 {
            lemma_divides_trans(d - 1, k as int, q as int);
        }
        lemma_cancel_prime(k, q, m);
        lemma_fundamental_div_mod(m as int, k as int);
        let w = m / k;
        lemma_pow_multiple_one(a as int, d as int, k, w as nat);
        assert(k * w == m);
        // so d divides r - 1 and n, hence s (r - 1) + t n == 1
        lemma_mod_divisor(pow(a as int, m), n, d);
        assert(r % (d as int) == 1);
        lemma_fundamental_div_mod(r, d as int);
        lemma_fundamental_div_mod(n as int, d as int);
        let u = r / (d as int);
        let v = (n as int) / (d as int);
        assert(1 == d * (s * u + t * v)) by (nonlinear_arith)
            requires
                s * (r - 1) + t * n == 1,
                r == d * u + 1,
                n == d * v,
        ;
        assert(false) by (nonlinear_arith)
            requires
                1 == d * (s * u + t * v),
                d > 1,
        ;
    }
}

} // verus!
