//! Elementary number theory behind the laws of the VDF: Euclid's lemma,
//! binomial coefficients and Fermat's little theorem.
use vstd::prelude::*;
use vstd::arithmetic::power::*;
use vstd::arithmetic::div_mod::*;
use vstd::arithmetic::mul::*;

verus! {

/// `n` is prime: above one, with no divisor strictly between one and `n`.
pub open spec fn is_prime(n: nat) -> bool {
    n > 1 && forall|d: nat| 1 < d < n ==> #[trigger] (n % d) != 0
}

/// `m` divides `x`.
pub open spec fn divides(m: nat, x: int) -> bool {
    x % (m as int) == 0
}

/// A multiple of `m` is divisible by `m`.
pub proof fn lemma_divides_multiple(m: nat, k: int)
    requires
        m > 0,
    ensures
        divides(m, m * k),
        divides(m, k * m),
{
    lemma_mod_multiples_basic(k, m as int);
    lemma_mul_is_commutative(m as int, k);
}

/// `x` is divisible by `m` exactly when it is `m` times some integer.
pub proof fn lemma_divides_witness(m: nat, x: int)
    requires
        m > 0,
        divides(m, x),
    ensures
        x == m * (x / (m as int)),
{
    lemma_fundamental_div_mod(x, m as int);
}

/// Euclid's lemma for a factor below the prime.
proof fn lemma_euclid_small(p: nat, a: nat, b: int)
    requires
        is_prime(p),
        0 < a < p,
        divides(p, a * b),
    ensures
        divides(p, b),
    decreases a,
{
    if a > 1 {
        let r = p % a;
        let q = p / a;
        lemma_fundamental_div_mod(p as int, a as int);
        assert(p % a != 0);
        lemma_mod_bound(p as int, a as int);
        // r * b == p * b - q * (a * b) is divisible by p
        lemma_divides_witness(p, a * b);
        let k = (a * b) / (p as int);
        assert(r * b == p * (b - q * k)) by (nonlinear_arith)
            requires
                p == a * q + r,
                a * b == p * k,
        ;
        lemma_divides_multiple(p, b - q * k);
        lemma_euclid_small(p, r, b);
    } else {
        assert(a * b == b) by (nonlinear_arith)
            requires
                a == 1,
        ;
    }
}

/// Euclid's lemma: a prime dividing a product divides one of the factors.
pub proof fn lemma_euclid(p: nat, a: int, b: int)
    requires
        is_prime(p),
        divides(p, a * b),
    ensures
        divides(p, a) || divides(p, b),
{
    let a2 = a % (p as int);
    if a2 != 0 {
        lemma_mod_bound(a, p as int);
        lemma_mul_mod_noop_left(a, b, p as int);
        lemma_euclid_small(p, a2 as nat, b);
    }
}


/// The binomial coefficient `n choose k`, by Pascal's rule.
pub open spec fn binom(n: nat, k: nat) -> nat
    decreases n,
{
    if k == 0 {
        1
    } else if n == 0 {
        0
    } else {
        binom((n - 1) as nat, (k - 1) as nat) + binom((n - 1) as nat, k)
    }
}

/// `n choose k` vanishes above `n`, and `n choose n` is one.
pub proof fn lemma_binom_edges(n: nat, k: nat)
    ensures
        k > n ==> binom(n, k) == 0,
        binom(n, n) == 1,
        binom(n, 1) == n,
    decreases n,
{
    if n > 0 {
        lemma_binom_edges((n - 1) as nat, (k - 1) as nat);
        lemma_binom_edges((n - 1) as nat, k);
        lemma_binom_edges((n - 1) as nat, n);
        lemma_binom_edges((n - 1) as nat, 0);
        assert(binom((n - 1) as nat, 0) == 1);
        assert(binom(n, 1) == binom((n - 1) as nat, 0) + binom((n - 1) as nat, 1));
    }
}

/// The absorption identity `k * C(n, k) == n * C(n - 1, k - 1)`.
pub proof fn lemma_binom_absorb(n: nat, k: nat)
    requires
        n >= 1,
        k >= 1,
    ensures
        k * binom(n, k) == n * binom((n - 1) as nat, (k - 1) as nat),
    decreases n,
{
    let n1 = (n - 1) as nat;
    let k1 = (k - 1) as nat;
    lemma_binom_edges(n, k);
    lemma_binom_edges(n1, k);
    lemma_binom_edges(n1, k1);
    if k == 1 {
        assert(binom(n1, 0) == 1);
        assert(k * binom(n, k) == n * binom(n1, k1)) by (nonlinear_arith)
            requires
                k == 1,
                k1 == 0,
                binom(n, k) == n,
                binom(n1, k1) == 1,
        ;
    } else if n == 1 {
        assert(k * binom(n, k) == n * binom(n1, k1)) by (nonlinear_arith)
            requires
                binom(n, k) == 0,
                binom(n1, k1) == 0,
        ;
    } else {
        let n2 = (n - 2) as nat;
        let k2 = (k - 2) as nat;
        lemma_binom_absorb(n1, k);
        lemma_binom_absorb(n1, k1);
        let a = binom(n1, k1);
        let b = binom(n1, k);
        let c = binom(n2, k2);
        let d = binom(n2, k1);
        assert(binom(n, k) == a + b);
        assert(a == c + d);
        assert(k * (a + b) == n * a) by (nonlinear_arith)
            requires
                k * b == n1 * d,
                k1 * a == n1 * c,
                a == c + d,
                n1 == n - 1,
                k1 == k - 1,
        ;
        assert(k * binom(n, k) == n * binom(n1, k1));
    }
}

/// A prime divides `p choose k` for `0 < k < p`.
pub proof fn lemma_prime_divides_binom(p: nat, k: nat)
    requires
        is_prime(p),
        0 < k < p,
    ensures
        divides(p, binom(p, k) as int),
{
    lemma_binom_absorb(p, k);
    let m = binom((p - 1) as nat, (k - 1) as nat);
    lemma_divides_multiple(p, m as int);
    lemma_euclid(p, k as int, binom(p, k) as int);
    lemma_small_mod(k, p);
}

/// `sum_{i <= k} C(n, i) x^i`.
pub open spec fn binom_sum(x: int, n: nat, k: nat) -> int
    decreases k,
{
    if k == 0 {
        1
    } else {
        binom_sum(x, n, (k - 1) as nat) + binom(n, k) * pow(x, k)
    }
}

/// Pascal's rule on partial binomial sums.
proof fn lemma_binom_sum_pascal(x: int, n: nat, k: nat)
    requires
        k >= 1,
    ensures
        binom_sum(x, n + 1, k) == binom_sum(x, n, k) + x * binom_sum(x, n, (k - 1) as nat),
    decreases k,
{
    reveal(pow);
    let k1 = (k - 1) as nat;
    assert(binom((n + 1) as nat, k) == binom(n, k1) + binom(n, k));
    assert(pow(x, k) == x * pow(x, k1));
    if k == 1 {
        assert(pow(x, 0) == 1);
        assert(binom(n, 0) == 1);
        assert(binom_sum(x, n, 0) == 1);
        assert(binom_sum(x, n + 1, 0) == 1);
        assert(binom(n, k1) * pow(x, k) == x * 1) by (nonlinear_arith)
            requires
                binom(n, k1) == 1,
                pow(x, k) == x * pow(x, k1),
                pow(x, k1) == 1,
        ;
        assert((binom(n, k1) + binom(n, k)) * pow(x, k) == binom(n, k1) * pow(x, k) + binom(n, k)
            * pow(x, k)) by (nonlinear_arith);
    } else {
        let k2 = (k - 2) as nat;
        lemma_binom_sum_pascal(x, n, k1);
        let bk1 = binom(n, k1) as int;
        let bk = binom(n, k) as int;
        let pk = pow(x, k);
        let pk1 = pow(x, k1);
        let s1 = binom_sum(x, n, k1);
        let s2 = binom_sum(x, n, k2);
        assert(s1 == s2 + bk1 * pk1);
        assert((bk1 + bk) * pk + x * s2 == bk * pk + x * (s2 + bk1 * pk1)) by (nonlinear_arith)
            requires
                pk == x * pk1,
        ;
    }
}

/// The binomial theorem for `(x + 1)^n`.
pub proof fn lemma_binomial_theorem(x: int, n: nat)
    ensures
        pow(x + 1, n) == binom_sum(x, n, n),
    decreases n,
{
    reveal(pow);
    if n > 0 {
        let n1 = (n - 1) as nat;
        lemma_binomial_theorem(x, n1);
        lemma_binom_sum_pascal(x, n1, n);
        lemma_binom_edges(n1, n);
        assert(binom_sum(x, n1, n) == binom_sum(x, n1, n1) + binom(n1, n) * pow(x, n));
        assert(binom(n1, n) * pow(x, n) == 0) by (nonlinear_arith)
            requires
                binom(n1, n) == 0,
        ;
        assert(pow(x + 1, n) == (x + 1) * pow(x + 1, n1));
        let s = binom_sum(x, n1, n1);
        assert((x + 1) * s == s + x * s) by (nonlinear_arith);
    }
}

/// Modulo a prime, every middle binomial term vanishes.
proof fn lemma_binom_sum_mod_prime(x: int, p: nat, k: nat)
    requires
        is_prime(p),
        k < p,
    ensures
        binom_sum(x, p, k) % (p as int) == 1,
    decreases k,
{
    if k == 0 {
        lemma_small_mod(1, p);
    } else {
        let k1 = (k - 1) as nat;
        lemma_binom_sum_mod_prime(x, p, k1);
        lemma_prime_divides_binom(p, k);
        lemma_divides_witness(p, binom(p, k) as int);
        let m = (binom(p, k) as int) / (p as int);
        assert(binom(p, k) * pow(x, k) == p * (m * pow(x, k))) by (nonlinear_arith)
            requires
                binom(p, k) == p * m,
        ;
        lemma_mod_multiples_vanish(m * pow(x, k), binom_sum(x, p, k1), p as int);
    }
}

/// Fermat's little theorem, first form: `x^p == x (mod p)` for `x >= 0`.
pub proof fn lemma_fermat(x: nat, p: nat)
    requires
        is_prime(p),
    ensures
        pow(x as int, p) % (p as int) == (x as int) % (p as int),
    decreases x,
{
    reveal(pow);
    if x == 0 {
        lemma0_pow(p);
    } else {
        let y = (x - 1) as nat;
        lemma_fermat(y, p);
        lemma_binomial_theorem(y as int, p);
        lemma_binom_edges(p, p);
        lemma_binom_sum_mod_prime(y as int, p, (p - 1) as nat);
        let s = binom_sum(y as int, p, (p - 1) as nat);
        assert(binom_sum(y as int, p, p) == s + pow(y as int, p));
        // (y + 1)^p == s + y^p == 1 + y (mod p)
        lemma_add_mod_noop(s, pow(y as int, p), p as int);
        lemma_add_mod_noop(1, y as int, p as int);
        lemma_small_mod(1, p);
    }
}

/// Fermat's little theorem: `x^(p - 1) == 1 (mod p)` when `p` does not divide `x`.
pub proof fn lemma_fermat_little(x: nat, p: nat)
    requires
        is_prime(p),
        !divides(p, x as int),
    ensures
        pow(x as int, (p - 1) as nat) % (p as int) == 1,
{
    reveal(pow);
    lemma_fermat(x, p);
    let q = pow(x as int, (p - 1) as nat);
    assert(pow(x as int, p) == x * q);
    // p divides x * (q - 1)
    assert(x * (q - 1) == x * q - x) by (nonlinear_arith);
    lemma_sub_mod_noop(x * q, x as int, p as int);
    assert(divides(p, x * (q - 1)));
    lemma_euclid(p, x as int, q - 1);
    lemma_fundamental_div_mod(q - 1, p as int);
    lemma_small_mod(1, p);
    lemma_mod_multiples_vanish((q - 1) / (p as int), 1, p as int);
}


/// Raising a residue to a power and reducing again composes exponents:
/// `((x^a mod m)^b) mod m == x^(a b) mod m`.
pub proof fn lemma_pow_mod_compose(x: int, a: nat, b: nat, m: nat)
    requires
        m > 0,
    ensures
        pow(pow(x, a) % (m as int), b) % (m as int) == pow(x, a * b) % (m as int),
{
    lemma_pow_mod_noop(pow(x, a), b, m as int);
    lemma_pow_multiplies(x, a, b);
}

/// Modulo a prime `p`, exponents of a non-multiple of `p` only matter modulo `p - 1`;
/// for a multiple of `p` any two positive exponents agree.
pub proof fn lemma_pow_exponent_mod(x: nat, n: nat, p: nat)
    requires
        is_prime(p),
        divides(p, x as int) ==> n > 0 && n % ((p - 1) as nat) != 0,
    ensures
        pow(x as int, n) % (p as int) == pow(x as int, n % ((p - 1) as nat)) % (p as int),
{
    let m = (p - 1) as nat;
    let q = n / m;
    let r = n % m;
    lemma_fundamental_div_mod(n as int, m as int);
    lemma_pow_adds(x as int, m * q, r);
    lemma_pow_multiplies(x as int, m, q);
    assert(n == m * q + r);
    let pm = pow(x as int, m);
    let pq = pow(pm, q);
    let pr = pow(x as int, r);
    assert(pow(x as int, n) == pq * pr);
    if divides(p, x as int) {
        // both exponents are positive, and x is zero modulo p
        lemma_pow_mod_noop(x as int, n, p as int);
        lemma_pow_mod_noop(x as int, r, p as int);
        lemma0_pow(n);
        lemma0_pow(r);
    } else {
        lemma_fermat_little(x, p);
        lemma_pow_mod_noop(pm, q, p as int);
        lemma1_pow(q);
        lemma_mul_mod_noop_left(pq, pr, p as int);
        lemma_small_mod(1, p);
        assert(pq % (p as int) == 1);
        assert((pq * pr) % (p as int) == (1 * pr) % (p as int));
    }
}

} // verus!
