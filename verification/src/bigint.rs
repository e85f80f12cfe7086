//! 384-bit modular arithmetic for Wesolowski proof computation.
//!
//! Provides modular exponentiation and division over 384-bit values (six
//! little-endian 64-bit limbs) used to compute `E = e^T mod (p-1)` in both
//! prover and verifier.
use vstd::prelude::*;
use vstd::arithmetic::power2::*;
use vstd::arithmetic::power::*;
use vstd::arithmetic::div_mod::*;
use vstd::arithmetic::mul::*;
use vstd::bits::*;
use vstd::std_specs::cmp::PartialEqSpecImpl;
use ark_ff::BigInteger;

verus! {

/// The value of a little-endian sequence of 64-bit limbs.
pub open spec fn limbs_val(s: Seq<u64>) -> nat
    decreases s.len(),
{
    if s.len() == 0 {
        0
    } else {
        (s[0] as nat) + pow2(64) * limbs_val(s.drop_first())
    }
}

/// `2^384`, the first value that does not fit in six limbs.
pub open spec fn wide_base() -> nat {
    pow2(384)
}

/// A 384-bit unsigned integer held as six little-endian 64-bit limbs.
#[derive(Clone, Copy, Debug)]
pub struct BigUint384 {
    pub limbs: [u64; 6],
}

impl View for BigUint384 {
    type V = nat;

    open spec fn view(&self) -> nat {
        limbs_val(self.limbs@)
    }
}

impl PartialEq for BigUint384 {
    fn eq(&self, other: &Self) -> (r: bool) {
        self.limbs[0] == other.limbs[0] && self.limbs[1] == other.limbs[1] && self.limbs[2]
            == other.limbs[2] && self.limbs[3] == other.limbs[3] && self.limbs[4]
            == other.limbs[4] && self.limbs[5] == other.limbs[5]
    }
}

impl PartialEqSpecImpl for BigUint384 {
    open spec fn obeys_eq_spec() -> bool {
        true
    }

    open spec fn eq_spec(&self, other: &Self) -> bool {
        self.limbs[0] == other.limbs[0] && self.limbs[1] == other.limbs[1] && self.limbs[2]
            == other.limbs[2] && self.limbs[3] == other.limbs[3] && self.limbs[4]
            == other.limbs[4] && self.limbs[5] == other.limbs[5]
    }
}

impl Eq for BigUint384 {
}

// ---------------------------------------------------------------------------
// Lemmas on limb sequences
// ---------------------------------------------------------------------------

/// `2^64` as a literal.
pub proof fn lemma_pow2_64()
    ensures
        pow2(64) == 0x1_0000_0000_0000_0000nat,
{
    lemma2_to64();
}

/// Concatenating limb sequences shifts the high part by the length of the low part.
pub proof fn lemma_limbs_val_append(a: Seq<u64>, b: Seq<u64>)
    ensures
        limbs_val(a + b) == limbs_val(a) + limbs_val(b) * pow2(64 * a.len()),
    decreases a.len(),
{
    if a.len() == 0 {
        assert(a + b =~= b);
        lemma2_to64();
    } else {
        assert((a + b).drop_first() =~= a.drop_first() + b);
        lemma_limbs_val_append(a.drop_first(), b);
        let n = (a.len() - 1) as nat;
        lemma_pow2_adds(64, 64 * n);
        assert(64 + 64 * n == 64 * a.len());
        let x = limbs_val(a.drop_first());
        let y = limbs_val(b);
        let p = pow2(64 * n);
        let q = pow2(64);
        assert(q * (x + y * p) == q * x + y * (q * p)) by (nonlinear_arith);
    }
}

/// A sequence of `n` limbs holds a value below `2^(64 n)`.
pub proof fn lemma_limbs_val_bound(s: Seq<u64>)
    ensures
        limbs_val(s) < pow2(64 * s.len()),
    decreases s.len(),
{
    if s.len() == 0 {
        lemma2_to64();
    } else {
        lemma_limbs_val_bound(s.drop_first());
        let n = (s.len() - 1) as nat;
        lemma_pow2_adds(64, 64 * n);
        assert(64 + 64 * n == 64 * s.len());
        lemma_pow2_64();
        let x = limbs_val(s.drop_first());
        let p = pow2(64 * n);
        let q = pow2(64);
        let s0 = s[0] as nat;
        assert(s0 + q * x < q * p) by (nonlinear_arith)
            requires
                s0 < q,
                x < p,
                x >= 0,
        ;
    }
}

/// Splitting a limb sequence at index `i` into low part, limb `i` and high part.
pub proof fn lemma_limbs_val_split(s: Seq<u64>, i: int)
    requires
        0 <= i < s.len(),
    ensures
        limbs_val(s) == limbs_val(s.take(i)) + s[i] * pow2(64 * i as nat) + limbs_val(
            s.skip(i + 1),
        ) * pow2(64 * (i + 1) as nat),
        limbs_val(s) == limbs_val(s.take(i)) + limbs_val(s.skip(i)) * pow2(64 * i as nat),
        limbs_val(s.skip(i)) == s[i] + pow2(64) * limbs_val(s.skip(i + 1)),
        limbs_val(s.take(i)) < pow2(64 * i as nat),
{
    assert(s =~= s.take(i) + s.skip(i));
    lemma_limbs_val_append(s.take(i), s.skip(i));
    assert(s.skip(i).drop_first() =~= s.skip(i + 1));
    lemma_limbs_val_bound(s.take(i));
    lemma_pow2_adds(64 * i as nat, 64);
    assert(64 * i + 64 == 64 * (i + 1));
    let p = pow2(64 * i as nat);
    let q = pow2(64);
    let h = limbs_val(s.skip(i + 1));
    let si = s[i] as nat;
    assert((si + q * h) * p == si * p + h * (p * q)) by (nonlinear_arith);
}

/// The prefix of `i + 1` limbs adds limb `i` at weight `2^(64 i)`.
pub proof fn lemma_limbs_val_take_step(s: Seq<u64>, i: int)
    requires
        0 <= i < s.len(),
    ensures
        limbs_val(s.take(i + 1)) == limbs_val(s.take(i)) + s[i] * pow2(64 * i as nat),
{
    let t = s.take(i + 1);
    assert(t.take(i) =~= s.take(i));
    lemma_limbs_val_split(t, i);
    assert(t.skip(i + 1) =~= Seq::<u64>::empty());
    assert(limbs_val(t.skip(i + 1)) == 0);
    assert(t[i] == s[i]);
    let z = limbs_val(t.skip(i + 1));
    let w = pow2(64 * (i + 1) as nat);
    assert(z * w == 0) by (nonlinear_arith)
        requires
            z == 0,
    ;
    assert(limbs_val(t) == limbs_val(t.take(i)) + t[i] * pow2(64 * i as nat));
}

/// Replacing limb `k` changes the value by the difference at weight `2^(64 k)`.
pub proof fn lemma_limbs_val_update(s: Seq<u64>, k: int, x: u64)
    requires
        0 <= k < s.len(),
    ensures
        limbs_val(s.update(k, x)) + s[k] * pow2(64 * k as nat) == limbs_val(s) + x * pow2(
            64 * k as nat,
        ),
{
    let t = s.update(k, x);
    lemma_limbs_val_split(s, k);
    lemma_limbs_val_split(t, k);
    assert(t.take(k) =~= s.take(k));
    assert(t.skip(k + 1) =~= s.skip(k + 1));
}

/// Bit `i` of `x + y * 2^k` (with `x < 2^k`) is bit `i` of `x` below `k` and bit
/// `i - k` of `y` from `k` on.
pub proof fn lemma_bit_of_sum(x: nat, y: nat, k: nat, i: nat)
    requires
        x < pow2(k),
    ensures
        i < k ==> ((x + y * pow2(k)) / pow2(i)) % 2 == (x / pow2(i)) % 2,
        i >= k ==> ((x + y * pow2(k)) / pow2(i)) % 2 == (y / pow2((i - k) as nat)) % 2,
        i >= k ==> (x + y * pow2(k)) / pow2(i) == y / pow2((i - k) as nat),
{
    lemma_pow2_pos(k);
    lemma_pow2_pos(i);
    if i >= k {
        let j = (i - k) as nat;
        lemma_pow2_adds(k, j);
        lemma_pow2_pos(j);
        lemma_fundamental_div_mod_converse((x + y * pow2(k)) as int, pow2(k) as int, y as int, x as int);
        lemma_div_denominator((x + y * pow2(k)) as int, pow2(k) as int, pow2(j) as int);
    } else {
        let j = (k - i) as nat;
        lemma_pow2_adds(i, j);
        lemma_pow2_pos(j);
        let pi = pow2(i);
        let pj = pow2(j);
        lemma_fundamental_div_mod(x as int, pi as int);
        let q0 = x / pi;
        let r0 = x % pi;
        assert(x + y * pow2(k) == (q0 + y * pj) * pi + r0) by (nonlinear_arith)
            requires
                x == pi * q0 + r0,
                pow2(k) == pi * pj,
        ;
        lemma_mod_bound(x as int, pi as int);
        lemma_fundamental_div_mod_converse(
            (x + y * pow2(k)) as int,
            pi as int,
            (q0 + y * pj) as int,
            r0 as int,
        );
        // pj is even, so the high part does not affect the parity
        lemma_pow2_adds(1, (j - 1) as nat);
        lemma2_to64();
        let h = y * pow2((j - 1) as nat);
        assert(y * pj == 2 * h) by (nonlinear_arith)
            requires
                pj == 2 * pow2((j - 1) as nat),
                h == y * pow2((j - 1) as nat),
        ;
        lemma_mod_multiples_vanish(h as int, q0 as int, 2);
    }
}

/// Bit `64 k + b` of a limb sequence is bit `b` of limb `k`.
pub proof fn lemma_limbs_bit(s: Seq<u64>, k: int, b: nat)
    requires
        0 <= k < s.len(),
        b < 64,
    ensures
        (limbs_val(s) / pow2((64 * k + b) as nat)) % 2 == (s[k] as nat / pow2(b)) % 2,
{
    lemma_limbs_val_split(s, k);
    lemma_bit_of_sum(
        limbs_val(s.take(k)),
        limbs_val(s.skip(k)),
        (64 * k) as nat,
        (64 * k + b) as nat,
    );
    lemma_pow2_64();
    lemma_bit_of_sum(s[k] as nat, limbs_val(s.skip(k + 1)), 64, b);
}

/// Shifting a limb right and masking the lowest bit reads bit `b` of the limb.
pub proof fn lemma_u64_bit(x: u64, b: u64)
    requires
        b < 64,
    ensures
        ((x >> b) & 1u64 != 0) == ((x as nat / pow2(b as nat)) % 2 == 1),
{
    lemma_u64_shr_is_div(x, b);
    let y = x >> b;
    assert((y & 1u64 != 0) == (y % 2 == 1)) by (bit_vector);
}

/// The value of six limbs written out with literal weights.
pub proof fn lemma_val6(l: [u64; 6])
    ensures
        limbs_val(l@) == l[0] + l[1] * 0x1_0000_0000_0000_0000nat + l[2]
            * 0x1_0000_0000_0000_0000_0000_0000_0000_0000nat + l[3]
            * 0x1_0000_0000_0000_0000_0000_0000_0000_0000_0000_0000_0000_0000nat + l[4]
            * 0x1_0000_0000_0000_0000_0000_0000_0000_0000_0000_0000_0000_0000_0000_0000_0000_0000nat
            + l[5]
            * 0x1_0000_0000_0000_0000_0000_0000_0000_0000_0000_0000_0000_0000_0000_0000_0000_0000_0000_0000_0000_0000nat,
{
    lemma_pow2_64();
    let s = l@;
    reveal_with_fuel(limbs_val, 7);
    assert(s.drop_first().drop_first().drop_first().drop_first().drop_first().drop_first()
        =~= Seq::<u64>::empty());
}

/// Two limb sequences of the same length with the same value are equal.
pub proof fn lemma_limbs_val_injective(a: Seq<u64>, b: Seq<u64>)
    requires
        a.len() == b.len(),
        limbs_val(a) == limbs_val(b),
    ensures
        a == b,
    decreases a.len(),
{
    lemma_pow2_64();
    if a.len() > 0 {
        let x = limbs_val(a.drop_first());
        let y = limbs_val(b.drop_first());
        lemma_fundamental_div_mod_converse(
            limbs_val(a) as int,
            0x1_0000_0000_0000_0000,
            x as int,
            a[0] as int,
        );
        lemma_fundamental_div_mod_converse(
            limbs_val(b) as int,
            0x1_0000_0000_0000_0000,
            y as int,
            b[0] as int,
        );
        lemma_limbs_val_injective(a.drop_first(), b.drop_first());
        assert forall|i: int| 0 <= i < a.len() implies a[i] == b[i] by {
            if i > 0 {
                assert(a[i] == a.drop_first()[i - 1]);
                assert(b[i] == b.drop_first()[i - 1]);
            }
        }
    }
    assert(a =~= b);
}

impl BigUint384 {
    /// Whether two values are equal, limb by limb.
    pub fn same_value(&self, other: &Self) -> (r: bool)
        ensures
            r == (self@ == other@),
    {
        let r = *self == *other;
        proof {
            if self@ == other@ {
                lemma_limbs_val_injective(self.limbs@, other.limbs@);
            }
            if r {
                assert(self.limbs@ =~= other.limbs@);
            }
        }
        r
    }
}

/// `2^384` as a literal.
pub proof fn lemma_pow2_384()
    ensures
        pow2(384) == 0x1_0000_0000_0000_0000_0000_0000_0000_0000_0000_0000_0000_0000_0000_0000_0000_0000_0000_0000_0000_0000_0000_0000_0000_0000nat,
{
    lemma_pow2_64();
    lemma_pow2_limb_step(1);
    lemma_pow2_limb_step(2);
    lemma_pow2_limb_step(3);
    lemma_pow2_limb_step(4);
    lemma_pow2_limb_step(5);
    assert(pow2(64 * 1) == pow2(64));
}

/// One limb of a doubling: the processed prefix keeps `new + carry * p == 2 * old`.
pub proof fn lemma_mul2_step(vn: int, vo: int, p: int, x: int, a: int, c: int, c2: int)
    requires
        vn + c * p == 2 * vo,
        x + c2 * 0x1_0000_0000_0000_0000 == 2 * a + c,
    ensures
        (vn + x * p) + c2 * (0x1_0000_0000_0000_0000 * p) == 2 * (vo + a * p),
{
    assert((vn + x * p) + c2 * (0x1_0000_0000_0000_0000 * p) == 2 * (vo + a * p))
        by (nonlinear_arith)
        requires
            vn + c * p == 2 * vo,
            x + c2 * 0x1_0000_0000_0000_0000 == 2 * a + c,
    ;
}

/// One limb of a multiplication by a small factor `k`: the processed prefix
/// keeps `new + carry * p == k * old`.
pub proof fn lemma_scale_step(vn: int, vo: int, p: int, x: int, a: int, c: int, c2: int, k: int)
    requires
        vn + c * p == k * vo,
        x + c2 * 0x1_0000_0000_0000_0000 == k * a + c,
    ensures
        (vn + x * p) + c2 * (0x1_0000_0000_0000_0000 * p) == k * (vo + a * p),
{
    assert((vn + x * p) + c2 * (0x1_0000_0000_0000_0000 * p) == k * (vo + a * p))
        by (nonlinear_arith)
        requires
            vn + c * p == k * vo,
            x + c2 * 0x1_0000_0000_0000_0000 == k * a + c,
    ;
}

/// One limb of an addition: the processed prefix keeps `new + carry * p == x + y`.
pub proof fn lemma_add_step(
    vn: int,
    va: int,
    vb: int,
    p: int,
    x: int,
    a: int,
    b: int,
    c: int,
    c2: int,
)
    requires
        vn + c * p == va + vb,
        x + c2 * 0x1_0000_0000_0000_0000 == a + b + c,
    ensures
        (vn + x * p) + c2 * (0x1_0000_0000_0000_0000 * p) == (va + a * p) + (vb + b * p),
{
    assert((vn + x * p) + c2 * (0x1_0000_0000_0000_0000 * p) == (va + a * p) + (vb + b * p))
        by (nonlinear_arith)
        requires
            vn + c * p == va + vb,
            x + c2 * 0x1_0000_0000_0000_0000 == a + b + c,
    ;
}

/// One limb of a subtraction: the processed prefix keeps `new + y == x + borrow * p`.
pub proof fn lemma_sub_step(
    vn: int,
    va: int,
    vb: int,
    p: int,
    x: int,
    a: int,
    b: int,
    c: int,
    c2: int,
)
    requires
        vn + vb == va + c * p,
        x + b + c == a + c2 * 0x1_0000_0000_0000_0000,
    ensures
        (vn + x * p) + (vb + b * p) == (va + a * p) + c2 * (0x1_0000_0000_0000_0000 * p),
{
    assert((vn + x * p) + (vb + b * p) == (va + a * p) + c2 * (0x1_0000_0000_0000_0000 * p))
        by (nonlinear_arith)
        requires
            vn + vb == va + c * p,
            x + b + c == a + c2 * 0x1_0000_0000_0000_0000,
    ;
}

/// `2^(64 (i + 1)) == 2^64 * 2^(64 i)`.
pub proof fn lemma_pow2_limb_step(i: nat)
    ensures
        pow2(64 * (i + 1)) == 0x1_0000_0000_0000_0000 * pow2(64 * i),
{
    lemma_pow2_adds(64, 64 * i);
    lemma_pow2_64();
    assert(64 + 64 * i == 64 * (i + 1));
}

impl BigUint384 {
    /// The value zero.
    pub fn zero() -> (r: Self)
        ensures
            r@ == 0,
    {
        let r = BigUint384 { limbs: [0u64; 6] };
        proof {
            lemma_val6(r.limbs);
        }
        r
    }

    /// Doubles the value in place; returns the bit shifted out of the top limb.
    pub fn mul2(&mut self) -> (carry: bool)
        ensures
            old(self)@ * 2 == final(self)@ + (if carry { pow2(384) } else { 0 }),
    {
        let ghost o = self.limbs@;
        let mut last: u64 = 0;
        let mut i: usize = 0;
        proof {
            lemma2_to64();
        }
        while i < 6
            invariant
                0 <= i <= 6,
                last <= 1,
                o.len() == 6,
                forall|j: int| i <= j < 6 ==> self.limbs[j] == o[j],
                limbs_val(self.limbs@.take(i as int)) + last * pow2(64 * i as nat) == 2
                    * limbs_val(o.take(i as int)),
            decreases 6 - i,
        {
            let a = self.limbs[i];
            let tmp = a >> 63u64;
            let x = (a << 1u64) | last;
            assert(x + tmp * 0x1_0000_0000_0000_0000 == 2 * a + last) by (bit_vector)
                requires
                    last <= 1,
                    tmp == a >> 63u64,
                    x == (a << 1u64) | last,
            ;
            let ghost before = self.limbs@;
            self.limbs[i] = x;
            proof {
                assert(self.limbs@.take(i as int) =~= before.take(i as int));
                lemma_limbs_val_take_step(self.limbs@, i as int);
                lemma_limbs_val_take_step(o, i as int);
                lemma_pow2_limb_step(i as nat);
                lemma_mul2_step(
                    limbs_val(before.take(i as int)) as int,
                    limbs_val(o.take(i as int)) as int,
                    pow2(64 * i as nat) as int,
                    x as int,
                    a as int,
                    last as int,
                    tmp as int,
                );
            }
            last = tmp;
            i = i + 1;
        }
        proof {
            assert(self.limbs@.take(6) =~= self.limbs@);
            assert(o.take(6) =~= o);
        }
        last != 0
    }

    /// Adds `other` in place; returns the carry out of the top limb.
    pub fn add_with_carry(&mut self, other: &Self) -> (carry: bool)
        ensures
            old(self)@ + other@ == final(self)@ + (if carry { pow2(384) } else { 0 }),
    {
        let ghost o = self.limbs@;
        let mut carry: u64 = 0;
        let mut i: usize = 0;
        proof {
            lemma2_to64();
        }
        while i < 6
            invariant
                0 <= i <= 6,
                carry <= 1,
                o.len() == 6,
                forall|j: int| i <= j < 6 ==> self.limbs[j] == o[j],
                limbs_val(self.limbs@.take(i as int)) + carry * pow2(64 * i as nat)
                    == limbs_val(o.take(i as int)) + limbs_val(other.limbs@.take(i as int)),
            decreases 6 - i,
        {
            let a = self.limbs[i];
            let b = other.limbs[i];
            let t: u128 = (a as u128) + (b as u128) + (carry as u128);
            let x = t as u64;
            let c2 = (t >> 64u128) as u64;
            assert(x + c2 * 0x1_0000_0000_0000_0000 == t && c2 <= 1) by (bit_vector)
                requires
                    t <= 0x1_ffff_ffff_ffff_ffff,
                    x == t as u64,
                    c2 == (t >> 64u128) as u64,
            ;
            let ghost before = self.limbs@;
            self.limbs[i] = x;
            proof {
                assert(self.limbs@.take(i as int) =~= before.take(i as int));
                lemma_limbs_val_take_step(self.limbs@, i as int);
                lemma_limbs_val_take_step(o, i as int);
                lemma_limbs_val_take_step(other.limbs@, i as int);
                lemma_pow2_limb_step(i as nat);
                lemma_add_step(
                    limbs_val(before.take(i as int)) as int,
                    limbs_val(o.take(i as int)) as int,
                    limbs_val(other.limbs@.take(i as int)) as int,
                    pow2(64 * i as nat) as int,
                    x as int,
                    a as int,
                    b as int,
                    carry as int,
                    c2 as int,
                );
            }
            carry = c2;
            i = i + 1;
        }
        proof {
            assert(self.limbs@.take(6) =~= self.limbs@);
            assert(o.take(6) =~= o);
            assert(other.limbs@.take(6) =~= other.limbs@);
        }
        carry != 0
    }

    /// Subtracts `other` in place; returns the borrow out of the top limb.
    pub fn sub_with_borrow(&mut self, other: &Self) -> (borrow: bool)
        ensures
            old(self)@ + (if borrow { pow2(384) } else { 0 }) == final(self)@ + other@,
    {
        let ghost o = self.limbs@;
        let mut borrow: u64 = 0;
        let mut i: usize = 0;
        proof {
            lemma2_to64();
        }
        while i < 6
            invariant
                0 <= i <= 6,
                borrow <= 1,
                o.len() == 6,
                forall|j: int| i <= j < 6 ==> self.limbs[j] == o[j],
                limbs_val(self.limbs@.take(i as int)) + limbs_val(other.limbs@.take(i as int))
                    == limbs_val(o.take(i as int)) + borrow * pow2(64 * i as nat),
            decreases 6 - i,
        {
            let a = self.limbs[i];
            let b = other.limbs[i];
            let t: u128 = 0x1_0000_0000_0000_0000u128 + (a as u128) - (b as u128) - (borrow as u128);
            let x = t as u64;
            let hi = (t >> 64u128) as u64;
            let b2: u64 = if hi == 0 { 1 } else { 0 };
            assert(x + b + borrow == a + b2 * 0x1_0000_0000_0000_0000) by (bit_vector)
                requires
                    borrow <= 1,
                    t == 0x1_0000_0000_0000_0000u128 + (a as u128) - (b as u128) - (borrow as u128),
                    x == t as u64,
                    hi == (t >> 64u128) as u64,
                    b2 == (if hi == 0 { 1u64 } else { 0u64 }),
            ;
            let ghost before = self.limbs@;
            self.limbs[i] = x;
            proof {
                assert(self.limbs@.take(i as int) =~= before.take(i as int));
                lemma_limbs_val_take_step(self.limbs@, i as int);
                lemma_limbs_val_take_step(o, i as int);
                lemma_limbs_val_take_step(other.limbs@, i as int);
                lemma_pow2_limb_step(i as nat);
                lemma_sub_step(
                    limbs_val(before.take(i as int)) as int,
                    limbs_val(o.take(i as int)) as int,
                    limbs_val(other.limbs@.take(i as int)) as int,
                    pow2(64 * i as nat) as int,
                    x as int,
                    a as int,
                    b as int,
                    borrow as int,
                    b2 as int,
                );
            }
            borrow = b2;
            i = i + 1;
        }
        proof {
            assert(self.limbs@.take(6) =~= self.limbs@);
            assert(o.take(6) =~= o);
            assert(other.limbs@.take(6) =~= other.limbs@);
        }
        borrow != 0
    }

    /// Whether bit `i` of the value is set; bits at or above 384 read as unset.
    pub fn get_bit(&self, i: usize) -> (bit: bool)
        ensures
            bit == ((self@ / pow2(i as nat)) % 2 == 1),
    {
        if i >= 384 {
            proof {
                lemma_limbs_val_bound(self.limbs@);
                if i > 384 {
                    lemma_pow2_strictly_increases(384, i as nat);
                }
                lemma_basic_div(self@ as int, pow2(i as nat) as int);
            }
            false
        } else {
            let limb = i / 64;
            let bit = i % 64;
            proof {
                lemma_limbs_bit(self.limbs@, limb as int, bit as nat);
                lemma_u64_bit(self.limbs[limb as int], bit as u64);
            }
            (self.limbs[limb] >> (bit as u64)) & 1u64 != 0
        }
    }

    /// Whether the value is at least `other`'s value.
    pub fn is_geq(&self, other: &Self) -> (r: bool)
        ensures
            r == (self@ >= other@),
    {
        let mut t = *self;
        let borrow = t.sub_with_borrow(other);
        proof {
            lemma_limbs_val_bound(t.limbs@);
            lemma_limbs_val_bound(self.limbs@);
        }
        !borrow
    }
}


// ---------------------------------------------------------------------------
// Lemmas for the bit-serial reductions
// ---------------------------------------------------------------------------

/// Reading one more bit: `x / 2^j == 2 * (x / 2^(j+1)) + bit j of x`.
pub proof fn lemma_prefix_step(x: nat, j: nat)
    ensures
        x / pow2(j) == 2 * (x / pow2(j + 1)) + (x / pow2(j)) % 2,
{
    lemma_pow2_pos(j);
    lemma_pow2_adds(j, 1);
    lemma2_to64();
    lemma_div_denominator(x as int, pow2(j) as int, 2);
    lemma_fundamental_div_mod((x / pow2(j)) as int, 2);
}

/// Doubling and adding a bit commutes with reduction modulo `m`.
pub proof fn lemma_mod_double_add(q: nat, bit: nat, m: nat)
    requires
        m > 0,
    ensures
        (2 * q + bit) % m == (2 * (q % m) + bit) % m,
{
    lemma_fundamental_div_mod(q as int, m as int);
    let k = q / m;
    let r = q % m;
    assert(2 * q + bit == m * (2 * k) + (2 * r + bit)) by (nonlinear_arith)
        requires
            q == m * k + r,
    ;
    lemma_mod_multiples_vanish((2 * k) as int, (2 * r + bit) as int, m as int);
}

/// A value below `2 m` reduces modulo `m` by at most one subtraction.
pub proof fn lemma_mod_one_sub(t: nat, m: nat)
    requires
        m > 0,
        t < 2 * m,
    ensures
        t >= m ==> t % m == t - m && t / m == 1,
        t < m ==> t % m == t && t / m == 0,
{
    if t >= m {
        lemma_fundamental_div_mod_converse(t as int, m as int, 1, (t - m) as int);
    } else {
        lemma_fundamental_div_mod_converse(t as int, m as int, 0, t as int);
    }
}

/// The 768-bit value `lo + hi * 2^384` is below `2^768`.
pub proof fn lemma_wide_bound(lo: nat, hi: nat)
    requires
        lo < pow2(384),
        hi < pow2(384),
    ensures
        lo + hi * pow2(384) < pow2(768),
{
    lemma_pow2_adds(384, 384);
    let p = pow2(384);
    assert(lo + hi * p < p * p) by (nonlinear_arith)
        requires
            lo < p,
            hi < p,
    ;
}

/// 768-bit mod 384-bit via bit-by-bit long division.
///
/// Reduces `(hi * 2^384 + lo) mod modulus`. Used after full 384x384
/// multiplication to bring the result back into the modular range. The bit
/// shifted out of the top limb by each doubling is kept, so every non-zero
/// 384-bit modulus is handled.
pub fn reduce_wide(lo: BigUint384, hi: BigUint384, modulus: &BigUint384) -> (r: BigUint384)
    requires
        modulus@ > 0,
    ensures
        r@ == (lo@ + hi@ * pow2(384)) % modulus@,
{
    let ghost w: nat = lo@ + hi@ * pow2(384);
    let ghost m: nat = modulus@;
    let mut r = BigUint384::zero();
    proof {
        lemma_limbs_val_bound(lo.limbs@);
        lemma_limbs_val_bound(hi.limbs@);
        lemma_limbs_val_bound(modulus.limbs@);
        lemma_wide_bound(lo@, hi@);
        lemma_pow2_pos(768);
        lemma_basic_div(w as int, pow2(768) as int);
        lemma_pow2_384();
    }
    // Iterate from bit 767 down to 0.
    let mut i: usize = 768;
    while i > 0
        invariant
            i <= 768,
            m == modulus@,
            0 < m < pow2(384),
            w == lo@ + hi@ * pow2(384),
            lo@ < pow2(384),
            r@ < m,
            r@ == (w / pow2(i as nat)) % m,
            pow2(384) == 0x1_0000_0000_0000_0000_0000_0000_0000_0000_0000_0000_0000_0000_0000_0000_0000_0000_0000_0000_0000_0000_0000_0000_0000_0000nat,
        decreases i,
    {
        i = i - 1;
        let ghost r0 = r@;
        // r = r * 2
        let carry = r.mul2();
        // Add bit i of the 768-bit input (hi:lo).
        let bit = if i >= 384 {
            hi.get_bit(i - 384)
        } else {
            lo.get_bit(i)
        };
        proof {
            lemma_bit_of_sum(lo@, hi@, 384, i as nat);
            lemma_prefix_step(w, i as nat);
            lemma_limbs_val_bound(r.limbs@);
        }
        let ghost b: nat = if bit { 1 } else { 0 };
        if bit {
            // r is even after the doubling, so adding one cannot carry out
            let one = BigUint384 { limbs: [1u64, 0, 0, 0, 0, 0] };
            proof {
                lemma_val6(one.limbs);
            }
            let _carry = r.add_with_carry(&one);
            proof {
                lemma_limbs_val_bound(r.limbs@);
            }
        }
        let ghost r2 = r@;
        // t = 2 * r0 + bit is the true value, below 2 * m
        let ghost t: nat = 2 * r0 + b;
        assert(r2 + (if carry { pow2(384) } else { 0 }) == t);
        // If r >= modulus (or the doubling carried out), subtract.
        if carry || r.is_geq(modulus) {
            let _borrow = r.sub_with_borrow(modulus);
            proof {
                lemma_limbs_val_bound(r.limbs@);
            }
        }
        proof {
            lemma_mod_one_sub(t, m);
            lemma_mod_double_add(w / pow2((i + 1) as nat), b, m);
            assert(r@ == t % m);
        }
    }
    proof {
        lemma2_to64();
        assert(w / pow2(0) == w);
    }
    r
}

/// Full product of two 384-bit values by `ark_ff::BigInteger::mul` on
/// `ark_ff::BigInt<6>`: it returns the low and high six limbs `(lo, hi)` of
/// the 768-bit product, so `lo + hi * 2^384 == a * b`.
#[verifier::external_body]
fn wide_mul(a: &BigUint384, b: &BigUint384) -> (r: (BigUint384, BigUint384))
    ensures
        r.0@ + r.1@ * pow2(384) == a@ * b@,
{
    let (lo, hi) = BigInteger::mul(&ark_ff::BigInt::<6>(a.limbs), &ark_ff::BigInt::<6>(b.limbs));
    (BigUint384 { limbs: lo.0 }, BigUint384 { limbs: hi.0 })
}

/// Modular multiplication: `(a * b) mod m`.
///
/// Takes the full 768-bit product, then `reduce_wide` brings it back to
/// 384 bits.
pub fn mulmod(a: BigUint384, b: BigUint384, m: &BigUint384) -> (r: BigUint384)
    requires
        m@ > 0,
    ensures
        r@ == (a@ * b@) % m@,
        r@ < m@,
{
    let (lo, hi) = wide_mul(&a, &b);
    let r = reduce_wide(lo, hi, m);
    proof {
        lemma_mod_bound((a@ * b@) as int, m@ as int);
    }
    r
}


/// One square-and-multiply step keeps `result * b^e` fixed modulo `m`: an odd
/// exponent moves one factor `b` into `result`, and the rest of the exponent
/// is halved against `b * b`.
pub proof fn lemma_square_multiply_step(result: nat, b: nat, e: nat, m: nat)
    requires
        m > 0,
    ensures
        e % 2 == 1 ==> (((result * b) % m) * pow(((b * b) % m) as int, e / 2)) % (m as int)
            == (result * pow(b as int, e)) % (m as int),
        e % 2 == 0 ==> (result * pow(((b * b) % m) as int, e / 2)) % (m as int) == (result * pow(
            b as int,
            e,
        )) % (m as int),
        (result * pow(b as int, 0)) == result,
{
    let h = e / 2;
    lemma_pow0(b as int);
    lemma_square_is_pow2(b as int);
    lemma_pow_multiplies(b as int, 2, h);
    // pow(b*b % m, h) % m == pow(b*b, h) % m == pow(b, 2h) % m
    lemma_pow_mod_noop((b * b) as int, h, m as int);
    let p2h = pow(b as int, 2 * h);
    let q = pow(((b * b) % m) as int, h);
    assert(q % (m as int) == p2h % (m as int));
    if e % 2 == 1 {
        lemma_pow_adds(b as int, 2 * h, 1);
        lemma_pow1(b as int);
        assert(e == 2 * h + 1);
        let rb = (result * b) as int;
        lemma_mul_mod_noop_left(rb, q, m as int);
        lemma_mul_mod_noop_right(rb, q, m as int);
        lemma_mul_mod_noop_right(rb, p2h, m as int);
        assert(rb * p2h == result * (p2h * b)) by (nonlinear_arith)
            requires
                rb == result * b,
        ;
        assert(pow(b as int, e) == p2h * b);
    } else {
        assert(e == 2 * h);
        lemma_mul_mod_noop_right(result as int, q, m as int);
        lemma_mul_mod_noop_right(result as int, p2h, m as int);
    }
}

/// Modular exponentiation: `base^exp mod m` via square-and-multiply.
///
/// For T=100,000, `exp` has ~17 bits: ~17 squarings + ~8 multiplications.
/// An exponent of zero gives one, whatever the modulus.
pub fn powmod(base: BigUint384, exp: u64, m: &BigUint384) -> (r: BigUint384)
    requires
        m@ > 0,
    ensures
        exp == 0 ==> r@ == 1,
        exp > 0 ==> r@ == pow(base@ as int, exp as nat) % (m@ as int),
{
    if exp == 0 {
        let one = BigUint384 { limbs: [1u64, 0, 0, 0, 0, 0] };
        proof {
            lemma_val6(one.limbs);
        }
        return one;
    }
    let mut result = BigUint384 { limbs: [1u64, 0, 0, 0, 0, 0] };
    let mut b = base;
    let mut e = exp;
    proof {
        lemma_val6(result.limbs);
        lemma_pow0(base@ as int);
    }
    while e > 0
        invariant
            m@ > 0,
            exp > 0,
            result@ < m@ || (result@ == 1 && e > 0),
            (result@ * pow(b@ as int, e as nat)) % (m@ as int) == pow(base@ as int, exp as nat) % (
            m@ as int),
        decreases e,
    {
        let ghost r0 = result@;
        let ghost b0 = b@;
        let ghost e0 = e as nat;
        proof {
            lemma_square_multiply_step(r0, b0, e0, m@);
            assert((e & 1u64 == 1u64) == (e % 2 == 1)) by (bit_vector);
            assert(e >> 1u64 == e / 2) by (bit_vector);
        }
        if e & 1 == 1 {
            result = mulmod(result, b, m);
        }
        e >>= 1;
        if e > 0 {
            b = mulmod(b, b, m);
        } else {
            proof {
                lemma_pow0(b@ as int);
                lemma_pow0(((b0 * b0) % m@) as int);
                lemma_small_mod(result@, m@);
            }
        }
    }
    proof {
        lemma_pow0(b@ as int);
        lemma_small_mod(result@, m@);
    }
    result
}

/// Setting bit `i` of a value whose bit `i` is clear adds `2^i`.
pub proof fn lemma_set_clear_bit(l: [u64; 6], i: nat)
    requires
        i < 384,
        (limbs_val(l@) / pow2(i)) % 2 == 0,
    ensures
        ({
            let k = (i / 64) as int;
            let b = (i % 64) as u64;
            limbs_val(l@.update(k, l[k] | (1u64 << b))) == limbs_val(l@) + pow2(i)
        }),
{
    let k = (i / 64) as int;
    let b = (i % 64) as u64;
    let x = l[k];
    lemma_limbs_bit(l@, k, b as nat);
    assert(64 * k + b == i);
    lemma_u64_bit(x, b);
    assert((x | (1u64 << b)) == x + (1u64 << b)) by (bit_vector)
        requires
            b < 64,
            (x >> b) & 1u64 == 0,
    ;
    lemma_u64_pow2_no_overflow(b as nat);
    lemma_u64_shl_is_mul(1, b);
    lemma_limbs_val_update(l@, k, x | (1u64 << b));
    lemma_pow2_adds((64 * k) as nat, b as nat);
    let pk = pow2((64 * k) as nat);
    let pb = pow2(b as nat);
    assert((x + pb) * pk == x * pk + pb * pk) by (nonlinear_arith);
    assert(1u64 << b == pb);
    assert(x | (1u64 << b) == x + pb);
    assert(limbs_val(l@.update(k, x | (1u64 << b))) + x * pk == limbs_val(l@) + (x + pb) * pk);
    assert(pk * pb == pow2(i));
}

/// One step of bit-serial long division: appending `bit` to a prefix whose
/// remainder is `r0` doubles the quotient and adds one exactly when
/// `2 * r0 + bit` reaches the divisor.
pub proof fn lemma_long_division_step(cur: nat, prev: nat, bit: nat, d: nat, r0: nat)
    requires
        d > 0,
        r0 == prev % d,
        cur == 2 * prev + bit,
        bit <= 1,
    ensures
        2 * r0 + bit < 2 * d,
        2 * r0 + bit >= d ==> cur / d == 2 * (prev / d) + 1 && cur % d == 2 * r0 + bit - d,
        2 * r0 + bit < d ==> cur / d == 2 * (prev / d) && cur % d == 2 * r0 + bit,
{
    lemma_fundamental_div_mod(prev as int, d as int);
    lemma_mod_bound(prev as int, d as int);
    let q: int = (prev as int) / (d as int);
    let t: int = (2 * r0 + bit) as int;
    assert(cur == (2 * q) * d + t) by (nonlinear_arith)
        requires
            prev == d * q + r0,
            cur == 2 * prev + bit,
            t == 2 * r0 + bit,
    ;
    if t >= d {
        assert(cur == (2 * q + 1) * d + (t - d)) by (nonlinear_arith)
            requires
                cur == (2 * q) * d + t,
        ;
        lemma_fundamental_div_mod_converse(cur as int, d as int, 2 * q + 1, t - d);
    } else {
        lemma_fundamental_div_mod_converse(cur as int, d as int, 2 * q, t);
    }
}

/// Divide a 384-bit value by a 128-bit divisor.
///
/// Returns `(quotient, remainder)` via bit-by-bit long division (384 iterations).
/// A carry bit tracks the 129th bit of the intermediate remainder to handle
/// the case where `2 * remainder` overflows `u128`.
pub fn divmod_by_u128(a: BigUint384, d: u128) -> (res: (BigUint384, u128))
    requires
        d > 0,
    ensures
        res.0@ * d + res.1 == a@,
        res.1 < d,
{
    let mut q = BigUint384::zero();
    let mut r: u128 = 0;
    proof {
        lemma_limbs_val_bound(a.limbs@);
        lemma_pow2_pos(384);
        lemma_basic_div(a@ as int, pow2(384) as int);
    }
    let mut i: usize = 384;
    while i > 0
        invariant
            i <= 384,
            d > 0,
            r < d,
            r == (a@ / pow2(i as nat)) % (d as nat),
            q@ == ((a@ / pow2(i as nat)) / (d as nat)) * pow2(i as nat),
        decreases i,
    {
        i = i - 1;
        let ghost dd: nat = d as nat;
        let ghost r0 = r as nat;
        let ghost big_p: nat = a@ / pow2((i + 1) as nat);
        let ghost big_q: nat = big_p / dd;
        assert(r0 == big_p % dd);
        assert(q@ == big_q * pow2((i + 1) as nat));
        // r = r * 2 + bit_i(a), but 2*r can be 129 bits.
        let high_bit = r >> 127u128;
        let set = a.get_bit(i);
        let abit: u128 = if set {
            1
        } else {
            0
        };
        let r1 = (r << 1u128) | abit;
        assert(r1 + high_bit * 0x1_0000_0000_0000_0000_0000_0000_0000_0000 == 2 * r + abit
            && high_bit <= 1) by (bit_vector)
            requires
                abit <= 1,
                high_bit == r >> 127u128,
                r1 == (r << 1u128) | abit,
        ;
        r = r1;
        proof {
            lemma_prefix_step(a@, i as nat);
            assert((i + 1) as nat == (i as nat) + 1);
            lemma_long_division_step(a@ / pow2(i as nat), big_p, abit as nat, dd, r0);
            lemma_pow2_adds(i as nat, 1);
            lemma2_to64();
            lemma_pow2_pos(i as nat);
        }
        // If the 129th bit was set, or r >= d, subtract d from r.
        if high_bit != 0 || r >= d {
            r = r.wrapping_sub(d);
            // Set bit i in quotient.
            proof {
                assert(q@ == (2 * big_q) * pow2(i as nat)) by (nonlinear_arith)
                    requires
                        q@ == big_q * pow2((i + 1) as nat),
                        pow2((i + 1) as nat) == pow2(i as nat) * 2,
                ;
                lemma_mod_multiples_vanish(big_q as int, 0, 2);
                lemma_fundamental_div_mod_converse(
                    q@ as int,
                    pow2(i as nat) as int,
                    (2 * big_q) as int,
                    0,
                );
                lemma_set_clear_bit(q.limbs, i as nat);
                assert((2 * big_q) * pow2(i as nat) + pow2(i as nat) == (2 * big_q + 1) * pow2(
                    i as nat,
                )) by (nonlinear_arith);
            }
            q.limbs[i / 64] = q.limbs[i / 64] | (1u64 << ((i % 64) as u64));
        } else {
            proof {
                assert(q@ == (2 * big_q) * pow2(i as nat)) by (nonlinear_arith)
                    requires
                        q@ == big_q * pow2((i + 1) as nat),
                        pow2((i + 1) as nat) == pow2(i as nat) * 2,
                ;
            }
        }
    }
    proof {
        lemma2_to64();
        assert(a@ / pow2(0) == a@);
        lemma_fundamental_div_mod(a@ as int, d as int);
        let x: nat = a@ / (d as nat);
        assert(q@ == x) by (nonlinear_arith)
            requires
                q@ == x * pow2(0),
                pow2(0) == 1,
        ;
        assert(q@ == (a@ as int) / (d as int));
        assert(r == (a@ as int) % (d as int));
        lemma_mul_is_commutative((a@ / (d as nat)) as int, d as int);
    }
    (q, r)
}

} // verus!
