//! SHA-256, the hash behind input derivation and the Fiat-Shamir challenge.
use vstd::prelude::*;
use vstd::arithmetic::power2::*;
use sha2::{Digest, Sha256};

verus! {

/// The SHA-256 digest of a byte string, as `sha2::Sha256` computes it.
pub uninterp spec fn sha256(data: Seq<u8>) -> Seq<u8>;

/// SHA-256 through `sha2::Sha256::digest`: the 32-byte digest of `data`.
/// What the digest is for given bytes is left to the name `sha256`; the
/// contract only ties the result to the whole of `data`.
#[verifier::external_body]
pub(crate) fn sha256_digest(data: &[u8]) -> (r: [u8; 32])
    ensures
        r@ == sha256(data@),
{
    Sha256::digest(data).into()
}

/// The bytes of `a` followed by those of `b`.
pub fn concat_bytes(a: &[u8], b: &[u8]) -> (r: Vec<u8>)
    ensures
        r@ == a@ + b@,
{
    let mut out: Vec<u8> = Vec::new();
    let mut i: usize = 0;
    while i < a.len()
        invariant
            i <= a.len(),
            out@ == a@.take(i as int),
        decreases a.len() - i,
    {
        out.push(a[i]);
        i = i + 1;
        proof {
            assert(out@ =~= a@.take(i as int));
        }
    }
    let mut j: usize = 0;
    while j < b.len()
        invariant
            j <= b.len(),
            out@ == a@ + b@.take(j as int),
        decreases b.len() - j,
    {
        out.push(b[j]);
        j = j + 1;
        proof {
            assert(out@ =~= a@ + b@.take(j as int));
        }
    }
    proof {
        assert(a@.take(a.len() as int) =~= a@);
        assert(b@.take(b.len() as int) =~= b@);
    }
    out
}

/// The value of a little-endian byte string.
pub open spec fn le_bytes_val(s: Seq<u8>) -> nat
    decreases s.len(),
{
    if s.len() == 0 {
        0
    } else {
        (s[0] as nat) + 256 * le_bytes_val(s.drop_first())
    }
}

/// A string of `n` bytes holds a value below `2^(8 n)`.
pub proof fn lemma_le_bytes_bound(s: Seq<u8>)
    ensures
        le_bytes_val(s) < pow2(8 * s.len()),
    decreases s.len(),
{
    lemma2_to64();
    if s.len() > 0 {
        lemma_le_bytes_bound(s.drop_first());
        let n = (s.len() - 1) as nat;
        lemma_pow2_adds(8, 8 * n);
        assert(8 + 8 * n == 8 * s.len());
        let x = le_bytes_val(s.drop_first());
        let p = pow2(8 * n);
        let s0 = s[0] as nat;
        assert(s0 + 256 * x < 256 * p) by (nonlinear_arith)
            requires
                s0 < 256,
                x < p,
        ;
    }
}

/// The `n`-byte little-endian encoding of `v` (higher bytes dropped).
pub open spec fn le_bytes_of(v: nat, n: nat) -> Seq<u8>
    decreases n,
{
    if n == 0 {
        Seq::empty()
    } else {
        seq![(v % 256) as u8] + le_bytes_of(v / 256, (n - 1) as nat)
    }
}

/// Encoding in `n` little-endian bytes and reading back gives `v` modulo `2^(8 n)`.
pub proof fn lemma_le_bytes_of(v: nat, n: nat)
    ensures
        le_bytes_of(v, n).len() == n,
        le_bytes_val(le_bytes_of(v, n)) == v % pow2(8 * n),
    decreases n,
{
    lemma2_to64();
    if n > 0 {
        let m = (n - 1) as nat;
        lemma_le_bytes_of(v / 256, m);
        let s = le_bytes_of(v, n);
        assert(s.drop_first() =~= le_bytes_of(v / 256, m));
        lemma_pow2_adds(8, 8 * m);
        assert(8 + 8 * m == 8 * n);
        lemma_pow2_pos(8 * m);
        let p = pow2(8 * m);
        vstd::arithmetic::div_mod::lemma_fundamental_div_mod(v as int, 256);
        vstd::arithmetic::div_mod::lemma_fundamental_div_mod((v / 256) as int, p as int);
        vstd::arithmetic::div_mod::lemma_mod_bound((v / 256) as int, p as int);
        let q = (v / 256) / p;
        let r = (v / 256) % p;
        assert(v == (256 * p) * q + ((v % 256) + 256 * r)) by (nonlinear_arith)
            requires
                v == 256 * (v / 256) + v % 256,
                v / 256 == p * q + r,
        ;
        assert((v % 256) + 256 * r < 256 * p) by (nonlinear_arith)
            requires
                v % 256 < 256,
                r < p,
        ;
        vstd::arithmetic::div_mod::lemma_fundamental_div_mod_converse(
            v as int,
            (256 * p) as int,
            q as int,
            ((v % 256) + 256 * r) as int,
        );
    }
}

/// Two byte strings of the same length with the same little-endian value are equal.
pub proof fn lemma_le_bytes_injective(a: Seq<u8>, b: Seq<u8>)
    requires
        a.len() == b.len(),
        le_bytes_val(a) == le_bytes_val(b),
    ensures
        a == b,
    decreases a.len(),
{
    if a.len() > 0 {
        let x = le_bytes_val(a.drop_first());
        let y = le_bytes_val(b.drop_first());
        vstd::arithmetic::div_mod::lemma_fundamental_div_mod_converse(
            le_bytes_val(a) as int,
            256,
            x as int,
            a[0] as int,
        );
        vstd::arithmetic::div_mod::lemma_fundamental_div_mod_converse(
            le_bytes_val(b) as int,
            256,
            y as int,
            b[0] as int,
        );
        lemma_le_bytes_injective(a.drop_first(), b.drop_first());
        assert(a[0] == b[0]);
        assert forall|i: int| 0 <= i < a.len() implies a[i] == b[i] by {
            if i > 0 {
                assert(a[i] == a.drop_first()[i - 1]);
                assert(b[i] == b.drop_first()[i - 1]);
            }
        }
        assert(a =~= b);
    } else {
        assert(a =~= b);
    }
}

} // verus!
