//! The BLS12-381 base field `Fq`, held as canonical 384-bit integers.
//!
//! Arithmetic, byte conversion and (de)serialisation are done by
//! `ark_bls12_381::Fq`; each element handed to or taken from it here is the
//! canonical representative, below the modulus `p`.
use vstd::prelude::*;
use vstd::arithmetic::power::*;
use vstd::std_specs::cmp::PartialEqSpecImpl;
use ark_bls12_381::Fq;
use ark_ff::{BigInt, Field, PrimeField};
use ark_serialize::{CanonicalDeserialize, CanonicalSerialize, SerializationError};
use crate::bigint::{BigUint384, limbs_val};
use crate::digest::{le_bytes_val, le_bytes_of};
use crate::error::VdfError;

verus! {

#[verifier::external_type_specification]
#[verifier::external_body]
pub struct ExSerializationError(SerializationError);

/// The BLS12-381 base field modulus `p`.
pub open spec fn fq_modulus() -> nat {
    4002409555221667393417789825735904156556882819939007885332058136124031650490837864442687629129015664037894272559787nat
}

/// `<ark_bls12_381::Fq as PrimeField>::MODULUS` as six limbs: the crate
/// defines it as the decimal constant that `fq_modulus` states.
#[verifier::external_body]
pub(crate) fn fq_modulus_limbs() -> (r: BigUint384)
    ensures
        r@ == fq_modulus(),
{
    BigUint384 { limbs: Fq::MODULUS.0 }
}

/// `ark_bls12_381::Fq::from_le_bytes_mod_order`: the bytes read as a
/// little-endian integer, reduced modulo `p`; returned as the canonical
/// integer of the element (`into_bigint`).
#[verifier::external_body]
fn fq_from_le_bytes_mod_order(bytes: &[u8; 32]) -> (r: BigUint384)
    ensures
        r@ == le_bytes_val(bytes@) % fq_modulus(),
{
    BigUint384 { limbs: Fq::from_le_bytes_mod_order(bytes).into_bigint().0 }
}

/// `ark_ff::Field::pow` on `Fq`: the element of canonical value `base`
/// (built by `From<BigInt<6>>`) raised to the exponent whose little-endian
/// limbs are `exp`, returned as its canonical integer.
#[verifier::external_body]
fn fq_pow(base: &BigUint384, exp: &[u64]) -> (r: BigUint384)
    requires
        base@ < fq_modulus(),
    ensures
        r@ == pow(base@ as int, limbs_val(exp@)) % (fq_modulus() as int),
{
    BigUint384 { limbs: Fq::from(BigInt::<6>(base.limbs)).pow(exp).into_bigint().0 }
}

/// Multiplication of `Fq` elements of canonical values `a` and `b`: the
/// canonical integer of the product, `a * b mod p`.
#[verifier::external_body]
fn fq_mul(a: &BigUint384, b: &BigUint384) -> (r: BigUint384)
    requires
        a@ < fq_modulus(),
        b@ < fq_modulus(),
    ensures
        r@ == (a@ * b@) % fq_modulus(),
{
    let product = Fq::from(BigInt::<6>(a.limbs)) * Fq::from(BigInt::<6>(b.limbs));
    BigUint384 { limbs: product.into_bigint().0 }
}

/// `ark_serialize::CanonicalSerialize::serialize_compressed` of the `Fq`
/// element of canonical value `x` into a `Vec`: the 48 little-endian bytes of
/// `x` (no flag bits are set for a base field element). Writing into a
/// `Vec` does not fail.
#[verifier::external_body]
fn fq_serialize_compressed(x: &BigUint384) -> (r: Vec<u8>)
    requires
        x@ < fq_modulus(),
    ensures
        r@ == le_bytes_of(x@, 48),
{
    let mut bytes = Vec::with_capacity(48);
    Fq::from(BigInt::<6>(x.limbs)).serialize_compressed(&mut bytes).expect(
        "serialisation of Fq element cannot fail",
    );
    bytes
}

/// `ark_serialize::CanonicalDeserialize::deserialize_compressed` of an `Fq`
/// element from a byte slice: it reads the first 48 bytes as a little-endian
/// integer and succeeds exactly when there are 48 bytes and that integer is
/// below `p` (later bytes are not read); the result is that integer.
#[verifier::external_body]
fn fq_deserialize_compressed(bytes: &[u8]) -> (r: Result<BigUint384, SerializationError>)
    ensures
        r is Ok <==> (bytes@.len() >= 48 && le_bytes_val(bytes@.take(48)) < fq_modulus()),
        r matches Ok(v) ==> v@ == le_bytes_val(bytes@.take(48)),
{
    match Fq::deserialize_compressed(bytes) {
        Ok(v) => Ok(BigUint384 { limbs: v.into_bigint().0 }),
        Err(e) => Err(e),
    }
}

/// An element of the BLS12-381 base field, held as its canonical integer.
#[derive(Clone, Copy, Debug)]
pub struct FieldElement {
    value: BigUint384,
}

impl View for FieldElement {
    type V = nat;

    closed spec fn view(&self) -> nat {
        self.value@
    }
}

impl FieldElement {
    /// Every element is held by its canonical representative, below `p`.
    #[verifier::type_invariant]
    pub open spec fn is_canonical(&self) -> bool {
        self@ < fq_modulus()
    }

    /// Reads bytes in little-endian and reduces them modulo `p`.
    pub fn from_le_bytes_mod_order(bytes: &[u8; 32]) -> (r: Self)
        ensures
            r@ == le_bytes_val(bytes@) % fq_modulus(),
    {
        let v = fq_from_le_bytes_mod_order(bytes);
        FieldElement { value: v }
    }

    /// The element raised to the exponent whose little-endian limbs are `exp`.
    pub fn pow(&self, exp: &[u64]) -> (r: Self)
        ensures
            r@ == pow(self@ as int, limbs_val(exp@)) % (fq_modulus() as int),
    {
        proof {
            use_type_invariant(self);
        }
        let v = fq_pow(&self.value, exp);
        FieldElement { value: v }
    }

    /// The product of two elements.
    pub fn mul(&self, other: &Self) -> (r: Self)
        ensures
            r@ == (self@ * other@) % fq_modulus(),
    {
        proof {
            use_type_invariant(self);
            use_type_invariant(other);
        }
        let v = fq_mul(&self.value, &other.value);
        FieldElement { value: v }
    }

    /// The 48-byte compressed encoding: the canonical integer in little-endian.
    pub fn serialize_compressed(&self) -> (r: Vec<u8>)
        ensures
            r@ == le_bytes_of(self@, 48),
    {
        proof {
            use_type_invariant(self);
        }
        fq_serialize_compressed(&self.value)
    }

    /// Decodes the first 48 bytes as a little-endian canonical integer;
    /// a short slice or a value not below `p` is a serialisation error.
    pub fn deserialize_compressed(bytes: &[u8]) -> (r: Result<Self, VdfError>)
        ensures
            r is Ok <==> (bytes@.len() >= 48 && le_bytes_val(bytes@.take(48)) < fq_modulus()),
            r matches Ok(v) ==> v@ == le_bytes_val(bytes@.take(48)),
            r matches Err(e) ==> e == VdfError::Serialisation,
    {
        match fq_deserialize_compressed(bytes) {
            Ok(v) => Ok(FieldElement { value: v }),
            Err(_) => Err(VdfError::Serialisation),
        }
    }
}

impl PartialEq for FieldElement {
    fn eq(&self, other: &Self) -> (r: bool) {
        self.value.same_value(&other.value)
    }
}

impl PartialEqSpecImpl for FieldElement {
    open spec fn obeys_eq_spec() -> bool {
        true
    }

    open spec fn eq_spec(&self, other: &Self) -> bool {
        self@ == other@
    }
}

impl Eq for FieldElement {
}

} // verus!
