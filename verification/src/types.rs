//! Primitive types shared across VDF constructions.
use vstd::prelude::*;

verus! {

/// Number of sequential iterations `T` for the VDF.
pub type VdfDifficulty = u64;

/// 32-byte VDF input: `SHA-256(signer || nonce || submitted_block || chain_id)`.
///
/// See [`crate::params::VdfParams::derive_input`] for canonical construction.
#[derive(Clone, Debug, PartialEq, Eq)]
pub struct VdfInput(pub [u8; 32]);

impl VdfInput {
    /// Construct from raw bytes.
    pub fn from_bytes(b: [u8; 32]) -> (r: Self)
        ensures
            r.0 == b,
    {
        Self(b)
    }

    /// View as byte slice.
    pub fn as_bytes(&self) -> (r: &[u8; 32])
        ensures
            *r == self.0,
    {
        &self.0
    }
}

/// VDF output `y`.
///
/// For MinRoot: a BLS12-381 base field element serialised as 48 bytes.
#[derive(Clone, Debug, PartialEq, Eq)]
pub struct VdfOutput(pub Vec<u8>);

impl VdfOutput {
    /// Expected byte length for MinRoot output (BLS12-381 Fp element).
    pub const MINROOT_LEN: usize = 48;

    /// Construct from bytes.
    pub fn from_bytes(b: Vec<u8>) -> (r: Self)
        ensures
            r.0@ == b@,
    {
        Self(b)
    }
}

/// VDF proof `pi`: short proof that `y = f(x, T)` without re-running `f`.
#[derive(Clone, Debug, PartialEq, Eq)]
pub struct VdfProof(pub Vec<u8>);

impl VdfProof {
    /// Construct from bytes.
    pub fn from_bytes(b: Vec<u8>) -> (r: Self)
        ensures
            r.0@ == b@,
    {
        Self(b)
    }
}

} // verus!
