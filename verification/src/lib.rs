//! # pso-vdf
//!
//! Verifiable Delay Function primitives for pso-chain.
//!
//! ## Algorithm
//!
//! MinRoot VDF over BLS12-381 Fq with Wesolowski O(1) proof scheme.
//! No trusted setup required.
//!
//! ## Security note
//!
//! The `T_BASE` constant below must be calibrated on reference hardware
//! before testnet deployment.
use vstd::prelude::*;

pub mod bigint;
pub mod digest;
pub mod error;
pub mod field;
pub mod fq_prime;
pub mod laws;
pub mod minroot;
pub mod number_theory;
pub mod params;
pub mod pocklington;
pub mod prime;
pub mod types;

pub use error::VdfError;
pub use params::VdfParams;
pub use types::{VdfDifficulty, VdfInput, VdfOutput, VdfProof};

verus! {

/// Core VDF trait.
///
/// The `eval` function is slow by design (O(T) sequential steps). The
/// `verify` function is fast (O(1)). Each construction states on which
/// inputs the two finish.
pub trait Vdf: Sized {
    /// The proof type specific to this VDF construction.
    type Proof;

    /// The inputs on which `eval` finishes.
    spec fn eval_requires(input: VdfInput, difficulty: VdfDifficulty) -> bool;

    /// The inputs on which `verify` finishes.
    spec fn verify_requires(
        input: VdfInput,
        output: VdfOutput,
        proof: Self::Proof,
        difficulty: VdfDifficulty,
    ) -> bool;

    /// Evaluate the VDF: compute `(y, pi) = f(x, T)`.
    ///
    /// This is the slow path: it takes approximately `T_BASE` seconds on
    /// reference hardware. Callers should run this off the hot path.
    fn eval(input: &VdfInput, difficulty: VdfDifficulty) -> (VdfOutput, Self::Proof)
        requires
            Self::eval_requires(*input, difficulty),
    ;

    /// Verify a VDF proof: check that `pi` proves `y = f(x, T)`.
    ///
    /// This must complete in under 1ms on sequencer hardware.
    fn verify(
        input: &VdfInput,
        output: &VdfOutput,
        proof: &Self::Proof,
        difficulty: VdfDifficulty,
    ) -> bool
        requires
            Self::verify_requires(*input, *output, *proof, difficulty),
    ;
}

/// Base difficulty constant, calibrated for about 2 seconds on an iPhone 13 (A15 Bionic).
///
/// Single MinRoot iteration: about 13.7 us; T=100,000 takes about 1.40 s on
/// a desktop and about 1.95 s on an iPhone 13.
pub const T_BASE: VdfDifficulty = 100_000;

/// Maximum difficulty adjustment per epoch (+-25%).
pub const MAX_DIFFICULTY_ADJUSTMENT_PCT: u64 = 25;

/// Epoch length in L2 blocks.
pub const EPOCH_LENGTH_BLOCKS: u64 = 128;

/// VDF proof validity window in blocks (+-32 from target).
pub const PROOF_VALIDITY_WINDOW: u64 = 32;

} // verus!
