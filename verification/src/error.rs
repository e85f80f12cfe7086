//! Error types for pso-vdf.
use vstd::prelude::*;

verus! {

/// Errors that can arise during VDF verification.
#[derive(Debug, Clone, PartialEq, Eq)]
pub enum VdfError {
    /// The VDF proof bytes are malformed (wrong length or invalid encoding).
    MalformedProof {
        /// Human-readable description.
        reason: &'static str,
    },
    /// The VDF output bytes are malformed.
    MalformedOutput {
        /// Human-readable description.
        reason: &'static str,
    },
    /// Proof verification failed: the proof does not attest to the claimed output.
    VerificationFailed,
    /// The difficulty value is zero or otherwise invalid.
    InvalidDifficulty(u64),
    /// Serialisation error of a field element.
    Serialisation,
}

} // verus!
