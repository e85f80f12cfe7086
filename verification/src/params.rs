//! [`VdfParams`]: canonical construction of the VDF input from tx context.
use vstd::prelude::*;
use vstd::arithmetic::power2::*;
use crate::digest::{concat_bytes, le_bytes_of, le_bytes_val, lemma_le_bytes_of, sha256, sha256_digest};
use crate::types::{VdfDifficulty, VdfInput};

verus! {

/// The 8-byte little-endian encoding of a `u64`.
pub open spec fn u64_le_bytes(x: u64) -> Seq<u8> {
    le_bytes_of(x as nat, 8)
}

/// The bytes hashed into the VDF input:
/// `signer || nonce_le || submitted_block_le || chain_id_le`.
pub open spec fn input_preimage(signer: [u8; 20], nonce: u64, submitted_block: u64, chain_id: u64) -> Seq<u8> {
    signer@ + u64_le_bytes(nonce) + u64_le_bytes(submitted_block) + u64_le_bytes(chain_id)
}

/// The 8-byte encoding of a `u64` reads back as the `u64`.
pub proof fn lemma_u64_le_bytes(x: u64)
    ensures
        u64_le_bytes(x).len() == 8,
        le_bytes_val(u64_le_bytes(x)) == x,
{
    lemma_le_bytes_of(x as nat, 8);
    lemma2_to64();
    lemma_pow2_adds(32, 32);
    assert(8 * 8 == 64);
    vstd::arithmetic::div_mod::lemma_small_mod(x as nat, pow2(64));
}

/// The input binding: different `(signer, nonce, submitted_block, chain_id)`
/// give different preimages, so a VDF input derived for one cannot be the
/// hash of another's preimage unless SHA-256 collides.
pub proof fn law_input_preimage_injective(
    signer1: [u8; 20],
    nonce1: u64,
    block1: u64,
    chain1: u64,
    signer2: [u8; 20],
    nonce2: u64,
    block2: u64,
    chain2: u64,
)
    requires
        input_preimage(signer1, nonce1, block1, chain1) == input_preimage(
            signer2,
            nonce2,
            block2,
            chain2,
        ),
    ensures
        signer1@ == signer2@,
        nonce1 == nonce2,
        block1 == block2,
        chain1 == chain2,
{
    let a = input_preimage(signer1, nonce1, block1, chain1);
    lemma_u64_le_bytes(nonce1);
    lemma_u64_le_bytes(block1);
    lemma_u64_le_bytes(chain1);
    lemma_u64_le_bytes(nonce2);
    lemma_u64_le_bytes(block2);
    lemma_u64_le_bytes(chain2);
    assert(a.subrange(0, 20) =~= signer1@);
    assert(a.subrange(0, 20) =~= signer2@);
    assert(a.subrange(20, 28) =~= u64_le_bytes(nonce1));
    assert(a.subrange(20, 28) =~= u64_le_bytes(nonce2));
    assert(a.subrange(28, 36) =~= u64_le_bytes(block1));
    assert(a.subrange(28, 36) =~= u64_le_bytes(block2));
    assert(a.subrange(36, 44) =~= u64_le_bytes(chain1));
    assert(a.subrange(36, 44) =~= u64_le_bytes(chain2));
}

/// The 8 little-endian bytes of `x`.
fn u64_to_le_bytes(x: u64) -> (r: [u8; 8])
    ensures
        r@ == u64_le_bytes(x),
{
    let mut out = [0u8; 8];
    let mut v = x;
    let mut i: usize = 0;
    proof {
        assert(out@.take(0) + le_bytes_of(v as nat, 8) =~= le_bytes_of(x as nat, 8));
    }
    while i < 8
        invariant
            i <= 8,
            out@.take(i as int) + le_bytes_of(v as nat, (8 - i) as nat) == le_bytes_of(x as nat, 8),
        decreases 8 - i,
    {
        let ghost before = out@;
        let byte = (v % 256) as u8;
        out[i] = byte;
        proof {
            let rest = le_bytes_of((v / 256) as nat, (7 - i) as nat);
            assert(le_bytes_of(v as nat, (8 - i) as nat) =~= seq![byte] + rest);
            assert(out@.take(i + 1) =~= before.take(i as int) + seq![byte]);
        }
        v = v / 256;
        i = i + 1;
        proof {
            assert(out@.take(i as int) + le_bytes_of(v as nat, (8 - i) as nat) =~= le_bytes_of(
                x as nat,
                8,
            ));
        }
    }
    proof {
        assert(le_bytes_of(v as nat, 0) =~= Seq::<u8>::empty());
        assert(out@.take(8) =~= out@);
    }
    out
}

/// Canonical VDF input construction:
///
/// ```text
/// vdf_input = SHA-256(signer_le_20 || nonce_le_8 || submitted_block_le_8 || chain_id_le_8)
/// ```
///
/// Why these four fields:
///   * `signer` ties the proof to a specific account;
///   * `nonce` ties the proof to a specific tx slot for the signer;
///   * `submitted_block` ties the proof to a specific block window;
///   * `chain_id` makes the proof chain-specific.
#[derive(Clone, Debug, PartialEq, Eq)]
pub struct VdfParams {
    /// 20-byte EVM address of the wallet computing the proof.
    pub signer: [u8; 20],
    /// EVM nonce of the transaction this proof binds to.
    pub nonce: u64,
    /// L2 block height the wallet observed when computing the proof.
    pub submitted_block: u64,
    /// The EVM chain ID of the sidechain.
    pub chain_id: u64,
    /// The VDF difficulty `T` at the time of proof generation.
    pub difficulty: VdfDifficulty,
}

impl VdfParams {
    /// Construct a new set of VDF parameters.
    pub fn new(
        signer: [u8; 20],
        nonce: u64,
        submitted_block: u64,
        chain_id: u64,
        difficulty: VdfDifficulty,
    ) -> (r: Self)
        ensures
            r.signer == signer,
            r.nonce == nonce,
            r.submitted_block == submitted_block,
            r.chain_id == chain_id,
            r.difficulty == difficulty,
    {
        Self { signer, nonce, submitted_block, chain_id, difficulty }
    }

    /// Derive the canonical 32-byte VDF input.
    ///
    /// `vdf_input = SHA-256(signer || nonce_le || submitted_block_le || chain_id_le)`.
    pub fn derive_input(&self) -> (r: VdfInput)
        ensures
            r.0@ == sha256(
                input_preimage(self.signer, self.nonce, self.submitted_block, self.chain_id),
            ),
    {
        Self::derive_input_from(self.signer, self.nonce, self.submitted_block, self.chain_id)
    }

    /// Free function form of [`Self::derive_input`], for a validator that
    /// recomputes the expected seed without a full `VdfParams`.
    pub fn derive_input_from(
        signer: [u8; 20],
        nonce: u64,
        submitted_block: u64,
        chain_id: u64,
    ) -> (r: VdfInput)
        ensures
            r.0@ == sha256(input_preimage(signer, nonce, submitted_block, chain_id)),
    {
        let nonce_le = u64_to_le_bytes(nonce);
        let block_le = u64_to_le_bytes(submitted_block);
        let chain_le = u64_to_le_bytes(chain_id);
        let part1 = concat_bytes(&signer, &nonce_le);
        let part2 = concat_bytes(part1.as_slice(), &block_le);
        let data = concat_bytes(part2.as_slice(), &chain_le);
        let result: [u8; 32] = sha256_digest(data.as_slice());
        VdfInput::from_bytes(result)
    }

    /// Check whether a proof's `submitted_block` is within the acceptable
    /// backward-looking validity window relative to `current_block`.
    ///
    /// Accept iff `submitted_block <= current_block` and
    /// `current_block - submitted_block <= window`.
    pub fn is_block_valid(submitted_block: u64, current_block: u64, window: u64) -> (r: bool)
        ensures
            r == (submitted_block <= current_block && current_block - submitted_block <= window),
    {
        submitted_block <= current_block && current_block - submitted_block <= window
    }
}

} // verus!
