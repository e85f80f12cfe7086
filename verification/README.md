# pso_vdf

A verified MinRoot verifiable delay function over the BLS12-381 base field,
with a Wesolowski O(1) proof, written in Verus.

## Layout

| Module          | Contents                                                        |
|-----------------|-----------------------------------------------------------------|
| `bigint`        | 384-bit limb arithmetic: `reduce_wide`, `mulmod`, `powmod`, `divmod_by_u128` |
| `field`         | `FieldElement`: canonical BLS12-381 base field elements, computed by `ark_bls12_381::Fq` |
| `digest`        | SHA-256 and little-endian byte encodings                        |
| `prime`         | 128-bit modular arithmetic, `is_prime_128`, `hash_to_prime`     |
| `params`        | `VdfParams`: input derivation and block validity window         |
| `minroot`       | `MinRootVdf`: `eval`, `verify`, `verify_forward`                |
| `number_theory` | Euclid's lemma, the binomial theorem, Fermat's little theorem   |
| `pocklington`   | Pocklington's primality criterion and trial division            |
| `fq_prime`      | A Pocklington certificate proving the field modulus prime       |
| `laws`          | What evaluation, forward and Wesolowski verification promise of one another |
| `types`, `error`| Wire types and the error enum                                   |

`app/` holds serde- and `thiserror`-enabled copies of the wire types and the
error enum, with conversions to and from the library's own types.

## Trust

The library calls `ark_ff`, `ark_bls12_381`, `ark_serialize` and `sha2`
through small wrappers whose contracts are taken on trust; everything else is
proved, including the primality of the field modulus on which the laws that
use Fermat's little theorem rest.
