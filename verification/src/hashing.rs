//! Deterministic selector derivation: a fixed-layout payload built from the
//! host-supplied randomness seed, the caller identity and the extrinsic
//! index, digested with a 128-bit blake2b hash. The 16 digest bytes serve
//! either directly as a new kitty's payload or as the bit selector when
//! breeding.

use vstd::prelude::*;

use crate::AccountId;

verus! {

/// The 16 bytes that the 128-bit blake2b digest assigns to a byte string.
pub uninterp spec fn blake2_128_of(data: Seq<u8>) -> Seq<u8>;

/// Relies on sp_crypto_hashing::blake2_128: a 16-byte blake2b digest,
/// a function of `data` alone.
#[verifier::external_body]
fn blake2_128(data: &[u8]) -> (r: [u8; 16])
    ensures
        r@ == blake2_128_of(data@),
{
    sp_crypto_hashing::blake2_128(data)
}

/// The fixed hash-input layout: the 32 seed bytes as they stand, then the
/// caller identity in little-endian, then the extrinsic index in
/// little-endian.
pub open spec fn spec_payload_bytes(seed: Seq<u8>, caller: AccountId, extrinsic_index: u32) -> Seq<
    u8,
> {
    seed + vstd::bytes::spec_u64_to_le_bytes(caller) + vstd::bytes::spec_u32_to_le_bytes(
        extrinsic_index,
    )
}

/// The pseudo-random 16 bytes derived from one `(seed, caller,
/// extrinsic_index)` tuple. A function of those three inputs alone, so
/// repeated derivations from identical inputs agree byte for byte.
pub open spec fn spec_random_value(seed: Seq<u8>, caller: AccountId, extrinsic_index: u32) -> Seq<
    u8,
> {
    blake2_128_of(spec_payload_bytes(seed, caller, extrinsic_index))
}

/// Determinism: derivations from identical `(seed, caller, extrinsic_index)`
/// inputs agree byte for byte, whenever and wherever they are made.
pub proof fn lemma_derivation_deterministic(
    seed: Seq<u8>,
    caller: AccountId,
    extrinsic_index: u32,
    first: Seq<u8>,
    second: Seq<u8>,
)
    requires
        first == spec_random_value(seed, caller, extrinsic_index),
        second == spec_random_value(seed, caller, extrinsic_index),
    ensures
        first == second,
{
}

/// Derive the pseudo-random value for one call: encode the payload in the
/// fixed layout and digest it.
pub fn random_value(seed: &[u8; 32], caller: AccountId, extrinsic_index: u32) -> (r: [u8; 16])
    ensures
        r@ == spec_random_value(seed@, caller, extrinsic_index),
{
    let mut payload: Vec<u8> = Vec::new();
    let mut i: usize = 0;
    while i < 32
        invariant
            i <= 32,
            payload@ == seed@.subrange(0, i as int),
        decreases 32 - i,
    {
        payload.push(seed[i]);
        proof {
            assert(payload@ =~= seed@.subrange(0, i + 1));
        }
        i = i + 1;
    }
    proof {
        assert(payload@ =~= seed@);
    }
    let mut caller_bytes = vstd::bytes::u64_to_le_bytes(caller);
    payload.append(&mut caller_bytes);
    let mut index_bytes = vstd::bytes::u32_to_le_bytes(extrinsic_index);
    payload.append(&mut index_bytes);
    proof {
        assert(payload@ =~= spec_payload_bytes(seed@, caller, extrinsic_index));
    }
    blake2_128(payload.as_slice())
}

} // verus!
