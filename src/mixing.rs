use vstd::prelude::*;

use vstd::bytes::{spec_u32_to_le_bytes, spec_u64_to_le_bytes, u32_to_le_bytes, u64_to_le_bytes};
use vstd::wrapping::u64_specs::{wrapping_add, wrapping_mul};

use crate::hash::{fx_hash32, fx_hash64, hash32_of, hash64_of};

verus! {

/// Odd multiplier that spreads an explicit seed over all 64 bits.
pub const SEED_MULTIPLIER: u64 = 0x517cc1b727220a95;

/// First multiplier of the 64-bit avalanche finalizer.
pub const AVALANCHE_FIRST: u64 = 0xff51afd7ed558ccd;

/// Second multiplier of the 64-bit avalanche finalizer.
pub const AVALANCHE_SECOND: u64 = 0xc4ceb9fe1a85ec53;

/// The 12 bytes hashed for one draw: the point id (little endian) followed by
/// the call ordinal (little endian).
pub open spec fn draw_key(id: u32, ordinal: u64) -> Seq<u8> {
    spec_u32_to_le_bytes(id) + spec_u64_to_le_bytes(ordinal)
}

/// One xor-shift round of the finalizer.
pub open spec fn spec_fold(x: u64) -> u64 {
    x ^ (x >> 33u64)
}

/// The 64-bit avalanche finalizer: fold, multiply, fold, multiply, fold.
pub open spec fn spec_avalanche(x: u64) -> u64 {
    spec_fold(wrapping_mul(spec_fold(wrapping_mul(spec_fold(x), AVALANCHE_FIRST)), AVALANCHE_SECOND))
}

/// What perturbs the hashed key: the seed spread by its multiplier when a seed
/// is set, else the run-time entropy of the call.
pub open spec fn spec_perturbation(seed: u64, entropy: u64) -> u64 {
    if seed != 0 {
        wrapping_mul(seed, SEED_MULTIPLIER)
    } else {
        entropy
    }
}

/// The 32-bit draw made from the two digests of a key: the widened 32-bit
/// digest xor the 64-bit digest xor the perturbation, mixed, high half.
pub open spec fn spec_mix_digests(digest32: u32, digest64: u64, seed: u64, entropy: u64) -> u32 {
    (spec_avalanche((digest32 as u64) ^ digest64 ^ spec_perturbation(seed, entropy)) >> 32u64) as u32
}

/// The draw of the call with the given ordinal at the given point.
pub open spec fn spec_draw(id: u32, ordinal: u64, seed: u64, entropy: u64) -> u32 {
    let key = draw_key(id, ordinal);
    spec_mix_digests(fx_hash32(key), fx_hash64(key), seed, entropy)
}

/// The run-time entropy made from the clock, an address and a thread hash.
pub open spec fn spec_runtime_entropy(nanos: u64, address: u64, thread_hash: u64) -> u64 {
    wrapping_mul(wrapping_add(nanos, address), thread_hash)
}

/// Applies the 64-bit avalanche finalizer.
pub fn avalanche(x: u64) -> (r: u64)
    ensures
        r == spec_avalanche(x),
{
    let mut v: u64 = x ^ (x >> 33u64);
    v = v.wrapping_mul(AVALANCHE_FIRST);
    v = v ^ (v >> 33u64);
    v = v.wrapping_mul(AVALANCHE_SECOND);
    v ^ (v >> 33u64)
}

/// Turns the two digests of a draw key into the 32-bit draw, perturbed by the
/// seed when one is set and by `entropy` otherwise.
pub fn mix_digests(digest32: u32, digest64: u64, seed: u64, entropy: u64) -> (r: u32)
    ensures
        r == spec_mix_digests(digest32, digest64, seed, entropy),
{
    let mut combined: u64 = (digest32 as u64) ^ digest64;
    if seed != 0 {
        combined = combined ^ seed.wrapping_mul(SEED_MULTIPLIER);
    } else {
        combined = combined ^ entropy;
    }
    (avalanche(combined) >> 32u64) as u32
}

/// The 32-bit draw for the call with ordinal `ordinal` at point `id`.
pub fn draw(id: u32, ordinal: u64, seed: u64, entropy: u64) -> (r: u32)
    ensures
        r == spec_draw(id, ordinal, seed, entropy),
{
    let mut key = u32_to_le_bytes(id);
    let mut tail = u64_to_le_bytes(ordinal);
    key.append(&mut tail);
    assert(key@ == draw_key(id, ordinal));
    let digest32 = hash32_of(key.as_slice());
    let digest64 = hash64_of(key.as_slice());
    mix_digests(digest32, digest64, seed, entropy)
}

/// Run-time entropy for unseeded draws: `(nanos + address) * thread_hash`,
/// both wrapping.
pub fn runtime_entropy(nanos: u64, address: u64, thread_hash: u64) -> (r: u64)
    ensures
        r == spec_runtime_entropy(nanos, address, thread_hash),
{
    nanos.wrapping_add(address).wrapping_mul(thread_hash)
}

} // verus!
