use vstd::prelude::*;

verus! {

/// The 32-bit FxHash of a byte string, as `fxhash::hash32` computes it.
pub uninterp spec fn fx_hash32(bytes: Seq<u8>) -> u32;

/// The 64-bit FxHash of a byte string, as `fxhash::hash64` computes it.
pub uninterp spec fn fx_hash64(bytes: Seq<u8>) -> u64;

/// Relies on fxhash::hash32: an unseeded hash of the bytes alone, so equal
/// byte strings hash equally in every run.
#[verifier::external_body]
pub(crate) fn hash32_of(bytes: &[u8]) -> (r: u32)
    ensures
        r == fx_hash32(bytes@),
{
    fxhash::hash32(bytes)
}

/// Relies on fxhash::hash64: an unseeded hash of the bytes alone, so equal
/// byte strings hash equally in every run.
#[verifier::external_body]
pub(crate) fn hash64_of(bytes: &[u8]) -> (r: u64)
    ensures
        r == fx_hash64(bytes@),
{
    fxhash::hash64(bytes)
}

} // verus!
