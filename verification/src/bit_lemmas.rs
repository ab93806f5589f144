//! Facts about bitwise operations that the flag sets rely on.
use vstd::prelude::*;

verus! {

/// Whether every bit of `flag` is set in `bits`.
pub open spec fn has_u8(bits: u8, flag: u8) -> bool {
    bits & flag == flag
}

/// Whether every bit of `flag` is set in `bits`.
pub open spec fn has_u32(bits: u32, flag: u32) -> bool {
    bits & flag == flag
}

/// Whether every bit of `flag` is set in `bits`.
pub open spec fn has_u64(bits: u64, flag: u64) -> bool {
    bits & flag == flag
}

/// The empty mask lies within every mask.
pub proof fn lemma_u8_zero_within(k: u8)
    by (bit_vector)
    ensures
        0u8 & !k == 0,
{
}

/// A mask lies within itself.
pub proof fn lemma_u8_self_within(k: u8)
    by (bit_vector)
    ensures
        k & !k == 0,
{
}

/// Masking with `k` keeps a value within `k`.
pub proof fn lemma_u8_and_within(a: u8, k: u8)
    by (bit_vector)
    ensures
        (a & k) & !k == 0,
{
}

/// The union of two values within `k` lies within `k`.
pub proof fn lemma_u8_or_within(a: u8, b: u8, k: u8)
    by (bit_vector)
    requires
        a & !k == 0,
        b & !k == 0,
    ensures
        (a | b) & !k == 0,
{
}

/// The empty mask lies within every mask.
pub proof fn lemma_u32_zero_within(k: u32)
    by (bit_vector)
    ensures
        0u32 & !k == 0,
{
}

/// A mask lies within itself.
pub proof fn lemma_u32_self_within(k: u32)
    by (bit_vector)
    ensures
        k & !k == 0,
{
}

/// Masking with `k` keeps a value within `k`.
pub proof fn lemma_u32_and_within(a: u32, k: u32)
    by (bit_vector)
    ensures
        (a & k) & !k == 0,
{
}

/// The union of two values within `k` lies within `k`.
pub proof fn lemma_u32_or_within(a: u32, b: u32, k: u32)
    by (bit_vector)
    requires
        a & !k == 0,
        b & !k == 0,
    ensures
        (a | b) & !k == 0,
{
}

/// The empty mask lies within every mask.
pub proof fn lemma_u64_zero_within(k: u64)
    by (bit_vector)
    ensures
        0u64 & !k == 0,
{
}

/// A mask lies within itself.
pub proof fn lemma_u64_self_within(k: u64)
    by (bit_vector)
    ensures
        k & !k == 0,
{
}

/// Masking with `k` keeps a value within `k`.
pub proof fn lemma_u64_and_within(a: u64, k: u64)
    by (bit_vector)
    ensures
        (a & k) & !k == 0,
{
}

/// The union of two values within `k` lies within `k`.
pub proof fn lemma_u64_or_within(a: u64, b: u64, k: u64)
    by (bit_vector)
    requires
        a & !k == 0,
        b & !k == 0,
    ensures
        (a | b) & !k == 0,
{
}

/// Adding no bits changes nothing.
pub proof fn lemma_u8_or_zero(a: u8)
    by (bit_vector)
    ensures
        a | 0 == a,
{
}

/// Adding no bits changes nothing.
pub proof fn lemma_u64_or_zero(a: u64)
    by (bit_vector)
    ensures
        a | 0 == a,
{
}

} // verus!
