//! Handles cross the language boundary as 64 bits: the arena index in the low
//! 32 bits and its generation in the high 32 bits.

use vstd::prelude::*;

verus! {

/// The number of values of the low half of a packed handle.
pub open spec fn half_range() -> int {
    0x1_0000_0000
}

/// The 64 bits that stand for the handle with the given index and generation.
pub open spec fn packed_handle(index: u32, generation: u32) -> u64 {
    (index + generation * half_range()) as u64
}

/// The (index, generation) parts of a packed handle.
pub open spec fn handle_parts_of(bits: u64) -> (u32, u32) {
    ((bits % (half_range() as u64)) as u32, (bits / (half_range() as u64)) as u32)
}

/// Packs a handle given by its index and generation.
pub fn flat_handle(index: u32, generation: u32) -> (bits: u64)
    ensures
        bits == packed_handle(index, generation),
        bits == index + generation * half_range(),
        bits == index + generation * 0x1_0000_0000,
        bits % 0x1_0000_0000 == index,
        bits / 0x1_0000_0000 == generation,
{
    let i: u64 = index as u64;
    let g: u64 = generation as u64;
    let bits: u64 = i | (g << 32u64);
    proof {
        lemma_parts_of_packed(index, generation);
    }
    assert(i | (g << 32u64) == i + g * 0x1_0000_0000u64) by (bit_vector)
        requires
            i < 0x1_0000_0000u64,
            g < 0x1_0000_0000u64,
    ;
    bits
}

/// Splits packed handle bits into the handle's index and generation.
pub fn handle_parts(bits: u64) -> (parts: (u32, u32))
    ensures
        parts == handle_parts_of(bits),
        parts.0 + parts.1 * half_range() == bits,
        parts.0 == bits % 0x1_0000_0000,
        parts.1 == bits / 0x1_0000_0000,
{
    let low: u64 = bits & 0xffff_ffffu64;
    let high: u64 = bits >> 32u64;
    assert(low == bits % 0x1_0000_0000u64 && high == bits / 0x1_0000_0000u64
        && high < 0x1_0000_0000u64) by (bit_vector)
        requires
            low == bits & 0xffff_ffffu64,
            high == bits >> 32u64,
    ;
    (low as u32, high as u32)
}

/// A packed handle holds the index in its low 32 bits and the generation in
/// its high 32 bits: the bits are `index + generation * 2^32`, and splitting
/// bits gives their remainder and quotient by `2^32`.
pub proof fn lemma_packing_layout(index: u32, generation: u32, bits: u64)
    ensures
        half_range() == 0x1_0000_0000,
        packed_handle(index, generation) == index + generation * 0x1_0000_0000,
        handle_parts_of(bits).0 == bits % 0x1_0000_0000,
        handle_parts_of(bits).1 == bits / 0x1_0000_0000,
{
    lemma_parts_of_packed(index, generation);
    lemma_packed_of_parts(bits);
}

/// Packing a handle and splitting the bits again gives back its index and
/// generation.
pub proof fn lemma_parts_of_packed(index: u32, generation: u32)
    ensures
        handle_parts_of(packed_handle(index, generation)) == (index, generation),
{
    let b: int = index + generation * half_range();
    assert(0 <= b < 0x1_0000_0000_0000_0000) by (nonlinear_arith)
        requires
            b == index + generation * 0x1_0000_0000,
            0 <= index < 0x1_0000_0000,
            0 <= generation < 0x1_0000_0000,
    ;
    assert(b % 0x1_0000_0000 == index as int && b / 0x1_0000_0000 == generation as int)
        by (nonlinear_arith)
        requires
            b == index + generation * 0x1_0000_0000,
            0 <= index < 0x1_0000_0000,
    ;
}

/// Splitting packed handle bits and packing the parts again gives back the
/// same bits.
pub proof fn lemma_packed_of_parts(bits: u64)
    ensures
        packed_handle(handle_parts_of(bits).0, handle_parts_of(bits).1) == bits,
{
    let b: int = bits as int;
    assert(b % 0x1_0000_0000 + (b / 0x1_0000_0000) * 0x1_0000_0000 == b
        && b / 0x1_0000_0000 < 0x1_0000_0000 && 0 <= b / 0x1_0000_0000) by (nonlinear_arith)
        requires
            0 <= b < 0x1_0000_0000_0000_0000,
    ;
}

} // verus!
