//! The heap-initialization rule: given the host-supplied heap base (the
//! first byte beyond static module data), round up to the next multiple of
//! 8 bytes so that bump allocation starts on an 8-byte boundary.

use vstd::prelude::*;

verus! {

/// The aligned heap base: `base + 7` taken modulo 2^32 (the addition wraps
/// at the top of the 32-bit address space), then rounded down to a
/// multiple of 8.  The value always fits in a `u32`.
pub open spec fn align8(base: u32) -> u32 {
    let sum = (base + 7) % 0x1_0000_0000;
    (sum - sum % 8) as u32
}

/// First valid allocation address at or above `base`.  Computes
/// `(base + 7) & !7` in wrapping unsigned arithmetic: for every base up to
/// `u32::MAX - 7` this rounds `base` up to the nearest multiple of 8; for
/// the seven values above that the sum wraps and the result is 0.
pub fn align_heap_base(base: u32) -> (aligned: u32)
    ensures
        aligned == align8(base),
{
    let sum = base.wrapping_add(7);
    let aligned = sum & !7u32;
    proof {
        assert(sum == (base + 7) % 0x1_0000_0000);
        assert(sum & !7u32 == sum - sum % 8) by (bit_vector);
    }
    aligned
}

/// Alignment property, away from the wrap-around boundary: for every base
/// that leaves room for the rounding, the aligned value is the multiple of
/// 8 in the window `[base, base + 7]`.
pub proof fn lemma_align8_bounds(base: u32)
    requires
        base + 7 <= u32::MAX,
    ensures
        align8(base) % 8 == 0,
        base <= align8(base) <= base + 7,
{
    assert((base + 7) % 0x1_0000_0000 == base + 7);
}

/// The aligned value is a multiple of 8 for every 32-bit base, the seven
/// wrapping ones included.
pub proof fn lemma_align8_multiple(base: u32)
    ensures
        align8(base) % 8 == 0,
{
}

/// Wrap-around policy at the top of the address space: for a base above
/// `u32::MAX - 7` the sum `base + 7` wraps past 2^32 and the aligned value
/// is 0 (the mathematical result 2^32, truncated to 32 bits).
pub proof fn lemma_align8_wraps(base: u32)
    requires
        base + 7 > u32::MAX,
    ensures
        align8(base) == 0,
{
    assert((base + 7) % 0x1_0000_0000 == base + 7 - 0x1_0000_0000);
}

} // verus!
