//! Facts about the numbers of flag enumerations, whose variants each stand
//! for one bit of a mask.
use vstd::prelude::*;

verus! {

/// Whether exactly one bit of `x` is set.
pub open spec fn is_single_bit(x: u32) -> bool {
    x != 0 && x & ((x - 1) as u32) == 0
}

/// Two different one-bit numbers share no bit, so flags can be combined into
/// a mask and told apart again.
pub proof fn lemma_single_bits_disjoint(x: u32, y: u32)
    requires
        is_single_bit(x),
        is_single_bit(y),
        x != y,
    ensures
        x & y == 0,
{
    assert(x != 0 && x & ((x - 1) as u32) == 0 && y != 0 && y & ((y - 1) as u32) == 0 && x != y ==> x & y == 0)
        by (bit_vector);
}

} // verus!
