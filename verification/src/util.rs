//! Small helpers shared by the renderer's modules.

use vstd::prelude::*;

use crate::memory::{aligned, is_aligned, is_power_of_two};

verus! {

/// Rounds `value` up to the next multiple of the power-of-two `alignment`
/// (the same rounding as `memory::align_to`).
pub fn align_to(value: usize, alignment: usize) -> (r: usize)
    requires
        alignment >= 1,
        value + alignment - 1 <= usize::MAX,
    ensures
        r == aligned(value, alignment),
        value <= r <= value + alignment - 1,
        is_power_of_two(alignment) ==> is_aligned(r, alignment),
{
    crate::memory::align_to(value, alignment)
}

} // verus!
