//! Memory priorities and alignment arithmetic.

use vstd::prelude::*;

verus! {

/// How strongly an allocation should stay resident in device memory.
pub enum Priority {
    Medium,
    High,
}

/// `alignment` is a power of two.
pub open spec fn is_power_of_two(alignment: usize) -> bool {
    alignment > 0 && alignment & ((alignment - 1) as usize) == 0
}

/// `value` is aligned to the power of two `alignment`: its bits below the
/// alignment are all clear.
pub open spec fn is_aligned(value: usize, alignment: usize) -> bool {
    value & ((alignment - 1) as usize) == 0
}

/// The value that `align_to` computes: `value + alignment - 1` with the bits of
/// `alignment - 1` cleared.
pub open spec fn aligned(value: usize, alignment: usize) -> usize
    recommends
        alignment >= 1,
        value + alignment - 1 <= usize::MAX,
{
    ((value + alignment - 1) as usize) & !((alignment - 1) as usize)
}

/// What holds of `aligned` for every alignment: it rounds up by less than one
/// alignment step.
pub proof fn lemma_aligned_bounds(value: usize, alignment: usize)
    requires
        alignment >= 1,
        value + alignment - 1 <= usize::MAX,
    ensures
        value <= aligned(value, alignment),
        aligned(value, alignment) <= value + alignment - 1,
{
    let x = (value + alignment - 1) as usize;
    let m = (alignment - 1) as usize;
    assert(x & !m <= x) by (bit_vector);
    assert(x - (x & !m) <= m) by (bit_vector);
}

/// For a power-of-two alignment, `aligned` is the least aligned value that is
/// not below `value`.
pub proof fn lemma_aligned_is_least(value: usize, alignment: usize)
    requires
        is_power_of_two(alignment),
        value + alignment - 1 <= usize::MAX,
    ensures
        is_aligned(aligned(value, alignment), alignment),
        value <= aligned(value, alignment),
        forall|m: usize|
            #![trigger is_aligned(m, alignment)]
            is_aligned(m, alignment) && value <= m ==> aligned(value, alignment) <= m,
{
    lemma_aligned_bounds(value, alignment);
    let x = (value + alignment - 1) as usize;
    let k = (alignment - 1) as usize;
    assert((x & !k) & k == 0) by (bit_vector);
    assert forall|m: usize|
        #![trigger is_aligned(m, alignment)]
        is_aligned(m, alignment) && value <= m implies aligned(value, alignment) <= m by {
        let a = alignment;
        assert(a > 0 && a & k == 0 && k == (a - 1) as usize && m & k == 0 && value <= m && x
            == value + k ==> x & !k <= m) by (bit_vector);
    }
}

/// Aligning an aligned value leaves it unchanged.
pub proof fn lemma_aligned_idempotent(value: usize, alignment: usize)
    requires
        is_power_of_two(alignment),
        value + alignment - 1 <= usize::MAX,
    ensures
        aligned(value, alignment) + alignment - 1 <= usize::MAX,
        aligned(aligned(value, alignment), alignment) == aligned(value, alignment),
{
    lemma_aligned_bounds(value, alignment);
    lemma_aligned_is_least(value, alignment);
    let r = aligned(value, alignment);
    let k = (alignment - 1) as usize;
    assert(r + alignment - 1 <= usize::MAX) by {
        let x = (value + k) as usize;
        assert((x & !k) + k == ((x & !k) | k)) by (bit_vector);
    }
    let y = (r + k) as usize;
    assert(r & k == 0 && y == r + k ==> y & !k == r) by (bit_vector);
}

/// Rounds `value` up to the next multiple of `alignment` (a power of two in
/// every use): the bits of `alignment - 1` are cleared from
/// `value + alignment - 1`.
pub fn align_to(value: usize, alignment: usize) -> (r: usize)
    requires
        alignment >= 1,
        value + alignment - 1 <= usize::MAX,
    ensures
        r == aligned(value, alignment),
        value <= r <= value + alignment - 1,
        is_power_of_two(alignment) ==> is_aligned(r, alignment),
{
    proof {
        lemma_aligned_bounds(value, alignment);
        if is_power_of_two(alignment) {
            lemma_aligned_is_least(value, alignment);
        }
    }
    (value + (alignment - 1)) & !(alignment - 1)
}

} // verus!
