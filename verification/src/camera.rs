//! Movement input of the camera controller.

use vstd::prelude::*;

verus! {

/// Movement along one camera axis, from a pair of opposite keys.
#[derive(PartialEq, Eq, Structural, Clone, Copy, Debug)]
pub enum AxisMovement {
    Stationary,
    Forward,
    Backward,
}

impl AxisMovement {
    pub open spec fn spec_new(forward: bool, backward: bool) -> AxisMovement {
        if forward && !backward {
            AxisMovement::Forward
        } else if backward && !forward {
            AxisMovement::Backward
        } else {
            AxisMovement::Stationary
        }
    }

    /// Forward or backward when exactly one of the two keys is held; no
    /// movement when neither or both are.
    pub fn new(forward: bool, backward: bool) -> (r: Self)
        ensures
            r == Self::spec_new(forward, backward),
    {
        match (forward, backward) {
            (true, false) => AxisMovement::Forward,
            (false, true) => AxisMovement::Backward,
            _ => AxisMovement::Stationary,
        }
    }

    /// There is movement along this axis.
    pub fn has_some(&self) -> (r: bool)
        ensures
            r == !(*self is Stationary),
    {
        !matches!(self, AxisMovement::Stationary)
    }
}

/// An axis moves exactly when one of its two keys is held without the other,
/// and then in the direction of that key.
pub proof fn lemma_moves_iff_one_key(forward: bool, backward: bool)
    ensures
        !(AxisMovement::spec_new(forward, backward) is Stationary) <==> forward != backward,
        forward && !backward ==> AxisMovement::spec_new(forward, backward) == AxisMovement::Forward,
        backward && !forward ==> AxisMovement::spec_new(forward, backward)
            == AxisMovement::Backward,
{
}

} // verus!
