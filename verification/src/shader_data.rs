//! Data handed to the shaders.

use vstd::prelude::*;

verus! {

/// Push constants of the path tracer: how many frames it has accumulated.
#[derive(PartialEq, Eq, Structural, Clone, Copy, Debug)]
pub struct PathtracerConstants {
    pub frame: u32,
}

impl Default for PathtracerConstants {
    fn default() -> (r: Self)
        ensures
            r.frame == 0,
    {
        PathtracerConstants { frame: 0 }
    }
}

} // verus!
