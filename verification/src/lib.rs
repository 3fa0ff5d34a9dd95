//! Verified core of a Vulkan path-tracing renderer: the decisions and the
//! arithmetic that sit between the GPU driver calls.

pub mod acceleration_structure;
pub mod camera;
pub mod device;
pub mod extensions;
pub mod features;
pub mod glsl;
pub mod image;
pub mod memory;
pub mod passes;
pub mod physical_device;
pub mod queue;
pub mod renderer_state;
pub mod shader_binding_table;
pub mod shader_data;
pub mod surface;
pub mod sync_info;
pub mod sync_state;
pub mod util;
pub mod world;

use vstd::prelude::*;

verus! {

/// Why a frame could not be shown.
#[derive(PartialEq, Eq, Structural, Clone, Copy, Debug)]
pub enum Error {
    /// The swapchain no longer matches the surface and has to be rebuilt.
    NeedsRecreating,
}

/// A GPU resource that is released explicitly through the context that
/// created it.
pub trait Destroy<C> {
    /// Releases the resource. It must not be used afterwards.
    fn destroy_with(&mut self, ctx: &mut C);
}

} // verus!
