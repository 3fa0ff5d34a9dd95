//! The image formats the renderer uses and what follows from each.

use vstd::prelude::*;

verus! {

/// Raw format values.
pub const VK_FORMAT_R8G8B8A8_SRGB: i32 = 43i32;
pub const VK_FORMAT_B8G8R8A8_SRGB: i32 = 50i32;
pub const VK_FORMAT_R32G32B32A32_SFLOAT: i32 = 109i32;
pub const VK_FORMAT_D16_UNORM: i32 = 124i32;

/// Raw image usage bits.
pub const IMAGE_USAGE_SAMPLED: u32 = 0x4u32;
pub const IMAGE_USAGE_DEPTH_STENCIL_ATTACHMENT: u32 = 0x20u32;

/// Raw image aspect bits.
pub const IMAGE_ASPECT_COLOR: u32 = 0x1u32;
pub const IMAGE_ASPECT_DEPTH: u32 = 0x2u32;

/// The kinds of image the renderer creates.
#[derive(PartialEq, Eq, Structural, Clone, Copy, Debug)]
pub enum Format {
    /// High dynamic range render target.
    Hdr,
    /// Colour texture.
    Color,
    /// Depth buffer.
    Depth,
    /// Presentable swapchain image.
    Swapchain,
}

impl Format {
    pub open spec fn spec_vk_format(self) -> i32 {
        match self {
            Format::Hdr => VK_FORMAT_R32G32B32A32_SFLOAT,
            Format::Color => VK_FORMAT_R8G8B8A8_SRGB,
            Format::Depth => VK_FORMAT_D16_UNORM,
            Format::Swapchain => VK_FORMAT_B8G8R8A8_SRGB,
        }
    }

    /// The raw Vulkan format of images of this kind: 32-bit float RGBA for
    /// HDR targets, 8-bit sRGB RGBA for textures, 16-bit depth, 8-bit sRGB
    /// BGRA for the swapchain.
    pub fn vk_format(self) -> (r: i32)
        ensures
            r == self.spec_vk_format(),
    {
        match self {
            Format::Hdr => VK_FORMAT_R32G32B32A32_SFLOAT,
            Format::Color => VK_FORMAT_R8G8B8A8_SRGB,
            Format::Depth => VK_FORMAT_D16_UNORM,
            Format::Swapchain => VK_FORMAT_B8G8R8A8_SRGB,
        }
    }

    /// The usage every image of this kind gets: depth images are depth
    /// attachments, all others are sampled.
    pub fn usage_flags(self) -> (r: u32)
        ensures
            r == (if self is Depth {
                IMAGE_USAGE_DEPTH_STENCIL_ATTACHMENT
            } else {
                IMAGE_USAGE_SAMPLED
            }),
    {
        match self {
            Format::Depth => IMAGE_USAGE_DEPTH_STENCIL_ATTACHMENT,
            _ => IMAGE_USAGE_SAMPLED,
        }
    }

    /// The aspect that views of this kind of image cover.
    pub fn aspect_flags(self) -> (r: u32)
        ensures
            r == (if self is Depth {
                IMAGE_ASPECT_DEPTH
            } else {
                IMAGE_ASPECT_COLOR
            }),
    {
        match self {
            Format::Depth => IMAGE_ASPECT_DEPTH,
            _ => IMAGE_ASPECT_COLOR,
        }
    }
}

/// Different kinds of image get different formats.
pub proof fn lemma_formats_distinct(a: Format, b: Format)
    ensures
        a.spec_vk_format() == b.spec_vk_format() <==> a == b,
{
}

/// Swapchain images have the surface format the swapchain configuration
/// prefers, and only depth images are depth attachments with a depth aspect.
pub proof fn lemma_swapchain_format_is_preferred(f: Format)
    ensures
        Format::Swapchain.spec_vk_format() == crate::surface::preferred_surface_format().format,
        f.spec_vk_format() == VK_FORMAT_D16_UNORM <==> f is Depth,
{
}

} // verus!
