//! Choice of the swapchain configuration from what the surface supports.

use vstd::prelude::*;

verus! {

/// Raw value of the 8-bit BGRA sRGB colour format.
pub const FORMAT_B8G8R8A8_SRGB: i32 = 50i32;
/// Raw value of the non-linear sRGB colour space.
pub const COLOR_SPACE_SRGB_NONLINEAR: i32 = 0i32;
/// Raw value of the first-in first-out present mode, which every surface supports.
pub const PRESENT_MODE_FIFO: i32 = 2i32;
/// Raw value of the relaxed first-in first-out present mode.
pub const PRESENT_MODE_FIFO_RELAXED: i32 = 3i32;

/// A colour format together with its colour space.
#[derive(PartialEq, Eq, Structural, Clone, Copy, Debug)]
pub struct SurfaceFormat {
    pub format: i32,
    pub color_space: i32,
}

/// A width and a height in pixels.
#[derive(PartialEq, Eq, Structural, Clone, Copy, Debug)]
pub struct Extent2D {
    pub width: u32,
    pub height: u32,
}

/// What the configuration reads of the surface's capabilities.
#[derive(PartialEq, Eq, Structural, Clone, Copy, Debug)]
pub struct SurfaceCapabilities {
    pub min_image_count: u32,
    pub max_image_count: u32,
    pub current_extent: Extent2D,
    pub min_image_extent: Extent2D,
    pub max_image_extent: Extent2D,
}

/// The swapchain configuration in use.
#[derive(PartialEq, Eq, Structural, Clone, Copy, Debug)]
pub struct Config {
    pub surface_format: SurfaceFormat,
    pub present_mode: i32,
    pub extent: Extent2D,
    pub image_count: u32,
}

/// Everything a surface offers on a physical device.
pub struct ConfigurationOptions {
    pub capabilities: SurfaceCapabilities,
    pub surface_formats: Vec<SurfaceFormat>,
    pub present_modes: Vec<i32>,
}

/// The surface format the renderer prefers.
pub open spec fn preferred_surface_format() -> SurfaceFormat {
    SurfaceFormat { format: FORMAT_B8G8R8A8_SRGB, color_space: COLOR_SPACE_SRGB_NONLINEAR }
}

/// `x` limited to `min ..= max`.
pub open spec fn clamp(x: u32, min: u32, max: u32) -> u32 {
    if x < min {
        min
    } else if x > max {
        max
    } else {
        x
    }
}

/// The extent of the swapchain images: the surface's current extent, or,
/// where the surface leaves it to the swapchain (width `u32::MAX`), the
/// current extent limited to the allowed range.
pub open spec fn spec_choose_extent(c: SurfaceCapabilities) -> Extent2D {
    if c.current_extent.width != u32::MAX {
        c.current_extent
    } else {
        Extent2D {
            width: clamp(c.current_extent.width, c.min_image_extent.width, c.max_image_extent.width),
            height: clamp(
                c.current_extent.height,
                c.min_image_extent.height,
                c.max_image_extent.height,
            ),
        }
    }
}

/// One image more than the minimum, but no more than the maximum when the
/// surface sets one (a maximum of 0 means no limit).
pub open spec fn spec_choose_image_count(c: SurfaceCapabilities) -> u32 {
    let count = (c.min_image_count + 1) as u32;
    if c.max_image_count > 0 && c.max_image_count < count {
        c.max_image_count
    } else {
        count
    }
}

/// The inputs on which choosing an extent succeeds: where the surface leaves
/// the extent to the swapchain, the allowed extent range is not empty.
pub open spec fn extent_range_usable(c: SurfaceCapabilities) -> bool {
    c.current_extent.width == u32::MAX ==> c.min_image_extent.width <= c.max_image_extent.width
        && c.min_image_extent.height <= c.max_image_extent.height
}

/// The inputs on which choosing an extent and an image count succeeds: the
/// extent can be chosen and the image count can grow by one.
pub open spec fn capabilities_usable(c: SurfaceCapabilities) -> bool {
    &&& extent_range_usable(c)
    &&& c.min_image_count < u32::MAX
}

/// The preferred format where the surface offers it, else the first format
/// offered.
pub open spec fn spec_choose_surface_format(formats: Seq<SurfaceFormat>) -> SurfaceFormat {
    if formats.contains(preferred_surface_format()) {
        preferred_surface_format()
    } else {
        formats[0]
    }
}

/// The relaxed FIFO mode where the surface offers it, else plain FIFO.
pub open spec fn spec_choose_present_mode(modes: Seq<i32>) -> i32 {
    if modes.contains(PRESENT_MODE_FIFO_RELAXED) {
        PRESENT_MODE_FIFO_RELAXED
    } else {
        PRESENT_MODE_FIFO
    }
}

fn clamp_u32(x: u32, min: u32, max: u32) -> (r: u32)
    requires
        min <= max,
    ensures
        r == clamp(x, min, max),
{
    if x < min {
        min
    } else if x > max {
        max
    } else {
        x
    }
}

impl SurfaceCapabilities {
    /// The capabilities allow choosing an extent and an image count.
    pub fn is_usable(&self) -> (r: bool)
        ensures
            r == capabilities_usable(*self),
    {
        self.extent_range_is_usable() && self.min_image_count < u32::MAX
    }

    /// An extent can be chosen from these capabilities.
    pub fn extent_range_is_usable(&self) -> (r: bool)
        ensures
            r == extent_range_usable(*self),
    {
        self.current_extent.width != u32::MAX || (self.min_image_extent.width
            <= self.max_image_extent.width && self.min_image_extent.height
            <= self.max_image_extent.height)
    }
}

impl ConfigurationOptions {
    pub fn new(
        capabilities: SurfaceCapabilities,
        surface_formats: Vec<SurfaceFormat>,
        present_modes: Vec<i32>,
    ) -> (r: Self)
        ensures
            r.capabilities == capabilities,
            r.surface_formats@ == surface_formats@,
            r.present_modes@ == present_modes@,
    {
        ConfigurationOptions { capabilities, surface_formats, present_modes }
    }

    /// The surface offers at least one format and one present mode.
    pub fn has_some(&self) -> (r: bool)
        ensures
            r == (self.surface_formats@.len() > 0 && self.present_modes@.len() > 0),
    {
        self.surface_formats.len() != 0 && self.present_modes.len() != 0
    }

    /// The best configuration the surface offers.
    pub fn get_optimal(&self) -> (config: Config)
        requires
            self.surface_formats@.len() > 0,
            capabilities_usable(self.capabilities),
        ensures
            config.surface_format == spec_choose_surface_format(self.surface_formats@),
            config.present_mode == spec_choose_present_mode(self.present_modes@),
            config.extent == spec_choose_extent(self.capabilities),
            config.image_count == spec_choose_image_count(self.capabilities),
    {
        let surface_format = Self::choose_best_surface_format(&self.surface_formats);
        let extent = Self::choose_extent(&self.capabilities);
        let image_count = Self::choose_image_count(&self.capabilities);
        let present_mode = Self::choose_best_present_mode(&self.present_modes);
        Config { surface_format, present_mode, extent, image_count }
    }

    pub fn choose_best_surface_format(formats: &Vec<SurfaceFormat>) -> (r: SurfaceFormat)
        requires
            formats@.len() > 0,
        ensures
            r == spec_choose_surface_format(formats@),
    {
        let preferred = SurfaceFormat {
            format: FORMAT_B8G8R8A8_SRGB,
            color_space: COLOR_SPACE_SRGB_NONLINEAR,
        };
        let n = formats.len();
        for i in 0..n
            invariant
                n == formats@.len(),
                preferred == preferred_surface_format(),
                forall|k: int| 0 <= k < i ==> formats@[k] != preferred,
        {
            if formats[i] == preferred {
                proof {
                    assert(formats@.contains(preferred));
                }
                return preferred;
            }
        }
        formats[0]
    }

    pub fn choose_best_present_mode(present_modes: &Vec<i32>) -> (r: i32)
        ensures
            r == spec_choose_present_mode(present_modes@),
    {
        let n = present_modes.len();
        for i in 0..n
            invariant
                n == present_modes@.len(),
                forall|k: int| 0 <= k < i ==> present_modes@[k] != PRESENT_MODE_FIFO_RELAXED,
        {
            if present_modes[i] == PRESENT_MODE_FIFO_RELAXED {
                proof {
                    assert(present_modes@.contains(PRESENT_MODE_FIFO_RELAXED));
                }
                return PRESENT_MODE_FIFO_RELAXED;
            }
        }
        PRESENT_MODE_FIFO
    }

    pub fn choose_extent(capabilities: &SurfaceCapabilities) -> (r: Extent2D)
        requires
            extent_range_usable(*capabilities),
        ensures
            r == spec_choose_extent(*capabilities),
    {
        if capabilities.current_extent.width != u32::MAX {
            return capabilities.current_extent;
        }
        Extent2D {
            width: clamp_u32(
                capabilities.current_extent.width,
                capabilities.min_image_extent.width,
                capabilities.max_image_extent.width,
            ),
            height: clamp_u32(
                capabilities.current_extent.height,
                capabilities.min_image_extent.height,
                capabilities.max_image_extent.height,
            ),
        }
    }

    pub fn choose_image_count(capabilities: &SurfaceCapabilities) -> (r: u32)
        requires
            capabilities.min_image_count < u32::MAX,
        ensures
            r == spec_choose_image_count(*capabilities),
    {
        let image_count = capabilities.min_image_count + 1;
        if capabilities.max_image_count > 0 {
            if capabilities.max_image_count < image_count {
                capabilities.max_image_count
            } else {
                image_count
            }
        } else {
            image_count
        }
    }
}

impl Config {
    /// Takes the new extent from refreshed surface capabilities.
    pub fn update_with(&mut self, surface_capabilities: &SurfaceCapabilities)
        requires
            extent_range_usable(*surface_capabilities),
        ensures
            final(self).extent == spec_choose_extent(*surface_capabilities),
            final(self).surface_format == old(self).surface_format,
            final(self).present_mode == old(self).present_mode,
            final(self).image_count == old(self).image_count,
    {
        self.extent = ConfigurationOptions::choose_extent(surface_capabilities);
    }

    /// The extent has a non-zero width and height, so that a swapchain can be
    /// built for it.
    pub fn valid_extent(&self) -> (r: bool)
        ensures
            r == (self.extent.width != 0 && self.extent.height != 0),
    {
        self.extent.width != 0 && self.extent.height != 0
    }

    /// Takes the new extent from refreshed surface capabilities and tells
    /// whether a swapchain can be built for it.
    pub fn refresh_capabilities(&mut self, surface_capabilities: &SurfaceCapabilities) -> (r: bool)
        requires
            extent_range_usable(*surface_capabilities),
        ensures
            final(self).extent == spec_choose_extent(*surface_capabilities),
            final(self).surface_format == old(self).surface_format,
            final(self).present_mode == old(self).present_mode,
            final(self).image_count == old(self).image_count,
            r == (final(self).extent.width != 0 && final(self).extent.height != 0),
    {
        self.update_with(surface_capabilities);
        self.valid_extent()
    }
}

/// The chosen extent lies in the surface's allowed range whenever the surface
/// leaves the extent to the swapchain, and the chosen image count respects
/// the surface's maximum.
pub proof fn lemma_choices_within_limits(c: SurfaceCapabilities)
    requires
        capabilities_usable(c),
    ensures
        c.current_extent.width == u32::MAX ==> {
            let e = spec_choose_extent(c);
            &&& c.min_image_extent.width <= e.width <= c.max_image_extent.width
            &&& c.min_image_extent.height <= e.height <= c.max_image_extent.height
        },
        c.max_image_count > 0 ==> spec_choose_image_count(c) <= c.max_image_count,
        spec_choose_image_count(c) <= c.min_image_count + 1,
{
}

/// The chosen format is one the surface offers, and the chosen present mode
/// is either offered or the always-available FIFO mode.
pub proof fn lemma_choices_offered(formats: Seq<SurfaceFormat>, modes: Seq<i32>)
    requires
        formats.len() > 0,
    ensures
        formats.contains(spec_choose_surface_format(formats)),
        modes.contains(spec_choose_present_mode(modes)) || spec_choose_present_mode(modes)
            == PRESENT_MODE_FIFO,
{
    assert(formats[0] == formats[0]);
}

/// The preferred format (8-bit BGRA, sRGB, non-linear sRGB colour space) is
/// chosen wherever the surface offers it, at whatever position; a surface
/// that does not offer it gets its first format.
pub proof fn lemma_preferred_format_wins(formats: Seq<SurfaceFormat>)
    requires
        formats.len() > 0,
    ensures
        (exists|i: int|
            0 <= i < formats.len() && #[trigger] formats[i] == (SurfaceFormat {
                format: FORMAT_B8G8R8A8_SRGB,
                color_space: COLOR_SPACE_SRGB_NONLINEAR,
            })) ==> spec_choose_surface_format(formats) == (SurfaceFormat {
            format: FORMAT_B8G8R8A8_SRGB,
            color_space: COLOR_SPACE_SRGB_NONLINEAR,
        }),
        (forall|i: int|
            0 <= i < formats.len() ==> #[trigger] formats[i] != (SurfaceFormat {
                format: FORMAT_B8G8R8A8_SRGB,
                color_space: COLOR_SPACE_SRGB_NONLINEAR,
            })) ==> spec_choose_surface_format(formats) == formats[0],
{
}

/// Relaxed FIFO is chosen wherever the surface offers it, at whatever
/// position; otherwise plain FIFO, which every surface supports.
pub proof fn lemma_relaxed_fifo_wins(modes: Seq<i32>)
    ensures
        (exists|i: int| 0 <= i < modes.len() && #[trigger] modes[i] == PRESENT_MODE_FIFO_RELAXED)
            ==> spec_choose_present_mode(modes) == PRESENT_MODE_FIFO_RELAXED,
        (forall|i: int| 0 <= i < modes.len() ==> #[trigger] modes[i] != PRESENT_MODE_FIFO_RELAXED)
            ==> spec_choose_present_mode(modes) == PRESENT_MODE_FIFO,
        spec_choose_present_mode(modes) == PRESENT_MODE_FIFO_RELAXED || spec_choose_present_mode(
            modes,
        ) == PRESENT_MODE_FIFO,
{
}

/// A surface that fixes its extent gets exactly that extent; one that leaves
/// it to the swapchain gets, on each axis, the requested size where it is in
/// the allowed range and the nearest bound otherwise. The image count is one
/// more than the minimum unless the surface's maximum (when it has one) is
/// lower, in which case it is that maximum.
pub proof fn lemma_choices_exact(c: SurfaceCapabilities)
    requires
        capabilities_usable(c),
    ensures
        c.current_extent.width != u32::MAX ==> spec_choose_extent(c) == c.current_extent,
        c.current_extent.width == u32::MAX ==> {
            let e = spec_choose_extent(c);
            let (w, h) = (c.current_extent.width, c.current_extent.height);
            &&& c.min_image_extent.width <= w <= c.max_image_extent.width ==> e.width == w
            &&& w < c.min_image_extent.width ==> e.width == c.min_image_extent.width
            &&& w > c.max_image_extent.width ==> e.width == c.max_image_extent.width
            &&& c.min_image_extent.height <= h <= c.max_image_extent.height ==> e.height == h
            &&& h < c.min_image_extent.height ==> e.height == c.min_image_extent.height
            &&& h > c.max_image_extent.height ==> e.height == c.max_image_extent.height
        },
        (c.max_image_count == 0 || c.max_image_count > c.min_image_count)
            ==> spec_choose_image_count(c) == c.min_image_count + 1,
        (c.max_image_count > 0 && c.max_image_count <= c.min_image_count)
            ==> spec_choose_image_count(c) == c.max_image_count,
{
}

} // verus!
