//! What a surface reports about itself, as plain values.

use vstd::prelude::*;
use crate::constants::{COLOR_SPACE_SRGB_NONLINEAR, FORMAT_B8G8R8A8_SRGB, UNDEFINED_EXTENT};

verus! {

/// A width and a height in pixels.
#[derive(Clone, Copy, Debug, PartialEq, Eq, Structural)]
pub struct Extent2D {
    pub width: u32,
    pub height: u32,
}

impl Extent2D {
    /// `self` lies between `min` and `max` in both components.
    pub open spec fn within(self, min: Extent2D, max: Extent2D) -> bool {
        &&& min.width <= self.width <= max.width
        &&& min.height <= self.height <= max.height
    }
}

/// A pixel format together with the colour space it is presented in.
#[derive(Clone, Copy, Debug, PartialEq, Eq, Structural)]
pub struct SurfaceFormat {
    pub format: i32,
    pub color_space: i32,
}

impl SurfaceFormat {
    /// The pair the swapchain prefers: 8-bit BGRA, sRGB non-linear.
    pub open spec fn preferred() -> SurfaceFormat {
        SurfaceFormat { format: FORMAT_B8G8R8A8_SRGB, color_space: COLOR_SPACE_SRGB_NONLINEAR }
    }
}

/// The limits a surface places on a swapchain.
#[derive(Clone, Copy, Debug, PartialEq, Eq, Structural)]
pub struct SurfaceCapabilities {
    pub min_image_count: u32,
    /// Zero when the surface sets no upper limit.
    pub max_image_count: u32,
    /// Width `UNDEFINED_EXTENT` when the swapchain decides the extent.
    pub current_extent: Extent2D,
    pub min_image_extent: Extent2D,
    pub max_image_extent: Extent2D,
    pub current_transform: u32,
}

impl SurfaceCapabilities {
    /// The surface leaves the extent to the swapchain.
    pub open spec fn extent_is_undefined(self) -> bool {
        self.current_extent.width == UNDEFINED_EXTENT
    }

    /// The extent limits are ordered in both components.
    pub open spec fn limits_ordered(self) -> bool {
        &&& self.min_image_extent.width <= self.max_image_extent.width
        &&& self.min_image_extent.height <= self.max_image_extent.height
    }

    /// A report as the API promises it: ordered limits, and a current
    /// extent that is either undefined or inside them.
    pub open spec fn is_supported(self) -> bool {
        &&& self.limits_ordered()
        &&& (self.extent_is_undefined() || self.current_extent.within(
            self.min_image_extent,
            self.max_image_extent,
        ))
    }
}

/// Everything queried from a surface before a swapchain is built.
#[derive(Clone, Debug, PartialEq, Eq)]
pub struct SwapChainSupportDetail {
    pub capabilities: SurfaceCapabilities,
    pub formats: Vec<SurfaceFormat>,
    pub present_modes: Vec<i32>,
}

/// The queue families chosen for drawing and for presenting.
#[derive(Clone, Copy, Debug, PartialEq, Eq, Structural)]
pub struct QueueFamilyIndices {
    pub graphics_family: Option<u32>,
    pub present_family: Option<u32>,
}

impl QueueFamilyIndices {
    pub fn new() -> (r: QueueFamilyIndices)
        ensures
            r.graphics_family is None,
            r.present_family is None,
    {
        QueueFamilyIndices { graphics_family: None, present_family: None }
    }

    pub open spec fn complete(self) -> bool {
        self.graphics_family is Some && self.present_family is Some
    }

    /// Both families have been found.
    pub fn is_complete(&self) -> (r: bool)
        ensures
            r == self.complete(),
    {
        self.graphics_family.is_some() && self.present_family.is_some()
    }
}

} // verus!
