//! Choosing how a swapchain is configured, and describing the image views
//! that go with it.

use vstd::prelude::*;
use crate::constants::{
    COLOR_SPACE_SRGB_NONLINEAR, COMPONENT_SWIZZLE_IDENTITY, COMPOSITE_ALPHA_OPAQUE, FORMAT_B8G8R8A8_SRGB,
    IMAGE_ASPECT_COLOR, IMAGE_USAGE_COLOR_ATTACHMENT, IMAGE_VIEW_TYPE_2D, NULL_HANDLE, PRESENT_MODE_FIFO,
    PRESENT_MODE_MAILBOX, SHARING_MODE_EXCLUSIVE, UNDEFINED_EXTENT,
};
use crate::lifecycle::{destroy_each, presentation_commands, DestroyCommand, ResourceKind};
use crate::native::clamp_u32;
use crate::surface::{Extent2D, QueueFamilyIndices, SurfaceCapabilities, SurfaceFormat, SwapChainSupportDetail};

verus! {

/// The arguments of one swapchain creation.
#[derive(Clone, Debug, PartialEq, Eq)]
pub struct SwapchainCreateInfo {
    pub surface: u64,
    pub min_image_count: u32,
    pub image_format: i32,
    pub image_color_space: i32,
    pub image_extent: Extent2D,
    pub image_array_layers: u32,
    pub image_usage: u32,
    pub image_sharing_mode: i32,
    /// Announced to the driver as the queue family index count.
    pub queue_family_index_count: u32,
    pub queue_family_indices: Vec<u32>,
    pub pre_transform: u32,
    pub composite_alpha: u32,
    pub present_mode: i32,
    pub clipped: bool,
    pub old_swapchain: u64,
}

/// The arguments of one image view creation.
#[derive(Clone, Copy, Debug, PartialEq, Eq, Structural)]
pub struct ImageViewCreateInfo {
    pub image: u64,
    pub view_type: i32,
    pub format: i32,
    pub swizzle_r: i32,
    pub swizzle_g: i32,
    pub swizzle_b: i32,
    pub swizzle_a: i32,
    pub aspect_mask: u32,
    pub base_mip_level: u32,
    pub level_count: u32,
    pub base_array_layer: u32,
    pub layer_count: u32,
}

/// A swapchain with its images and one view per image.
#[derive(Clone, Debug, PartialEq, Eq)]
pub struct Presentation {
    pub swapchain: u64,
    pub swapchain_images: Vec<u64>,
    pub swapchain_format: i32,
    pub swapchain_extent: Extent2D,
    pub swapchain_imageviews: Vec<u64>,
}

/// The format a swapchain takes from `available`: the preferred pair when
/// it is offered, the first entry otherwise.
pub open spec fn chosen_format(available: Seq<SurfaceFormat>) -> SurfaceFormat {
    if available.contains(SurfaceFormat::preferred()) {
        SurfaceFormat::preferred()
    } else {
        available[0]
    }
}

/// The present mode a swapchain takes from `available`: mailbox when it is
/// offered, FIFO otherwise.
pub open spec fn chosen_present_mode(available: Seq<i32>) -> i32 {
    if available.contains(PRESENT_MODE_MAILBOX) {
        PRESENT_MODE_MAILBOX
    } else {
        PRESENT_MODE_FIFO
    }
}

/// `value` brought into `min ..= max`.
pub open spec fn clamped(value: u32, min: u32, max: u32) -> u32 {
    if value < min {
        min
    } else if value > max {
        max
    } else {
        value
    }
}

/// The extent of a swapchain on a surface with `capabilities` in a window
/// of `window_size`.
pub open spec fn chosen_extent(capabilities: SurfaceCapabilities, window_size: Extent2D) -> Extent2D {
    if !capabilities.extent_is_undefined() {
        capabilities.current_extent
    } else {
        Extent2D {
            width: clamped(
                window_size.width,
                capabilities.min_image_extent.width,
                capabilities.max_image_extent.width,
            ),
            height: clamped(
                window_size.height,
                capabilities.min_image_extent.height,
                capabilities.max_image_extent.height,
            ),
        }
    }
}

/// One image more than the surface's minimum, but no more than its maximum
/// where it has one.
pub open spec fn chosen_image_count(min_image_count: u32, max_image_count: u32) -> int {
    if max_image_count > 0 && min_image_count + 1 > max_image_count {
        max_image_count as int
    } else {
        min_image_count + 1
    }
}

/// The queue families a swapchain is told about: both when drawing and
/// presenting use different families, none when they share one.
pub open spec fn shared_queue_families(queue_family: QueueFamilyIndices) -> Seq<u32> {
    if queue_family.graphics_family != queue_family.present_family {
        seq![queue_family.graphics_family->0, queue_family.present_family->0]
    } else {
        Seq::empty()
    }
}

/// What `Presentation::create_swapchain` asks of its arguments.
pub open spec fn swapchain_inputs_ok(
    support: SwapChainSupportDetail,
    queue_family: QueueFamilyIndices,
) -> bool {
    &&& support.formats@.len() > 0
    &&& support.capabilities.min_image_count < u32::MAX
    &&& support.capabilities.extent_is_undefined() ==> support.capabilities.limits_ordered()
    &&& queue_family.graphics_family != queue_family.present_family ==> queue_family.complete()
}

/// The view onto `image` that a swapchain of `format` uses: two-dimensional,
/// colour aspect, no swizzling, one mip level and one layer.
pub open spec fn image_view_info(format: i32, image: u64) -> ImageViewCreateInfo {
    ImageViewCreateInfo {
        image,
        view_type: IMAGE_VIEW_TYPE_2D,
        format,
        swizzle_r: COMPONENT_SWIZZLE_IDENTITY,
        swizzle_g: COMPONENT_SWIZZLE_IDENTITY,
        swizzle_b: COMPONENT_SWIZZLE_IDENTITY,
        swizzle_a: COMPONENT_SWIZZLE_IDENTITY,
        aspect_mask: IMAGE_ASPECT_COLOR,
        base_mip_level: 0,
        level_count: 1,
        base_array_layer: 0,
        layer_count: 1,
    }
}

/// The number of images asked for exceeds the surface's minimum by one at
/// most and, on a surface whose minimum does not exceed its maximum, stays
/// within both limits.
pub proof fn lemma_image_count_within_limits(min_image_count: u32, max_image_count: u32)
    requires
        max_image_count == 0 || min_image_count <= max_image_count,
    ensures
        min_image_count <= chosen_image_count(min_image_count, max_image_count) <= min_image_count + 1,
        max_image_count > 0 ==> chosen_image_count(min_image_count, max_image_count) <= max_image_count,
{
}

/// Whatever the window's size, the extent chosen on a supported surface
/// lies within the surface's limits.
pub proof fn lemma_chosen_extent_within_limits(capabilities: SurfaceCapabilities, window_size: Extent2D)
    requires
        capabilities.is_supported(),
    ensures
        chosen_extent(capabilities, window_size).within(
            capabilities.min_image_extent,
            capabilities.max_image_extent,
        ),
{
}

/// The preferred format is chosen wherever it is offered, and the first
/// format offered where it is not.
pub proof fn lemma_chosen_format(available: Seq<SurfaceFormat>)
    requires
        available.len() > 0,
    ensures
        available.contains(chosen_format(available)),
        available.contains(SurfaceFormat::preferred()) ==> chosen_format(available)
            == SurfaceFormat::preferred(),
        !available.contains(SurfaceFormat::preferred()) ==> chosen_format(available) == available[0],
{
}

/// The image views of a swapchain of `format`: one per image, in the order
/// of the images.
pub open spec fn image_view_infos(format: i32, images: Seq<u64>) -> Seq<ImageViewCreateInfo> {
    Seq::new(images.len(), |i: int| image_view_info(format, images[i]))
}

impl Presentation {
    /// Every image has its view.
    pub open spec fn well_formed(self) -> bool {
        self.swapchain_images@.len() == self.swapchain_imageviews@.len()
    }

    /// Puts a created swapchain and its views together. Returns `None`
    /// exactly when the number of views differs from the number of images.
    pub fn new(
        swapchain: u64,
        swapchain_images: Vec<u64>,
        swapchain_format: i32,
        swapchain_extent: Extent2D,
        swapchain_imageviews: Vec<u64>,
    ) -> (r: Option<Presentation>)
        ensures
            r is Some <==> swapchain_images@.len() == swapchain_imageviews@.len(),
            r matches Some(p) ==> {
                &&& p.well_formed()
                &&& p.swapchain == swapchain
                &&& p.swapchain_images@ == swapchain_images@
                &&& p.swapchain_format == swapchain_format
                &&& p.swapchain_extent == swapchain_extent
                &&& p.swapchain_imageviews@ == swapchain_imageviews@
            },
    {
        if swapchain_images.len() != swapchain_imageviews.len() {
            return None;
        }
        Some(
            Presentation {
                swapchain,
                swapchain_images,
                swapchain_format,
                swapchain_extent,
                swapchain_imageviews,
            },
        )
    }

    /// The native release calls that take the swapchain down: its image
    /// views in order, then the swapchain itself.
    pub fn destroy(&self) -> (r: Vec<DestroyCommand>)
        ensures
            r@ == presentation_commands(*self),
    {
        let mut commands: Vec<DestroyCommand> = Vec::new();
        destroy_each(&mut commands, ResourceKind::ImageView, &self.swapchain_imageviews);
        commands.push(DestroyCommand { kind: ResourceKind::Swapchain, handle: self.swapchain });
        commands
    }

    /// Picks the surface format.
    pub fn choose_swapchain_format(available_formats: &Vec<SurfaceFormat>) -> (r: SurfaceFormat)
        requires
            available_formats@.len() > 0,
        ensures
            r == chosen_format(available_formats@),
    {
        let mut i: usize = 0;
        while i < available_formats.len()
            invariant
                i <= available_formats@.len(),
                forall|j: int| 0 <= j < i ==> available_formats@[j] != SurfaceFormat::preferred(),
            decreases available_formats@.len() - i,
        {
            let candidate = available_formats[i];
            if candidate.format == FORMAT_B8G8R8A8_SRGB && candidate.color_space
                == COLOR_SPACE_SRGB_NONLINEAR {
                assert(available_formats@[i as int] == SurfaceFormat::preferred());
                return candidate;
            }
            i = i + 1;
        }
        available_formats[0]
    }

    /// Picks the present mode.
    pub fn choose_swapchain_present_mode(available_present_modes: &Vec<i32>) -> (r: i32)
        ensures
            r == chosen_present_mode(available_present_modes@),
    {
        let mut i: usize = 0;
        while i < available_present_modes.len()
            invariant
                i <= available_present_modes@.len(),
                forall|j: int| 0 <= j < i ==> available_present_modes@[j] != PRESENT_MODE_MAILBOX,
            decreases available_present_modes@.len() - i,
        {
            if available_present_modes[i] == PRESENT_MODE_MAILBOX {
                assert(available_present_modes@[i as int] == PRESENT_MODE_MAILBOX);
                return PRESENT_MODE_MAILBOX;
            }
            i = i + 1;
        }
        PRESENT_MODE_FIFO
    }

    /// Picks the extent: the surface's own where it has one, the window's
    /// size brought inside the surface's limits otherwise.
    pub fn choose_swapchain_extent(capabilities: &SurfaceCapabilities, window_size: Extent2D) -> (r:
        Extent2D)
        requires
            capabilities.extent_is_undefined() ==> capabilities.limits_ordered(),
        ensures
            r == chosen_extent(*capabilities, window_size),
            capabilities.is_supported() ==> r.within(
                capabilities.min_image_extent,
                capabilities.max_image_extent,
            ),
    {
        if capabilities.current_extent.width != UNDEFINED_EXTENT {
            capabilities.current_extent
        } else {
            Extent2D {
                width: clamp_u32(
                    window_size.width,
                    capabilities.min_image_extent.width,
                    capabilities.max_image_extent.width,
                ),
                height: clamp_u32(
                    window_size.height,
                    capabilities.min_image_extent.height,
                    capabilities.max_image_extent.height,
                ),
            }
        }
    }

    /// Picks the number of images to ask for.
    pub fn choose_image_count(capabilities: &SurfaceCapabilities) -> (r: u32)
        requires
            capabilities.min_image_count < u32::MAX,
        ensures
            r == chosen_image_count(capabilities.min_image_count, capabilities.max_image_count),
    {
        let image_count: u32 = capabilities.min_image_count + 1;
        if capabilities.max_image_count > 0 && image_count > capabilities.max_image_count {
            capabilities.max_image_count
        } else {
            image_count
        }
    }

    /// Describes the swapchain to create on `surface`, given what the
    /// surface supports, the window's size and the queue families in use.
    pub fn create_swapchain(
        support: &SwapChainSupportDetail,
        window_size: Extent2D,
        surface: u64,
        queue_family: &QueueFamilyIndices,
    ) -> (r: SwapchainCreateInfo)
        requires
            swapchain_inputs_ok(*support, *queue_family),
        ensures
            r.surface == surface,
            r.min_image_count == chosen_image_count(
                support.capabilities.min_image_count,
                support.capabilities.max_image_count,
            ),
            (SurfaceFormat { format: r.image_format, color_space: r.image_color_space })
                == chosen_format(support.formats@),
            r.image_extent == chosen_extent(support.capabilities, window_size),
            support.capabilities.is_supported() ==> r.image_extent.within(
                support.capabilities.min_image_extent,
                support.capabilities.max_image_extent,
            ),
            r.image_array_layers == 1,
            r.image_usage == IMAGE_USAGE_COLOR_ATTACHMENT,
            r.image_sharing_mode == SHARING_MODE_EXCLUSIVE,
            r.queue_family_indices@ == shared_queue_families(*queue_family),
            r.queue_family_index_count == r.queue_family_indices@.len(),
            r.pre_transform == support.capabilities.current_transform,
            r.composite_alpha == COMPOSITE_ALPHA_OPAQUE,
            r.present_mode == chosen_present_mode(support.present_modes@),
            r.clipped,
            r.old_swapchain == NULL_HANDLE,
    {
        let surface_format = Presentation::choose_swapchain_format(&support.formats);
        let present_mode = Presentation::choose_swapchain_present_mode(&support.present_modes);
        let extent = Presentation::choose_swapchain_extent(&support.capabilities, window_size);
        let image_count = Presentation::choose_image_count(&support.capabilities);

        let mut queue_family_indices: Vec<u32> = Vec::new();
        let mut queue_family_index_count: u32 = 0;
        match (queue_family.graphics_family, queue_family.present_family) {
            (Some(graphics), Some(present)) => {
                if graphics != present {
                    queue_family_indices.push(graphics);
                    queue_family_indices.push(present);
                    queue_family_index_count = 2;
                }
            },
            _ => {},
        }
        assert(queue_family_indices@ =~= shared_queue_families(*queue_family));

        SwapchainCreateInfo {
            surface,
            min_image_count: image_count,
            image_format: surface_format.format,
            image_color_space: surface_format.color_space,
            image_extent: extent,
            image_array_layers: 1,
            image_usage: IMAGE_USAGE_COLOR_ATTACHMENT,
            image_sharing_mode: SHARING_MODE_EXCLUSIVE,
            queue_family_index_count,
            queue_family_indices,
            pre_transform: support.capabilities.current_transform,
            composite_alpha: COMPOSITE_ALPHA_OPAQUE,
            present_mode,
            clipped: true,
            old_swapchain: NULL_HANDLE,
        }
    }

    /// Describes the image views of a swapchain: one per image, in the
    /// order of the images.
    pub fn create_image_views(surface_format: i32, images: &Vec<u64>) -> (r: Vec<ImageViewCreateInfo>)
        ensures
            r@ == image_view_infos(surface_format, images@),
            r@.len() == images@.len(),
    {
        let mut infos: Vec<ImageViewCreateInfo> = Vec::new();
        let mut i: usize = 0;
        while i < images.len()
            invariant
                i <= images@.len(),
                infos@.len() == i,
                forall|j: int| 0 <= j < i ==> infos@[j] == image_view_info(surface_format, images@[j]),
            decreases images@.len() - i,
        {
            infos.push(
                ImageViewCreateInfo {
                    image: images[i],
                    view_type: IMAGE_VIEW_TYPE_2D,
                    format: surface_format,
                    swizzle_r: COMPONENT_SWIZZLE_IDENTITY,
                    swizzle_g: COMPONENT_SWIZZLE_IDENTITY,
                    swizzle_b: COMPONENT_SWIZZLE_IDENTITY,
                    swizzle_a: COMPONENT_SWIZZLE_IDENTITY,
                    aspect_mask: IMAGE_ASPECT_COLOR,
                    base_mip_level: 0,
                    level_count: 1,
                    base_array_layer: 0,
                    layer_count: 1,
                },
            );
            i = i + 1;
        }
        assert(infos@ =~= image_view_infos(surface_format, images@));
        infos
    }
}

} // verus!
