//! The resources an engine holds, as raw handles.

use vstd::prelude::*;
use crate::buffers::{allocation, framebuffer_infos, recordings, Buffers};
use crate::constants::MAX_FRAMES_IN_FLIGHT;
use crate::presentation::{image_view_infos, Presentation};

verus! {

/// The render pass and the pipeline built for one swapchain.
#[derive(Clone, Copy, Debug, PartialEq, Eq, Structural)]
pub struct GraphicsPipeline {
    pub render_pass: u64,
    pub pipeline_layout: u64,
    pub graphics_pipeline: u64,
}

/// The semaphores and the fence of each in-flight slot.
#[derive(Clone, Debug, PartialEq, Eq)]
pub struct SyncObjects {
    pub image_available_semaphores: Vec<u64>,
    pub render_finished_semaphores: Vec<u64>,
    pub inflight_fences: Vec<u64>,
}

impl SyncObjects {
    /// One semaphore pair and one fence per in-flight slot.
    pub open spec fn well_formed(self) -> bool {
        &&& self.image_available_semaphores@.len() == MAX_FRAMES_IN_FLIGHT
        &&& self.render_finished_semaphores@.len() == MAX_FRAMES_IN_FLIGHT
        &&& self.inflight_fences@.len() == MAX_FRAMES_IN_FLIGHT
    }
}

/// Everything that depends on the swapchain and is rebuilt with it.
#[derive(Clone, Debug, PartialEq, Eq)]
pub struct SwapchainResources {
    pub presentation: Presentation,
    pub pipeline: GraphicsPipeline,
    pub buffers: Buffers,
}

impl SwapchainResources {
    /// One image view, one framebuffer and one command buffer per
    /// swapchain image.
    pub open spec fn well_formed(self) -> bool {
        &&& self.presentation.swapchain_imageviews@.len() == self.presentation.swapchain_images@.len()
        &&& self.buffers.framebuffers@.len() == self.presentation.swapchain_images@.len()
        &&& self.buffers.command_buffers@.len() == self.presentation.swapchain_images@.len()
    }
}

/// What a rebuild hands back: the new swapchain and what was built on it.
/// The command pool is not rebuilt.
#[derive(Clone, Debug, PartialEq, Eq)]
pub struct RebuiltSwapchain {
    pub presentation: Presentation,
    pub pipeline: GraphicsPipeline,
    pub framebuffers: Vec<u64>,
    pub command_buffers: Vec<u64>,
}

impl RebuiltSwapchain {
    /// The resources this rebuild gives an engine whose command pool is
    /// `command_pool`.
    pub open spec fn with_pool(self, command_pool: u64) -> SwapchainResources {
        SwapchainResources {
            presentation: self.presentation,
            pipeline: self.pipeline,
            buffers: Buffers {
                framebuffers: self.framebuffers,
                command_pool,
                command_buffers: self.command_buffers,
            },
        }
    }
}

/// Where the driver hands back one object for each one asked of it, what
/// is built on a swapchain matches the swapchain's images one for one: as
/// many image views, framebuffers and command buffers as images.
pub proof fn lemma_one_of_each_per_image(resources: SwapchainResources)
    requires
        resources.buffers.framebuffers@.len() <= u32::MAX,
        resources.presentation.swapchain_imageviews@.len() == image_view_infos(
            resources.presentation.swapchain_format,
            resources.presentation.swapchain_images@,
        ).len(),
        resources.buffers.framebuffers@.len() == framebuffer_infos(
            resources.pipeline.render_pass,
            resources.presentation.swapchain_imageviews@,
            resources.presentation.swapchain_extent,
        ).len(),
        resources.buffers.command_buffers@.len() == allocation(
            resources.buffers.command_pool,
            resources.buffers.framebuffers@,
        ).command_buffer_count,
    ensures
        resources.well_formed(),
        resources.presentation.well_formed(),
        resources.buffers.well_formed(),
        recordings(
            resources.pipeline.graphics_pipeline,
            resources.buffers.framebuffers@,
            resources.pipeline.render_pass,
            resources.presentation.swapchain_extent,
        ).len() == resources.presentation.swapchain_images@.len(),
{
}

} // verus!
