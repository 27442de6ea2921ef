//! Framebuffers and command buffers: one of each per swapchain image.

use vstd::prelude::*;
use crate::constants::{
    COMMAND_BUFFER_LEVEL_PRIMARY, COMMAND_BUFFER_USAGE_SIMULTANEOUS_USE, PIPELINE_BIND_POINT_GRAPHICS,
    SUBPASS_CONTENTS_INLINE,
};
use crate::surface::{Extent2D, QueueFamilyIndices};

verus! {

/// The arguments of one framebuffer creation. A framebuffer has a single
/// attachment, the image view it draws into.
#[derive(Clone, Copy, Debug, PartialEq, Eq, Structural)]
pub struct FramebufferCreateInfo {
    pub render_pass: u64,
    pub attachment: u64,
    pub width: u32,
    pub height: u32,
    pub layers: u32,
}

/// The arguments of the command pool creation.
#[derive(Clone, Copy, Debug, PartialEq, Eq, Structural)]
pub struct CommandPoolCreateInfo {
    pub flags: u32,
    pub queue_family_index: u32,
}

/// The arguments of one command buffer allocation.
#[derive(Clone, Copy, Debug, PartialEq, Eq, Structural)]
pub struct CommandBufferAllocateInfo {
    pub command_pool: u64,
    pub level: i32,
    pub command_buffer_count: u32,
}

/// A colour with eight bits per channel.
#[derive(Clone, Copy, Debug, PartialEq, Eq, Structural)]
pub struct ClearColor {
    pub red: u8,
    pub green: u8,
    pub blue: u8,
    pub alpha: u8,
}

/// One step of recording a command buffer.
#[derive(Clone, Copy, Debug, PartialEq, Eq, Structural)]
pub enum RecordCommand {
    Begin { flags: u32 },
    BeginRenderPass {
        render_pass: u64,
        framebuffer: u64,
        offset_x: i32,
        offset_y: i32,
        extent: Extent2D,
        clear_color: ClearColor,
        contents: i32,
    },
    BindPipeline { bind_point: i32, pipeline: u64 },
    Draw { vertex_count: u32, instance_count: u32, first_vertex: u32, first_instance: u32 },
    EndRenderPass,
    End,
}

/// What to allocate and what to record for the command buffers of a
/// swapchain.
#[derive(Clone, Debug, PartialEq, Eq)]
pub struct CommandBufferPlan {
    pub allocate: CommandBufferAllocateInfo,
    /// The recording of each command buffer, in allocation order.
    pub recordings: Vec<Vec<RecordCommand>>,
}

/// The framebuffers and command buffers of a swapchain, with the pool the
/// command buffers come from.
#[derive(Clone, Debug, PartialEq, Eq)]
pub struct Buffers {
    pub framebuffers: Vec<u64>,
    pub command_pool: u64,
    pub command_buffers: Vec<u64>,
}

/// The framebuffer that draws into `image_view`.
pub open spec fn framebuffer_info(render_pass: u64, image_view: u64, extent: Extent2D) -> FramebufferCreateInfo {
    FramebufferCreateInfo {
        render_pass,
        attachment: image_view,
        width: extent.width,
        height: extent.height,
        layers: 1,
    }
}

/// The framebuffers of a swapchain: one per image view, in the order of the
/// views.
pub open spec fn framebuffer_infos(render_pass: u64, image_views: Seq<u64>, extent: Extent2D) -> Seq<
    FramebufferCreateInfo,
> {
    Seq::new(image_views.len(), |i: int| framebuffer_info(render_pass, image_views[i], extent))
}

/// Opaque black.
pub open spec fn clear_color() -> ClearColor {
    ClearColor { red: 0, green: 0, blue: 0, alpha: 255 }
}

/// The commands recorded for `framebuffer`: clear the whole extent and draw
/// one triangle with `pipeline`.
pub open spec fn recording(pipeline: u64, framebuffer: u64, render_pass: u64, extent: Extent2D) -> Seq<
    RecordCommand,
> {
    seq![
        RecordCommand::Begin { flags: COMMAND_BUFFER_USAGE_SIMULTANEOUS_USE },
        RecordCommand::BeginRenderPass {
            render_pass,
            framebuffer,
            offset_x: 0,
            offset_y: 0,
            extent,
            clear_color: clear_color(),
            contents: SUBPASS_CONTENTS_INLINE,
        },
        RecordCommand::BindPipeline { bind_point: PIPELINE_BIND_POINT_GRAPHICS, pipeline },
        RecordCommand::Draw { vertex_count: 3, instance_count: 1, first_vertex: 0, first_instance: 0 },
        RecordCommand::EndRenderPass,
        RecordCommand::End,
    ]
}

/// The recordings of the command buffers of a swapchain: one per
/// framebuffer, in the order of the framebuffers.
pub open spec fn recordings(pipeline: u64, framebuffers: Seq<u64>, render_pass: u64, extent: Extent2D) -> Seq<
    Seq<RecordCommand>,
> {
    Seq::new(framebuffers.len(), |i: int| recording(pipeline, framebuffers[i], render_pass, extent))
}

/// The one allocation that gives a swapchain its command buffers: as many
/// primary buffers as there are framebuffers, from `command_pool`.
pub open spec fn allocation(command_pool: u64, framebuffers: Seq<u64>) -> CommandBufferAllocateInfo {
    CommandBufferAllocateInfo {
        command_pool,
        level: COMMAND_BUFFER_LEVEL_PRIMARY,
        command_buffer_count: framebuffers.len() as u32,
    }
}

impl Buffers {
    /// Every framebuffer has its command buffer.
    pub open spec fn well_formed(self) -> bool {
        self.framebuffers@.len() == self.command_buffers@.len()
    }

    /// Puts the framebuffers and command buffers created for `image_views`
    /// together. Returns `None` exactly when there is not one framebuffer
    /// per image view and one command buffer per framebuffer.
    pub fn new(
        image_views: &Vec<u64>,
        framebuffers: Vec<u64>,
        command_pool: u64,
        command_buffers: Vec<u64>,
    ) -> (r: Option<Buffers>)
        ensures
            r is Some <==> framebuffers@.len() == image_views@.len() && command_buffers@.len()
                == framebuffers@.len(),
            r matches Some(b) ==> {
                &&& b.well_formed()
                &&& b.framebuffers@ == framebuffers@
                &&& b.command_pool == command_pool
                &&& b.command_buffers@ == command_buffers@
            },
    {
        if framebuffers.len() != image_views.len() || command_buffers.len() != framebuffers.len() {
            return None;
        }
        Some(Buffers { framebuffers, command_pool, command_buffers })
    }

    /// Describes the framebuffers of a swapchain: one per image view, in
    /// the order of the views, each of the swapchain's extent.
    pub fn create_frame_buffers(
        render_pass: u64,
        image_views: &Vec<u64>,
        swapchain_extent: &Extent2D,
    ) -> (r: Vec<FramebufferCreateInfo>)
        ensures
            r@ == framebuffer_infos(render_pass, image_views@, *swapchain_extent),
            r@.len() == image_views@.len(),
    {
        let mut infos: Vec<FramebufferCreateInfo> = Vec::new();
        let mut i: usize = 0;
        while i < image_views.len()
            invariant
                i <= image_views@.len(),
                infos@.len() == i,
                forall|j: int|
                    0 <= j < i ==> infos@[j] == framebuffer_info(
                        render_pass,
                        image_views@[j],
                        *swapchain_extent,
                    ),
            decreases image_views@.len() - i,
        {
            infos.push(
                FramebufferCreateInfo {
                    render_pass,
                    attachment: image_views[i],
                    width: swapchain_extent.width,
                    height: swapchain_extent.height,
                    layers: 1,
                },
            );
            i = i + 1;
        }
        assert(infos@ =~= framebuffer_infos(render_pass, image_views@, *swapchain_extent));
        infos
    }

    /// Describes the pool the command buffers are allocated from: a pool
    /// for the graphics queue family, without flags.
    pub fn create_command_pool(queue_families: &QueueFamilyIndices) -> (r: CommandPoolCreateInfo)
        requires
            queue_families.graphics_family is Some,
        ensures
            r == (CommandPoolCreateInfo {
                flags: 0,
                queue_family_index: queue_families.graphics_family->0,
            }),
    {
        match queue_families.graphics_family {
            Some(index) => CommandPoolCreateInfo { flags: 0, queue_family_index: index },
            None => CommandPoolCreateInfo { flags: 0, queue_family_index: 0 },
        }
    }

    /// The commands recorded into the command buffer of one framebuffer.
    pub fn record_commands(
        graphics_pipeline: u64,
        framebuffer: u64,
        render_pass: u64,
        surface_extent: Extent2D,
    ) -> (r: Vec<RecordCommand>)
        ensures
            r@ == recording(graphics_pipeline, framebuffer, render_pass, surface_extent),
    {
        let mut commands: Vec<RecordCommand> = Vec::new();
        commands.push(RecordCommand::Begin { flags: COMMAND_BUFFER_USAGE_SIMULTANEOUS_USE });
        commands.push(
            RecordCommand::BeginRenderPass {
                render_pass,
                framebuffer,
                offset_x: 0,
                offset_y: 0,
                extent: surface_extent,
                clear_color: ClearColor { red: 0, green: 0, blue: 0, alpha: 255 },
                contents: SUBPASS_CONTENTS_INLINE,
            },
        );
        commands.push(
            RecordCommand::BindPipeline { bind_point: PIPELINE_BIND_POINT_GRAPHICS, pipeline: graphics_pipeline },
        );
        commands.push(
            RecordCommand::Draw { vertex_count: 3, instance_count: 1, first_vertex: 0, first_instance: 0 },
        );
        commands.push(RecordCommand::EndRenderPass);
        commands.push(RecordCommand::End);
        assert(commands@ =~= recording(graphics_pipeline, framebuffer, render_pass, surface_extent));
        commands
    }

    /// Describes the command buffers of a swapchain: one primary buffer per
    /// framebuffer, allocated from `command_pool`, each recorded once for
    /// its framebuffer.
    pub fn create_command_buffers(
        command_pool: u64,
        graphics_pipeline: u64,
        framebuffers: &Vec<u64>,
        render_pass: u64,
        surface_extent: Extent2D,
    ) -> (r: CommandBufferPlan)
        requires
            framebuffers@.len() <= u32::MAX,
        ensures
            r.allocate == allocation(command_pool, framebuffers@),
            r.allocate.command_buffer_count == framebuffers@.len(),
            r.recordings@.len() == framebuffers@.len(),
            forall|i: int|
                0 <= i < framebuffers@.len() ==> (#[trigger] r.recordings@[i])@ == recordings(
                    graphics_pipeline,
                    framebuffers@,
                    render_pass,
                    surface_extent,
                )[i],
    {
        let mut recordings: Vec<Vec<RecordCommand>> = Vec::new();
        let mut i: usize = 0;
        while i < framebuffers.len()
            invariant
                i <= framebuffers@.len(),
                recordings@.len() == i,
                forall|j: int|
                    0 <= j < i ==> (#[trigger] recordings@[j])@ == recording(
                        graphics_pipeline,
                        framebuffers@[j],
                        render_pass,
                        surface_extent,
                    ),
            decreases framebuffers@.len() - i,
        {
            recordings.push(
                Buffers::record_commands(graphics_pipeline, framebuffers[i], render_pass, surface_extent),
            );
            i = i + 1;
        }
        CommandBufferPlan {
            allocate: CommandBufferAllocateInfo {
                command_pool,
                level: COMMAND_BUFFER_LEVEL_PRIMARY,
                command_buffer_count: framebuffers.len() as u32,
            },
            recordings,
        }
    }
}

} // verus!
