//! The order in which native objects are created and released.

use vstd::prelude::*;
use crate::presentation::Presentation;
use crate::resources::{SwapchainResources, SyncObjects};
use crate::setup::{Setup, ValidationInfo};

verus! {

/// What a destroy command releases.
#[derive(Clone, Copy, Debug, PartialEq, Eq, Structural)]
pub enum ResourceKind {
    /// Every command buffer of the engine; the handle is the pool they
    /// return to.
    CommandBuffers,
    Framebuffer,
    Pipeline,
    PipelineLayout,
    RenderPass,
    ImageView,
    Swapchain,
    Semaphore,
    Fence,
    CommandPool,
    Device,
    Surface,
    DebugMessenger,
    Instance,
}

/// One native release call.
#[derive(Clone, Copy, Debug, PartialEq, Eq, Structural)]
pub struct DestroyCommand {
    pub kind: ResourceKind,
    pub handle: u64,
}

/// One native creation call for the sync objects of a slot.
#[derive(Clone, Copy, Debug, PartialEq, Eq, Structural)]
pub enum SyncCreateCommand {
    ImageAvailableSemaphore { slot: usize },
    RenderFinishedSemaphore { slot: usize },
    /// The fence starts out signaled when `signaled` is set.
    InFlightFence { slot: usize, signaled: bool },
}

/// What is built when a swapchain is rebuilt.
#[derive(Clone, Copy, Debug, PartialEq, Eq, Structural)]
pub enum BuildStep {
    Swapchain,
    ImageViews,
    RenderPass,
    Pipeline,
    Framebuffers,
    CommandBuffers,
}

/// One step of rebuilding a swapchain.
#[derive(Clone, Copy, Debug, PartialEq, Eq, Structural)]
pub enum RecreateCommand {
    /// Wait until the device has finished all work.
    WaitDeviceIdle,
    Destroy(DestroyCommand),
    Create(BuildStep),
}

/// The place of a kind of resource in the order in which a swapchain and
/// what depends on it are built.
pub open spec fn build_rank(kind: ResourceKind) -> nat {
    match kind {
        ResourceKind::Swapchain => 0,
        ResourceKind::ImageView => 1,
        ResourceKind::RenderPass => 2,
        ResourceKind::PipelineLayout => 3,
        ResourceKind::Pipeline => 4,
        ResourceKind::Framebuffer => 5,
        ResourceKind::CommandBuffers => 6,
        _ => 7,
    }
}

/// The steps of building a swapchain and what depends on it, each after
/// what it depends on.
pub open spec fn build_steps() -> Seq<RecreateCommand> {
    seq![
        RecreateCommand::Create(BuildStep::Swapchain),
        RecreateCommand::Create(BuildStep::ImageViews),
        RecreateCommand::Create(BuildStep::RenderPass),
        RecreateCommand::Create(BuildStep::Pipeline),
        RecreateCommand::Create(BuildStep::Framebuffers),
        RecreateCommand::Create(BuildStep::CommandBuffers),
    ]
}

/// One destroy command of `kind` per handle, in the order of the handles.
pub open spec fn destroy_all(kind: ResourceKind, handles: Seq<u64>) -> Seq<DestroyCommand> {
    Seq::new(handles.len(), |i: int| DestroyCommand { kind, handle: handles[i] })
}

/// The release of a swapchain: its image views, then the swapchain.
pub open spec fn presentation_commands(presentation: Presentation) -> Seq<DestroyCommand> {
    destroy_all(ResourceKind::ImageView, presentation.swapchain_imageviews@)
        + seq![DestroyCommand { kind: ResourceKind::Swapchain, handle: presentation.swapchain }]
}

/// The release of everything built on a swapchain and of the swapchain
/// itself, each resource after everything that was built on it.
pub open spec fn cleanup_commands(resources: SwapchainResources) -> Seq<DestroyCommand> {
    seq![DestroyCommand { kind: ResourceKind::CommandBuffers, handle: resources.buffers.command_pool }]
        + destroy_all(ResourceKind::Framebuffer, resources.buffers.framebuffers@)
        + seq![
        DestroyCommand { kind: ResourceKind::Pipeline, handle: resources.pipeline.graphics_pipeline },
        DestroyCommand { kind: ResourceKind::PipelineLayout, handle: resources.pipeline.pipeline_layout },
        DestroyCommand { kind: ResourceKind::RenderPass, handle: resources.pipeline.render_pass },
    ] + presentation_commands(resources.presentation)
}

/// The steps of rebuilding the swapchain of `resources`: wait for the
/// device, take everything down, build everything anew.
pub open spec fn recreate_commands(resources: SwapchainResources) -> Seq<RecreateCommand> {
    seq![RecreateCommand::WaitDeviceIdle] + cleanup_commands(resources).map_values(
        |command: DestroyCommand| RecreateCommand::Destroy(command),
    ) + build_steps()
}

/// The release of the rendering context, last of all. The debug messenger
/// exists only under validation.
pub open spec fn context_commands(setup: Setup, validation: ValidationInfo) -> Seq<DestroyCommand> {
    seq![
        DestroyCommand { kind: ResourceKind::Device, handle: setup.device },
        DestroyCommand { kind: ResourceKind::Surface, handle: setup.surface },
    ] + (if validation.is_enable {
        seq![DestroyCommand { kind: ResourceKind::DebugMessenger, handle: setup.debug_messenger }]
    } else {
        Seq::empty()
    }) + seq![DestroyCommand { kind: ResourceKind::Instance, handle: setup.instance }]
}

/// The release of everything an engine holds: sync objects, command
/// buffers, command pool, what was built on the swapchain, the swapchain,
/// then the rendering context.
pub open spec fn shutdown_commands(
    resources: SwapchainResources,
    sync: SyncObjects,
    setup: Setup,
    validation: ValidationInfo,
) -> Seq<DestroyCommand> {
    destroy_all(ResourceKind::Semaphore, sync.image_available_semaphores@)
        + destroy_all(ResourceKind::Semaphore, sync.render_finished_semaphores@)
        + destroy_all(ResourceKind::Fence, sync.inflight_fences@)
        + seq![
        DestroyCommand { kind: ResourceKind::CommandBuffers, handle: resources.buffers.command_pool },
        DestroyCommand { kind: ResourceKind::CommandPool, handle: resources.buffers.command_pool },
    ] + cleanup_commands(resources).skip(1)
        + context_commands(setup, validation)
}

/// The creation of the sync objects of slot `slot`.
pub open spec fn sync_commands_of(slot: usize) -> Seq<SyncCreateCommand> {
    seq![
        SyncCreateCommand::ImageAvailableSemaphore { slot },
        SyncCreateCommand::RenderFinishedSemaphore { slot },
        SyncCreateCommand::InFlightFence { slot, signaled: true },
    ]
}

/// The creation of the sync objects of slots `0 .. slots`, slot by slot.
pub open spec fn sync_commands(slots: nat) -> Seq<SyncCreateCommand>
    decreases slots,
{
    if slots == 0 {
        Seq::empty()
    } else {
        sync_commands((slots - 1) as nat) + sync_commands_of((slots - 1) as usize)
    }
}

/// Appends one destroy command of `kind` per handle.
pub(crate) fn destroy_each(commands: &mut Vec<DestroyCommand>, kind: ResourceKind, handles: &Vec<u64>)
    ensures
        final(commands)@ == old(commands)@ + destroy_all(kind, handles@),
{
    let mut i: usize = 0;
    while i < handles.len()
        invariant
            i <= handles@.len(),
            commands@ == old(commands)@ + destroy_all(kind, handles@.take(i as int)),
        decreases handles@.len() - i,
    {
        commands.push(DestroyCommand { kind, handle: handles[i] });
        assert(commands@ =~= old(commands)@ + destroy_all(kind, handles@.take(i + 1)));
        i = i + 1;
    }
    assert(handles@.take(i as int) =~= handles@);
}

/// Where a kind of resource stands in the release of a whole engine: what
/// belongs to the device, then the device, then what belongs to the
/// instance, then the instance.
pub open spec fn owner_rank(kind: ResourceKind) -> nat {
    match kind {
        ResourceKind::Device => 1,
        ResourceKind::Surface => 2,
        ResourceKind::DebugMessenger => 2,
        ResourceKind::Instance => 3,
        _ => 0,
    }
}

/// A rebuild begins by waiting for the device, and releases all there is
/// to release before it builds anything.
pub proof fn lemma_rebuild_releases_before_building(resources: SwapchainResources, i: int, j: int)
    requires
        0 <= i < recreate_commands(resources).len(),
        0 <= j < recreate_commands(resources).len(),
        recreate_commands(resources)[i] is Destroy,
        recreate_commands(resources)[j] is Create,
    ensures
        recreate_commands(resources)[0] == RecreateCommand::WaitDeviceIdle,
        0 < i < j,
{
}

/// When an engine is released, nothing outlives what it belongs to: the
/// device goes after everything created on it, the instance last of all.
pub proof fn lemma_shutdown_releases_owners_last(
    resources: SwapchainResources,
    sync: SyncObjects,
    setup: Setup,
    validation: ValidationInfo,
    i: int,
    j: int,
)
    requires
        0 <= i <= j < shutdown_commands(resources, sync, setup, validation).len(),
    ensures
        owner_rank(shutdown_commands(resources, sync, setup, validation)[i].kind) <= owner_rank(
            shutdown_commands(resources, sync, setup, validation)[j].kind,
        ),
{
}

/// When an engine is released, its command buffers are freed just before
/// their pool is destroyed.
pub proof fn lemma_shutdown_frees_buffers_before_pool(
    resources: SwapchainResources,
    sync: SyncObjects,
    setup: Setup,
    validation: ValidationInfo,
)
    ensures
        ({
            let commands = shutdown_commands(resources, sync, setup, validation);
            let at = (sync.image_available_semaphores@.len() + sync.render_finished_semaphores@.len()
                + sync.inflight_fences@.len()) as int;
            &&& at + 1 < commands.len()
            &&& commands[at] == (DestroyCommand {
                kind: ResourceKind::CommandBuffers,
                handle: resources.buffers.command_pool,
            })
            &&& commands[at + 1] == (DestroyCommand {
                kind: ResourceKind::CommandPool,
                handle: resources.buffers.command_pool,
            })
        }),
{
}

/// A swapchain is taken down in the reverse of the order it was built in:
/// no resource is released before one that was built on it.
pub proof fn lemma_cleanup_reverses_build(resources: SwapchainResources, i: int, j: int)
    requires
        0 <= i <= j < cleanup_commands(resources).len(),
    ensures
        build_rank(cleanup_commands(resources)[i].kind) >= build_rank(cleanup_commands(resources)[j].kind),
{
}

} // verus!
