//! The frame loop: which native call comes next, and what its outcome does
//! to the engine.
//!
//! The engine never calls the driver. `VulkanEngine::draw_frame` takes the
//! outcome of the previous native call and answers with the next one to
//! make; the embedding program performs it and reports back.

use vstd::prelude::*;
use crate::buffers::Buffers;
use crate::constants::{MAX_FRAMES_IN_FLIGHT, NO_TIMEOUT, PIPELINE_STAGE_COLOR_ATTACHMENT_OUTPUT};
use crate::event_loop::{loop_action, ElementState, LoopAction, LoopEvent};
use crate::frame::{
    awaited_stage, DeviceError, FrameAction, FrameEvent, FramePhase, FrameStage, PresentOutcome, SlotState,
};
use crate::lifecycle::{
    cleanup_commands, destroy_each, recreate_commands, shutdown_commands, sync_commands, sync_commands_of,
    BuildStep, DestroyCommand, RecreateCommand, ResourceKind, SyncCreateCommand,
};
use crate::resources::{RebuiltSwapchain, SwapchainResources, SyncObjects};
use crate::setup::{Setup, ValidationInfo};

verus! {

/// The slot after `current_frame`.
pub open spec fn next_frame(current_frame: usize) -> usize {
    ((current_frame + 1) % (MAX_FRAMES_IN_FLIGHT as int)) as usize
}

/// The state of an engine.
pub struct EngineState {
    pub resources: SwapchainResources,
    pub sync: SyncObjects,
    /// The in-flight slot of the frame at hand.
    pub current_frame: usize,
    /// Set when the window was resized since the last rebuild.
    pub is_framebuffer_resized: bool,
    pub phase: FramePhase,
    /// The state of each in-flight slot.
    pub slots: Seq<SlotState>,
}

/// Every slot idle.
pub open spec fn idle_slots() -> Seq<SlotState> {
    Seq::new(MAX_FRAMES_IN_FLIGHT as nat, |i: int| SlotState::Idle)
}

impl EngineState {
    pub open spec fn image_count(self) -> nat {
        self.resources.presentation.swapchain_images@.len()
    }

    /// The invariant of an engine: its resources match the swapchain's
    /// images one for one, every slot has its sync objects and its state,
    /// the slot index is in range, an image in use is one the swapchain
    /// has, an image is acquired and a fence reset only for an idle slot,
    /// and a frame is presented only once its slot is submitted.
    pub open spec fn well_formed(self) -> bool {
        &&& self.resources.well_formed()
        &&& self.sync.well_formed()
        &&& self.current_frame < MAX_FRAMES_IN_FLIGHT
        &&& self.slots.len() == MAX_FRAMES_IN_FLIGHT
        &&& match self.phase {
            FramePhase::Acquiring => self.slots[self.current_frame as int] == SlotState::Idle,
            FramePhase::ResettingFence { image_index } => {
                &&& image_index < self.image_count()
                &&& self.slots[self.current_frame as int] == SlotState::Idle
            },
            FramePhase::Submitting { image_index } => image_index < self.image_count(),
            FramePhase::Presenting { image_index } => {
                &&& image_index < self.image_count()
                &&& self.slots[self.current_frame as int] == SlotState::Submitted
            },
            _ => true,
        }
    }

    pub open spec fn failed(self, error: DeviceError) -> (EngineState, FrameAction) {
        (EngineState { phase: FramePhase::Failed, ..self }, FrameAction::Fatal(error))
    }

    /// The state after `event`, and the native call to make next.
    pub open spec fn next(self, event: FrameEvent) -> (EngineState, FrameAction) {
        let slot = self.current_frame as int;
        match event {
            FrameEvent::RedrawRequested => match self.phase {
                FramePhase::Idle => (
                    EngineState { phase: FramePhase::WaitingForFence, ..self },
                    FrameAction::WaitForFence { fence: self.sync.inflight_fences@[slot], timeout: NO_TIMEOUT },
                ),
                _ => self.failed(DeviceError::UnexpectedEvent),
            },
            FrameEvent::FenceSignaled => match self.phase {
                FramePhase::WaitingForFence => (
                    EngineState {
                        phase: FramePhase::Acquiring,
                        slots: self.slots.update(slot, SlotState::Idle),
                        ..self
                    },
                    FrameAction::AcquireImage {
                        swapchain: self.resources.presentation.swapchain,
                        semaphore: self.sync.image_available_semaphores@[slot],
                        timeout: NO_TIMEOUT,
                    },
                ),
                _ => self.failed(DeviceError::UnexpectedEvent),
            },
            FrameEvent::ImageAcquired { image_index } => match self.phase {
                FramePhase::Acquiring => if image_index < self.image_count() {
                    (
                        EngineState { phase: FramePhase::ResettingFence { image_index }, ..self },
                        FrameAction::ResetFence { fence: self.sync.inflight_fences@[slot] },
                    )
                } else {
                    self.failed(DeviceError::ImageIndexOutOfRange { image_index })
                },
                _ => self.failed(DeviceError::UnexpectedEvent),
            },
            FrameEvent::FenceReset => match self.phase {
                FramePhase::ResettingFence { image_index } => (
                    EngineState { phase: FramePhase::Submitting { image_index }, ..self },
                    FrameAction::Submit {
                        command_buffer: self.resources.buffers.command_buffers@[image_index as int],
                        wait_semaphore: self.sync.image_available_semaphores@[slot],
                        wait_stage: PIPELINE_STAGE_COLOR_ATTACHMENT_OUTPUT,
                        signal_semaphore: self.sync.render_finished_semaphores@[slot],
                        fence: self.sync.inflight_fences@[slot],
                    },
                ),
                _ => self.failed(DeviceError::UnexpectedEvent),
            },
            FrameEvent::AcquireOutOfDate => match self.phase {
                FramePhase::Acquiring => (
                    EngineState { phase: FramePhase::Recreating { frame_completes: false }, ..self },
                    FrameAction::RecreateSwapchain,
                ),
                _ => self.failed(DeviceError::UnexpectedEvent),
            },
            FrameEvent::Submitted => match self.phase {
                FramePhase::Submitting { image_index } => (
                    EngineState {
                        phase: FramePhase::Presenting { image_index },
                        slots: self.slots.update(slot, SlotState::Submitted),
                        ..self
                    },
                    FrameAction::Present {
                        swapchain: self.resources.presentation.swapchain,
                        image_index,
                        wait_semaphore: self.sync.render_finished_semaphores@[slot],
                    },
                ),
                _ => self.failed(DeviceError::UnexpectedEvent),
            },
            FrameEvent::Presented(outcome) => match self.phase {
                FramePhase::Presenting { .. } => if outcome != PresentOutcome::Success
                    || self.is_framebuffer_resized {
                    (
                        EngineState {
                            phase: FramePhase::Recreating { frame_completes: true },
                            is_framebuffer_resized: false,
                            ..self
                        },
                        FrameAction::RecreateSwapchain,
                    )
                } else {
                    (
                        EngineState {
                            phase: FramePhase::Idle,
                            current_frame: next_frame(self.current_frame),
                            ..self
                        },
                        FrameAction::FrameComplete,
                    )
                },
                _ => self.failed(DeviceError::UnexpectedEvent),
            },
            FrameEvent::Recreated(rebuilt) => match self.phase {
                FramePhase::Recreating { frame_completes } => {
                    let resources = rebuilt.with_pool(self.resources.buffers.command_pool);
                    if !resources.well_formed() {
                        self.failed(DeviceError::ResourceCountMismatch)
                    } else if frame_completes {
                        (
                            EngineState {
                                resources,
                                phase: FramePhase::Idle,
                                current_frame: next_frame(self.current_frame),
                                slots: idle_slots(),
                                ..self
                            },
                            FrameAction::FrameComplete,
                        )
                    } else {
                        (
                            EngineState { resources, phase: FramePhase::Idle, slots: idle_slots(), ..self },
                            FrameAction::FrameAborted,
                        )
                    }
                },
                _ => self.failed(DeviceError::UnexpectedEvent),
            },
            FrameEvent::NativeFailure { code } => match awaited_stage(self.phase) {
                Some(stage) => self.failed(DeviceError::Native { stage, code }),
                None => self.failed(DeviceError::UnexpectedEvent),
            },
        }
    }
}

/// The state an engine in `state` reaches through `events`.
pub open spec fn run(state: EngineState, events: Seq<FrameEvent>) -> EngineState
    decreases events.len(),
{
    if events.len() == 0 {
        state
    } else {
        run(state.next(events[0]).0, events.drop_first())
    }
}

/// The number of frames an engine in `state` completes through `events`.
pub open spec fn completed_frames(state: EngineState, events: Seq<FrameEvent>) -> nat
    decreases events.len(),
{
    if events.len() == 0 {
        0
    } else {
        let (after, action) = state.next(events[0]);
        let here: nat = if action == FrameAction::FrameComplete {
            1
        } else {
            0
        };
        here + completed_frames(after, events.drop_first())
    }
}

fn all_idle() -> (r: Vec<SlotState>)
    ensures
        r@ == idle_slots(),
{
    let mut slots: Vec<SlotState> = Vec::new();
    let mut i: usize = 0;
    while i < MAX_FRAMES_IN_FLIGHT
        invariant
            i <= MAX_FRAMES_IN_FLIGHT,
            slots@.len() == i,
            forall|j: int| 0 <= j < i ==> slots@[j] == SlotState::Idle,
        decreases MAX_FRAMES_IN_FLIGHT - i,
    {
        slots.push(SlotState::Idle);
        i = i + 1;
    }
    assert(slots@ =~= idle_slots());
    slots
}

fn with_slot(slots: &Vec<SlotState>, slot: usize, state: SlotState) -> (r: Vec<SlotState>)
    requires
        slot < slots@.len(),
    ensures
        r@ == slots@.update(slot as int, state),
{
    let mut changed: Vec<SlotState> = Vec::new();
    let mut i: usize = 0;
    while i < slots.len()
        invariant
            i <= slots@.len(),
            slot < slots@.len(),
            changed@.len() == i,
            forall|j: int| 0 <= j < i ==> changed@[j] == slots@.update(slot as int, state)[j],
        decreases slots@.len() - i,
    {
        changed.push(if i == slot { state } else { slots[i] });
        i = i + 1;
    }
    assert(changed@ =~= slots@.update(slot as int, state));
    changed
}

/// The engine: a swapchain with its resources, the sync objects of each
/// in-flight slot, and the place within the current frame.
pub struct VulkanEngine {
    resources: SwapchainResources,
    sync: SyncObjects,
    current_frame: usize,
    is_framebuffer_resized: bool,
    phase: FramePhase,
    slots: Vec<SlotState>,
}

impl View for VulkanEngine {
    type V = EngineState;

    closed spec fn view(&self) -> EngineState {
        EngineState {
            resources: self.resources,
            sync: self.sync,
            current_frame: self.current_frame,
            is_framebuffer_resized: self.is_framebuffer_resized,
            phase: self.phase,
            slots: self.slots@,
        }
    }
}

impl VulkanEngine {
    #[verifier::type_invariant]
    spec fn holds_together(self) -> bool {
        self@.well_formed()
    }

    /// An idle engine on slot 0. Fails with `ResourceCountMismatch` exactly
    /// when the resources do not match the swapchain's images one for one
    /// or a slot lacks a sync object.
    pub fn new(resources: SwapchainResources, sync: SyncObjects) -> (r: Result<VulkanEngine, DeviceError>)
        ensures
            r is Ok <==> resources.well_formed() && sync.well_formed(),
            r matches Ok(engine) ==> engine@ == (EngineState {
                resources,
                sync,
                current_frame: 0,
                is_framebuffer_resized: false,
                phase: FramePhase::Idle,
                slots: idle_slots(),
            }) && engine@.well_formed(),
            r matches Err(error) ==> error == DeviceError::ResourceCountMismatch,
    {
        let images = resources.presentation.swapchain_images.len();
        if resources.presentation.swapchain_imageviews.len() != images
            || resources.buffers.framebuffers.len() != images
            || resources.buffers.command_buffers.len() != images {
            return Err(DeviceError::ResourceCountMismatch);
        }
        if sync.image_available_semaphores.len() != MAX_FRAMES_IN_FLIGHT
            || sync.render_finished_semaphores.len() != MAX_FRAMES_IN_FLIGHT
            || sync.inflight_fences.len() != MAX_FRAMES_IN_FLIGHT {
            return Err(DeviceError::ResourceCountMismatch);
        }
        let slots = all_idle();
        Ok(
            VulkanEngine {
                resources,
                sync,
                current_frame: 0,
                is_framebuffer_resized: false,
                phase: FramePhase::Idle,
                slots,
            },
        )
    }

    /// The in-flight slot of the frame at hand.
    pub fn current_frame(&self) -> (r: usize)
        ensures
            r == self@.current_frame,
            r < MAX_FRAMES_IN_FLIGHT,
    {
        proof {
            use_type_invariant(self);
        }
        self.current_frame
    }

    pub fn phase(&self) -> (r: FramePhase)
        ensures
            r == self@.phase,
    {
        self.phase
    }

    pub fn is_framebuffer_resized(&self) -> (r: bool)
        ensures
            r == self@.is_framebuffer_resized,
    {
        self.is_framebuffer_resized
    }

    pub fn resources(&self) -> (r: &SwapchainResources)
        ensures
            *r == self@.resources,
            r.well_formed(),
    {
        proof {
            use_type_invariant(self);
        }
        &self.resources
    }

    pub fn sync_objects(&self) -> (r: &SyncObjects)
        ensures
            *r == self@.sync,
            r.well_formed(),
    {
        proof {
            use_type_invariant(self);
        }
        &self.sync
    }

    /// What the engine knows of each in-flight slot.
    pub fn slot_states(&self) -> (r: &Vec<SlotState>)
        ensures
            r@ == self@.slots,
            r@.len() == MAX_FRAMES_IN_FLIGHT,
    {
        proof {
            use_type_invariant(self);
        }
        &self.slots
    }

    /// Records that the window was resized: the swapchain is rebuilt after
    /// the next presentation.
    pub fn notify_resized(&mut self)
        ensures
            final(self)@ == (EngineState { is_framebuffer_resized: true, ..old(self)@ }),
    {
        proof {
            use_type_invariant(&*self);
        }
        self.is_framebuffer_resized = true;
    }

    fn fail(&mut self, error: DeviceError) -> (action: FrameAction)
        ensures
            (final(self)@, action) == old(self)@.failed(error),
    {
        proof {
            use_type_invariant(&*self);
        }
        self.phase = FramePhase::Failed;
        FrameAction::Fatal(error)
    }

    /// The native release calls that take the swapchain down, in order:
    /// command buffers, framebuffers, pipeline, pipeline layout, render
    /// pass, image views, swapchain.
    pub fn cleanup_swapchain(&self) -> (r: Vec<DestroyCommand>)
        ensures
            r@ == cleanup_commands(self@.resources),
    {
        let resources = &self.resources;
        let mut commands: Vec<DestroyCommand> = Vec::new();
        commands.push(
            DestroyCommand { kind: ResourceKind::CommandBuffers, handle: resources.buffers.command_pool },
        );
        destroy_each(&mut commands, ResourceKind::Framebuffer, &resources.buffers.framebuffers);
        commands.push(
            DestroyCommand { kind: ResourceKind::Pipeline, handle: resources.pipeline.graphics_pipeline },
        );
        commands.push(
            DestroyCommand { kind: ResourceKind::PipelineLayout, handle: resources.pipeline.pipeline_layout },
        );
        commands.push(DestroyCommand { kind: ResourceKind::RenderPass, handle: resources.pipeline.render_pass });
        destroy_each(&mut commands, ResourceKind::ImageView, &resources.presentation.swapchain_imageviews);
        commands.push(
            DestroyCommand { kind: ResourceKind::Swapchain, handle: resources.presentation.swapchain },
        );
        assert(commands@ =~= cleanup_commands(self@.resources));
        commands
    }

    /// The native release calls that take the whole engine down, in order:
    /// the sync objects, the command buffers and their pool, the rest of
    /// what `cleanup_swapchain` takes down, then device, surface, debug
    /// messenger and instance.
    pub fn shutdown(&self, setup: &Setup, validation: &ValidationInfo) -> (r: Vec<DestroyCommand>)
        ensures
            r@ == shutdown_commands(self@.resources, self@.sync, *setup, *validation),
    {
        let resources = &self.resources;
        let mut commands: Vec<DestroyCommand> = Vec::new();
        destroy_each(&mut commands, ResourceKind::Semaphore, &self.sync.image_available_semaphores);
        destroy_each(&mut commands, ResourceKind::Semaphore, &self.sync.render_finished_semaphores);
        destroy_each(&mut commands, ResourceKind::Fence, &self.sync.inflight_fences);
        commands.push(
            DestroyCommand { kind: ResourceKind::CommandBuffers, handle: resources.buffers.command_pool },
        );
        commands.push(
            DestroyCommand { kind: ResourceKind::CommandPool, handle: resources.buffers.command_pool },
        );
        destroy_each(&mut commands, ResourceKind::Framebuffer, &resources.buffers.framebuffers);
        commands.push(
            DestroyCommand { kind: ResourceKind::Pipeline, handle: resources.pipeline.graphics_pipeline },
        );
        commands.push(
            DestroyCommand { kind: ResourceKind::PipelineLayout, handle: resources.pipeline.pipeline_layout },
        );
        commands.push(DestroyCommand { kind: ResourceKind::RenderPass, handle: resources.pipeline.render_pass });
        destroy_each(&mut commands, ResourceKind::ImageView, &resources.presentation.swapchain_imageviews);
        commands.push(
            DestroyCommand { kind: ResourceKind::Swapchain, handle: resources.presentation.swapchain },
        );
        commands.push(DestroyCommand { kind: ResourceKind::Device, handle: setup.device });
        commands.push(DestroyCommand { kind: ResourceKind::Surface, handle: setup.surface });
        if validation.is_enable {
            commands.push(DestroyCommand { kind: ResourceKind::DebugMessenger, handle: setup.debug_messenger });
        }
        commands.push(DestroyCommand { kind: ResourceKind::Instance, handle: setup.instance });
        assert(commands@ =~= shutdown_commands(self@.resources, self@.sync, *setup, *validation));
        commands
    }

    /// The native creation calls for the sync objects: for each in-flight
    /// slot in turn its two semaphores and its fence, the fence signaled
    /// so that the first wait on it returns at once.
    pub fn create_sync_objects() -> (r: Vec<SyncCreateCommand>)
        ensures
            r@ == sync_commands(MAX_FRAMES_IN_FLIGHT as nat),
            r@.len() == 3 * MAX_FRAMES_IN_FLIGHT,
    {
        let mut commands: Vec<SyncCreateCommand> = Vec::new();
        let mut slot: usize = 0;
        while slot < MAX_FRAMES_IN_FLIGHT
            invariant
                slot <= MAX_FRAMES_IN_FLIGHT,
                commands@ == sync_commands(slot as nat),
                commands@.len() == 3 * slot,
            decreases MAX_FRAMES_IN_FLIGHT - slot,
        {
            commands.push(SyncCreateCommand::ImageAvailableSemaphore { slot });
            commands.push(SyncCreateCommand::RenderFinishedSemaphore { slot });
            commands.push(SyncCreateCommand::InFlightFence { slot, signaled: true });
            assert(commands@ =~= sync_commands(slot as nat) + sync_commands_of(slot));
            slot = slot + 1;
        }
        commands
    }

    /// The steps of rebuilding the swapchain, in order: wait for the
    /// device, take down what `cleanup_swapchain` takes down, then build
    /// swapchain, image views, render pass, pipeline, framebuffers and
    /// command buffers.
    pub fn recreate_swapchain(&self) -> (r: Vec<RecreateCommand>)
        ensures
            r@ == recreate_commands(self@.resources),
    {
        let cleanup = self.cleanup_swapchain();
        let mut commands: Vec<RecreateCommand> = Vec::new();
        commands.push(RecreateCommand::WaitDeviceIdle);
        let mut i: usize = 0;
        while i < cleanup.len()
            invariant
                i <= cleanup@.len(),
                commands@.len() == 1 + i,
                commands@[0] == RecreateCommand::WaitDeviceIdle,
                forall|j: int| 0 <= j < i ==> commands@[1 + j] == RecreateCommand::Destroy(cleanup@[j]),
            decreases cleanup@.len() - i,
        {
            commands.push(RecreateCommand::Destroy(cleanup[i]));
            i = i + 1;
        }
        commands.push(RecreateCommand::Create(BuildStep::Swapchain));
        commands.push(RecreateCommand::Create(BuildStep::ImageViews));
        commands.push(RecreateCommand::Create(BuildStep::RenderPass));
        commands.push(RecreateCommand::Create(BuildStep::Pipeline));
        commands.push(RecreateCommand::Create(BuildStep::Framebuffers));
        commands.push(RecreateCommand::Create(BuildStep::CommandBuffers));
        assert(commands@ =~= recreate_commands(self@.resources));
        commands
    }

    /// What the event loop does about `event`.
    pub fn main_loop(event: LoopEvent) -> (r: LoopAction)
        ensures
            r == loop_action(event),
    {
        match event {
            LoopEvent::CloseRequested => LoopAction::Exit,
            LoopEvent::KeyboardInput { virtual_keycode, state } => match (virtual_keycode, state) {
                (Some(_), ElementState::Pressed) => LoopAction::Exit,
                _ => LoopAction::Nothing,
            },
            LoopEvent::MainEventsCleared => LoopAction::RequestRedraw,
            LoopEvent::RedrawRequested => LoopAction::DrawFrame,
            LoopEvent::LoopDestroyed => LoopAction::WaitDeviceIdle,
            LoopEvent::Other => LoopAction::Nothing,
        }
    }

    /// Takes the outcome of the last native call and answers with the next
    /// one to make.
    pub fn draw_frame(&mut self, event: FrameEvent) -> (action: FrameAction)
        ensures
            (final(self)@, action) == old(self)@.next(event),
            final(self)@.well_formed(),
    {
        proof {
            use_type_invariant(&*self);
        }
        let slot = self.current_frame;
        let phase = self.phase;
        let action = match event {
            FrameEvent::RedrawRequested => match phase {
                FramePhase::Idle => {
                    self.phase = FramePhase::WaitingForFence;
                    FrameAction::WaitForFence { fence: self.sync.inflight_fences[slot], timeout: NO_TIMEOUT }
                },
                _ => self.fail(DeviceError::UnexpectedEvent),
            },
            FrameEvent::FenceSignaled => match phase {
                FramePhase::WaitingForFence => {
                    self.slots = with_slot(&self.slots, slot, SlotState::Idle);
                    self.phase = FramePhase::Acquiring;
                    FrameAction::AcquireImage {
                        swapchain: self.resources.presentation.swapchain,
                        semaphore: self.sync.image_available_semaphores[slot],
                        timeout: NO_TIMEOUT,
                    }
                },
                _ => self.fail(DeviceError::UnexpectedEvent),
            },
            FrameEvent::ImageAcquired { image_index } => match phase {
                FramePhase::Acquiring => {
                    if (image_index as usize) < self.resources.presentation.swapchain_images.len() {
                        self.phase = FramePhase::ResettingFence { image_index };
                        FrameAction::ResetFence { fence: self.sync.inflight_fences[slot] }
                    } else {
                        self.fail(DeviceError::ImageIndexOutOfRange { image_index })
                    }
                },
                _ => self.fail(DeviceError::UnexpectedEvent),
            },
            FrameEvent::FenceReset => match phase {
                FramePhase::ResettingFence { image_index } => {
                    self.phase = FramePhase::Submitting { image_index };
                    FrameAction::Submit {
                        command_buffer: self.resources.buffers.command_buffers[image_index as usize],
                        wait_semaphore: self.sync.image_available_semaphores[slot],
                        wait_stage: PIPELINE_STAGE_COLOR_ATTACHMENT_OUTPUT,
                        signal_semaphore: self.sync.render_finished_semaphores[slot],
                        fence: self.sync.inflight_fences[slot],
                    }
                },
                _ => self.fail(DeviceError::UnexpectedEvent),
            },
            FrameEvent::AcquireOutOfDate => match phase {
                FramePhase::Acquiring => {
                    self.phase = FramePhase::Recreating { frame_completes: false };
                    FrameAction::RecreateSwapchain
                },
                _ => self.fail(DeviceError::UnexpectedEvent),
            },
            FrameEvent::Submitted => match phase {
                FramePhase::Submitting { image_index } => {
                    self.slots = with_slot(&self.slots, slot, SlotState::Submitted);
                    self.phase = FramePhase::Presenting { image_index };
                    FrameAction::Present {
                        swapchain: self.resources.presentation.swapchain,
                        image_index,
                        wait_semaphore: self.sync.render_finished_semaphores[slot],
                    }
                },
                _ => self.fail(DeviceError::UnexpectedEvent),
            },
            FrameEvent::Presented(outcome) => match phase {
                FramePhase::Presenting { .. } => {
                    let stale = match outcome {
                        PresentOutcome::Success => false,
                        PresentOutcome::Suboptimal => true,
                        PresentOutcome::OutOfDate => true,
                    };
                    if stale || self.is_framebuffer_resized {
                        self.phase = FramePhase::Recreating { frame_completes: true };
                        self.is_framebuffer_resized = false;
                        FrameAction::RecreateSwapchain
                    } else {
                        self.phase = FramePhase::Idle;
                        self.current_frame = (slot + 1) % MAX_FRAMES_IN_FLIGHT;
                        FrameAction::FrameComplete
                    }
                },
                _ => self.fail(DeviceError::UnexpectedEvent),
            },
            FrameEvent::Recreated(rebuilt) => match phase {
                FramePhase::Recreating { frame_completes } => {
                    let images = rebuilt.presentation.swapchain_images.len();
                    if rebuilt.presentation.swapchain_imageviews.len() != images
                        || rebuilt.framebuffers.len() != images || rebuilt.command_buffers.len()
                        != images {
                        self.fail(DeviceError::ResourceCountMismatch)
                    } else {
                        let command_pool = self.resources.buffers.command_pool;
                        self.resources = SwapchainResources {
                            presentation: rebuilt.presentation,
                            pipeline: rebuilt.pipeline,
                            buffers: Buffers {
                                framebuffers: rebuilt.framebuffers,
                                command_pool,
                                command_buffers: rebuilt.command_buffers,
                            },
                        };
                        self.slots = all_idle();
                        self.phase = FramePhase::Idle;
                        if frame_completes {
                            self.current_frame = (slot + 1) % MAX_FRAMES_IN_FLIGHT;
                            FrameAction::FrameComplete
                        } else {
                            FrameAction::FrameAborted
                        }
                    }
                },
                _ => self.fail(DeviceError::UnexpectedEvent),
            },
            FrameEvent::NativeFailure { code } => match phase {
                FramePhase::WaitingForFence => self.fail(
                    DeviceError::Native { stage: FrameStage::FenceWait, code },
                ),
                FramePhase::Acquiring => self.fail(DeviceError::Native { stage: FrameStage::Acquire, code }),
                FramePhase::ResettingFence { .. } => self.fail(
                    DeviceError::Native { stage: FrameStage::FenceReset, code },
                ),
                FramePhase::Submitting { .. } => self.fail(
                    DeviceError::Native { stage: FrameStage::Submit, code },
                ),
                FramePhase::Presenting { .. } => self.fail(
                    DeviceError::Native { stage: FrameStage::Present, code },
                ),
                FramePhase::Recreating { .. } => self.fail(
                    DeviceError::Native { stage: FrameStage::Recreate, code },
                ),
                FramePhase::Idle => self.fail(DeviceError::UnexpectedEvent),
                FramePhase::Failed => self.fail(DeviceError::UnexpectedEvent),
            },
        };
        proof {
            use_type_invariant(&*self);
        }
        action
    }
}

/// Every step keeps the engine's invariant: after any rebuild the engine
/// holds one image view, one framebuffer and one command buffer per
/// swapchain image.
pub proof fn lemma_step_keeps_invariant(state: EngineState, event: FrameEvent)
    requires
        state.well_formed(),
    ensures
        state.next(event).0.well_formed(),
{
}

/// The slot index moves exactly on the steps that complete a frame, and
/// then to the next slot; a frame completes only out of a presentation or
/// out of the rebuild that a presentation asked for.
pub proof fn lemma_slot_advances_exactly_on_completion(state: EngineState, event: FrameEvent)
    requires
        state.well_formed(),
    ensures
        ({
            let (after, action) = state.next(event);
            &&& action == FrameAction::FrameComplete <==> after.current_frame != state.current_frame
            &&& action == FrameAction::FrameComplete ==> {
                &&& after.current_frame == next_frame(state.current_frame)
                &&& after.phase == FramePhase::Idle
                &&& state.phase is Presenting || state.phase == (FramePhase::Recreating {
                    frame_completes: true,
                })
            }
        }),
{
}

/// A frame whose image acquisition finds the surface out of date is given
/// up: the swapchain is rebuilt, nothing is submitted, and the slot index
/// stays where it was.
pub proof fn lemma_stale_acquire_aborts_frame(state: EngineState, rebuilt: RebuiltSwapchain)
    requires
        state.well_formed(),
        state.phase == FramePhase::Acquiring,
        rebuilt.with_pool(state.resources.buffers.command_pool).well_formed(),
    ensures
        ({
            let (during, first) = state.next(FrameEvent::AcquireOutOfDate);
            let (after, second) = during.next(FrameEvent::Recreated(rebuilt));
            &&& first == FrameAction::RecreateSwapchain
            &&& second == FrameAction::FrameAborted
            &&& after.current_frame == state.current_frame
            &&& after.phase == FramePhase::Idle
            &&& after.resources == rebuilt.with_pool(state.resources.buffers.command_pool)
        }),
{
}

/// A presentation that finds the surface stale, or that follows a resize,
/// still completes its frame: the swapchain is rebuilt at once, no frame
/// can start before that, and the slot index then moves on.
pub proof fn lemma_stale_present_completes_frame(
    state: EngineState,
    outcome: PresentOutcome,
    rebuilt: RebuiltSwapchain,
)
    requires
        state.well_formed(),
        state.phase is Presenting,
        outcome != PresentOutcome::Success || state.is_framebuffer_resized,
        rebuilt.with_pool(state.resources.buffers.command_pool).well_formed(),
    ensures
        ({
            let (during, first) = state.next(FrameEvent::Presented(outcome));
            let (after, second) = during.next(FrameEvent::Recreated(rebuilt));
            &&& first == FrameAction::RecreateSwapchain
            &&& during.current_frame == state.current_frame
            &&& during.next(FrameEvent::RedrawRequested).1 == FrameAction::Fatal(
                DeviceError::UnexpectedEvent,
            )
            &&& second == FrameAction::FrameComplete
            &&& after.current_frame == next_frame(state.current_frame)
            &&& after.phase == FramePhase::Idle
            &&& !after.is_framebuffer_resized
            &&& after.resources == rebuilt.with_pool(state.resources.buffers.command_pool)
        }),
{
}

/// A fence is reset and a command buffer submitted only for a slot that is
/// idle, with that slot's fence, and the fence wait that precedes them is
/// what makes the slot idle: no slot is handed work while its earlier work
/// may still run.
pub proof fn lemma_submit_only_on_idle_slot(state: EngineState, event: FrameEvent)
    requires
        state.well_formed(),
    ensures
        ({
            let (after, action) = state.next(event);
            &&& action matches FrameAction::ResetFence { fence } ==> {
                &&& state.slots[state.current_frame as int] == SlotState::Idle
                &&& fence == state.sync.inflight_fences@[state.current_frame as int]
            }
            &&& action matches FrameAction::Submit { fence, .. } ==> {
                &&& state.slots[state.current_frame as int] == SlotState::Idle
                &&& fence == state.sync.inflight_fences@[state.current_frame as int]
            }
            &&& action is AcquireImage ==> after.slots[state.current_frame as int] == SlotState::Idle
            &&& action is Present ==> after.slots[state.current_frame as int] == SlotState::Submitted
            &&& forall|other: int|
                0 <= other < MAX_FRAMES_IN_FLIGHT && other != state.current_frame && !(event is Recreated)
                    ==> after.slots[other] == state.slots[other]
        }),
{
}

/// Through any events, the engine keeps its invariant and its slot index
/// counts the frames it completed: attempts that were given up or that
/// failed do not move it.
pub proof fn lemma_slot_counts_completed_frames(state: EngineState, events: Seq<FrameEvent>)
    requires
        state.well_formed(),
    ensures
        run(state, events).well_formed(),
        run(state, events).current_frame == (state.current_frame + completed_frames(state, events)) % (
        MAX_FRAMES_IN_FLIGHT as int),
    decreases events.len(),
{
    if events.len() > 0 {
        lemma_step_keeps_invariant(state, events[0]);
        lemma_slot_advances_exactly_on_completion(state, events[0]);
        lemma_slot_counts_completed_frames(state.next(events[0]).0, events.drop_first());
    }
}

} // verus!
