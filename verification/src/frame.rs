//! The vocabulary of the frame loop: the phases of a frame, the outcomes
//! of native calls, the calls to make next, and the failures that end it.

use vstd::prelude::*;
use crate::constants::{ERROR_OUT_OF_DATE, SUBOPTIMAL, SUCCESS};
use crate::resources::RebuiltSwapchain;

verus! {

/// What the engine knows of an in-flight slot.
#[derive(Clone, Copy, Debug, PartialEq, Eq, Structural)]
pub enum SlotState {
    /// Nothing of this slot is with the device.
    Idle,
    /// The slot's command buffer was submitted and its fence armed. The
    /// device signals the fence when the work is done; the engine learns
    /// of it by waiting for the fence.
    Submitted,
}

/// Where the engine stands within a frame.
#[derive(Clone, Copy, Debug, PartialEq, Eq, Structural)]
pub enum FramePhase {
    /// Between frames.
    Idle,
    /// Waiting for the slot's fence.
    WaitingForFence,
    /// Waiting for the next image.
    Acquiring,
    /// Waiting for the slot's fence to be reset.
    ResettingFence { image_index: u32 },
    /// Waiting for the submission of the image's command buffer.
    Submitting { image_index: u32 },
    /// Waiting for the presentation of the image.
    Presenting { image_index: u32 },
    /// Waiting for the swapchain to be rebuilt. `frame_completes` tells
    /// whether the frame that asked for it had been presented.
    Recreating { frame_completes: bool },
    /// A native call failed; the engine accepts nothing more.
    Failed,
}

/// The native call a failure belongs to.
#[derive(Clone, Copy, Debug, PartialEq, Eq, Structural)]
pub enum FrameStage {
    FenceWait,
    Acquire,
    FenceReset,
    Submit,
    Present,
    Recreate,
}

/// A failure no frame recovers from.
#[derive(Clone, Copy, Debug, PartialEq, Eq, Structural)]
pub enum DeviceError {
    /// A native call returned `code`.
    Native { stage: FrameStage, code: i32 },
    /// The driver handed out an image the swapchain does not have.
    ImageIndexOutOfRange { image_index: u32 },
    /// The numbers of images, views, framebuffers and command buffers
    /// differ, or a sync object is missing.
    ResourceCountMismatch,
    /// The event reported is not the outcome of the call asked for.
    UnexpectedEvent,
}

/// How a presentation ended.
#[derive(Clone, Copy, Debug, PartialEq, Eq, Structural)]
pub enum PresentOutcome {
    Success,
    Suboptimal,
    OutOfDate,
}

/// The outcome of the native call the engine asked for last.
#[derive(Clone, Debug, PartialEq, Eq)]
pub enum FrameEvent {
    /// The window asks for a frame.
    RedrawRequested,
    FenceSignaled,
    ImageAcquired { image_index: u32 },
    /// The surface changed and no image could be acquired.
    AcquireOutOfDate,
    FenceReset,
    Submitted,
    Presented(PresentOutcome),
    Recreated(RebuiltSwapchain),
    /// The call failed with `code`, in a way no frame recovers from.
    NativeFailure { code: i32 },
}

/// The native call to make next.
#[derive(Clone, Copy, Debug, PartialEq, Eq, Structural)]
pub enum FrameAction {
    /// Wait until `fence` is signaled, for `timeout` nanoseconds at most.
    WaitForFence { fence: u64, timeout: u64 },
    /// Acquire the next image of `swapchain`, signaling `semaphore` and no
    /// fence, waiting for `timeout` nanoseconds at most.
    AcquireImage { swapchain: u64, semaphore: u64, timeout: u64 },
    /// Reset `fence` to unsignaled.
    ResetFence { fence: u64 },
    /// Submit `command_buffer` to the graphics queue: it waits for
    /// `wait_semaphore` at `wait_stage`, signals `signal_semaphore` and
    /// arms `fence`.
    Submit {
        command_buffer: u64,
        wait_semaphore: u64,
        wait_stage: u32,
        signal_semaphore: u64,
        fence: u64,
    },
    /// Present image `image_index` of `swapchain` on the present queue
    /// once `wait_semaphore` is signaled.
    Present { swapchain: u64, image_index: u32, wait_semaphore: u64 },
    /// Rebuild the swapchain and everything built on it.
    RecreateSwapchain,
    /// The frame was submitted and presented; nothing more to do.
    FrameComplete,
    /// The frame was given up before anything was submitted.
    FrameAborted,
    /// Stop with this error.
    Fatal(DeviceError),
}

/// The native call an engine in `phase` waits for.
pub open spec fn awaited_stage(phase: FramePhase) -> Option<FrameStage> {
    match phase {
        FramePhase::WaitingForFence => Some(FrameStage::FenceWait),
        FramePhase::Acquiring => Some(FrameStage::Acquire),
        FramePhase::ResettingFence { .. } => Some(FrameStage::FenceReset),
        FramePhase::Submitting { .. } => Some(FrameStage::Submit),
        FramePhase::Presenting { .. } => Some(FrameStage::Present),
        FramePhase::Recreating { .. } => Some(FrameStage::Recreate),
        FramePhase::Idle => None,
        FramePhase::Failed => None,
    }
}

/// The event that a fence wait ending in `code` is.
pub open spec fn fence_wait_event(code: i32) -> FrameEvent {
    if code == SUCCESS {
        FrameEvent::FenceSignaled
    } else {
        FrameEvent::NativeFailure { code }
    }
}

/// The event that an image acquisition ending in `code` is. A suboptimal
/// swapchain still hands out its image; a surface out of date does not.
pub open spec fn acquire_event(code: i32, image_index: u32) -> FrameEvent {
    if code == SUCCESS || code == SUBOPTIMAL {
        FrameEvent::ImageAcquired { image_index }
    } else if code == ERROR_OUT_OF_DATE {
        FrameEvent::AcquireOutOfDate
    } else {
        FrameEvent::NativeFailure { code }
    }
}

/// The event that a fence reset ending in `code` is.
pub open spec fn fence_reset_event(code: i32) -> FrameEvent {
    if code == SUCCESS {
        FrameEvent::FenceReset
    } else {
        FrameEvent::NativeFailure { code }
    }
}

/// The event that a submission ending in `code` is.
pub open spec fn submit_event(code: i32) -> FrameEvent {
    if code == SUCCESS {
        FrameEvent::Submitted
    } else {
        FrameEvent::NativeFailure { code }
    }
}

/// The event that a presentation ending in `code` is.
pub open spec fn present_event(code: i32) -> FrameEvent {
    if code == SUCCESS {
        FrameEvent::Presented(PresentOutcome::Success)
    } else if code == SUBOPTIMAL {
        FrameEvent::Presented(PresentOutcome::Suboptimal)
    } else if code == ERROR_OUT_OF_DATE {
        FrameEvent::Presented(PresentOutcome::OutOfDate)
    } else {
        FrameEvent::NativeFailure { code }
    }
}

impl FrameEvent {
    /// Reads the result code of a fence wait.
    pub fn fence_waited(code: i32) -> (r: FrameEvent)
        ensures
            r == fence_wait_event(code),
    {
        if code == SUCCESS {
            FrameEvent::FenceSignaled
        } else {
            FrameEvent::NativeFailure { code }
        }
    }

    /// Reads the result code of an image acquisition and the index it
    /// gave.
    pub fn image_acquired(code: i32, image_index: u32) -> (r: FrameEvent)
        ensures
            r == acquire_event(code, image_index),
    {
        if code == SUCCESS || code == SUBOPTIMAL {
            FrameEvent::ImageAcquired { image_index }
        } else if code == ERROR_OUT_OF_DATE {
            FrameEvent::AcquireOutOfDate
        } else {
            FrameEvent::NativeFailure { code }
        }
    }

    /// Reads the result code of a fence reset.
    pub fn fence_reset(code: i32) -> (r: FrameEvent)
        ensures
            r == fence_reset_event(code),
    {
        if code == SUCCESS {
            FrameEvent::FenceReset
        } else {
            FrameEvent::NativeFailure { code }
        }
    }

    /// Reads the result code of a submission.
    pub fn submitted(code: i32) -> (r: FrameEvent)
        ensures
            r == submit_event(code),
    {
        if code == SUCCESS {
            FrameEvent::Submitted
        } else {
            FrameEvent::NativeFailure { code }
        }
    }

    /// Reads the result code of a presentation.
    pub fn presented(code: i32) -> (r: FrameEvent)
        ensures
            r == present_event(code),
    {
        if code == SUCCESS {
            FrameEvent::Presented(PresentOutcome::Success)
        } else if code == SUBOPTIMAL {
            FrameEvent::Presented(PresentOutcome::Suboptimal)
        } else if code == ERROR_OUT_OF_DATE {
            FrameEvent::Presented(PresentOutcome::OutOfDate)
        } else {
            FrameEvent::NativeFailure { code }
        }
    }
}

/// What is said when the process stops on `error`.
pub open spec fn error_message(error: DeviceError) -> Seq<char> {
    match error {
        DeviceError::Native { stage: FrameStage::FenceWait, .. } => "Failed to wait for Fence!"@,
        DeviceError::Native { stage: FrameStage::Acquire, .. } => "Failed to acquire Swap Chain Image!"@,
        DeviceError::Native { stage: FrameStage::FenceReset, .. } => "Failed to reset Fence!"@,
        DeviceError::Native { stage: FrameStage::Submit, .. } => "Failed to execute queue submit."@,
        DeviceError::Native { stage: FrameStage::Present, .. } => "Failed to execute queue present."@,
        DeviceError::Native { stage: FrameStage::Recreate, .. } => "Failed to recreate Swapchain!"@,
        DeviceError::ImageIndexOutOfRange { .. } => "Acquired image is not part of the Swapchain!"@,
        DeviceError::ResourceCountMismatch => "Swapchain resources do not match its images!"@,
        DeviceError::UnexpectedEvent => "Unexpected event for the frame at hand!"@,
    }
}

impl DeviceError {
    /// What to say when the process stops on this error.
    pub fn message(&self) -> (r: &'static str)
        ensures
            r@ == error_message(*self),
    {
        match self {
            DeviceError::Native { stage, .. } => match stage {
                FrameStage::FenceWait => "Failed to wait for Fence!",
                FrameStage::Acquire => "Failed to acquire Swap Chain Image!",
                FrameStage::FenceReset => "Failed to reset Fence!",
                FrameStage::Submit => "Failed to execute queue submit.",
                FrameStage::Present => "Failed to execute queue present.",
                FrameStage::Recreate => "Failed to recreate Swapchain!",
            },
            DeviceError::ImageIndexOutOfRange { .. } => "Acquired image is not part of the Swapchain!",
            DeviceError::ResourceCountMismatch => "Swapchain resources do not match its images!",
            DeviceError::UnexpectedEvent => "Unexpected event for the frame at hand!",
        }
    }
}

} // verus!
