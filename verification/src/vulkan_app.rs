//! The application in its plainest form: a window that closes on Escape.

use vstd::prelude::*;
use crate::constants::{WINDOW_HEIGHT, WINDOW_WIDTH};
use crate::presentation::{chosen_extent, Presentation};
use crate::surface::{Extent2D, SurfaceCapabilities};
use crate::tools::VirtualKeyCode;
use crate::event_loop::{ElementState, LoopAction, LoopEvent};

verus! {

/// The application. It has no state of its own.
#[derive(Clone, Copy, Debug, PartialEq, Eq, Structural)]
pub struct VulkanApp {}

/// The size the application's window is opened with.
pub open spec fn window_extent() -> Extent2D {
    Extent2D { width: WINDOW_WIDTH, height: WINDOW_HEIGHT }
}

/// What the application's event loop does about `event`: a close request
/// or a press of Escape ends the loop.
pub open spec fn app_loop_action(event: LoopEvent) -> LoopAction {
    match event {
        LoopEvent::CloseRequested => LoopAction::Exit,
        LoopEvent::KeyboardInput {
            virtual_keycode: Some(VirtualKeyCode::Escape),
            state: ElementState::Pressed,
        } => LoopAction::Exit,
        LoopEvent::MainEventsCleared => LoopAction::RequestRedraw,
        LoopEvent::RedrawRequested => LoopAction::DrawFrame,
        _ => LoopAction::Nothing,
    }
}

impl VulkanApp {
    /// The size the application's window is opened with.
    pub fn initial_window_size() -> (r: Extent2D)
        ensures
            r == window_extent(),
    {
        Extent2D { width: WINDOW_WIDTH, height: WINDOW_HEIGHT }
    }

    /// Picks the swapchain's extent: the surface's own where it has one,
    /// the window's current size brought inside the surface's limits
    /// otherwise.
    pub fn choose_swapchain_extent(capabilities: &SurfaceCapabilities, window_size: Extent2D) -> (r:
        Extent2D)
        requires
            capabilities.extent_is_undefined() ==> capabilities.limits_ordered(),
        ensures
            r == chosen_extent(*capabilities, window_size),
            capabilities.is_supported() ==> r.within(
                capabilities.min_image_extent,
                capabilities.max_image_extent,
            ),
    {
        Presentation::choose_swapchain_extent(capabilities, window_size)
    }

    /// What the event loop does about `event`.
    pub fn main_loop(event: LoopEvent) -> (r: LoopAction)
        ensures
            r == app_loop_action(event),
    {
        match event {
            LoopEvent::CloseRequested => LoopAction::Exit,
            LoopEvent::KeyboardInput { virtual_keycode, state } => match (virtual_keycode, state) {
                (Some(VirtualKeyCode::Escape), ElementState::Pressed) => LoopAction::Exit,
                _ => LoopAction::Nothing,
            },
            LoopEvent::MainEventsCleared => LoopAction::RequestRedraw,
            LoopEvent::RedrawRequested => LoopAction::DrawFrame,
            LoopEvent::LoopDestroyed => LoopAction::Nothing,
            LoopEvent::Other => LoopAction::Nothing,
        }
    }
}

} // verus!
