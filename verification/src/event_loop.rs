//! What the window's event loop reports, and what to do about it.

use vstd::prelude::*;
use crate::tools::VirtualKeyCode;

verus! {

/// Whether a key went down or up.
#[derive(Clone, Copy, Debug, PartialEq, Eq, Structural)]
pub enum ElementState {
    Pressed,
    Released,
}

/// What the window's event loop reports.
#[derive(Clone, Copy, Debug, PartialEq, Eq, Structural)]
pub enum LoopEvent {
    CloseRequested,
    KeyboardInput { virtual_keycode: Option<VirtualKeyCode>, state: ElementState },
    MainEventsCleared,
    RedrawRequested,
    LoopDestroyed,
    Other,
}

/// What the event loop does about an event.
#[derive(Clone, Copy, Debug, PartialEq, Eq, Structural)]
pub enum LoopAction {
    /// Leave the loop.
    Exit,
    /// Ask the window for a redraw.
    RequestRedraw,
    /// Draw a frame.
    DrawFrame,
    /// Wait until the device has finished all work.
    WaitDeviceIdle,
    Nothing,
}

/// What the event loop does about `event`: a close request or any key
/// press that carries a key code ends the loop, and the end of the loop
/// waits for the device.
pub open spec fn loop_action(event: LoopEvent) -> LoopAction {
    match event {
        LoopEvent::CloseRequested => LoopAction::Exit,
        LoopEvent::KeyboardInput { virtual_keycode: Some(_), state: ElementState::Pressed } => LoopAction::Exit,
        LoopEvent::KeyboardInput { .. } => LoopAction::Nothing,
        LoopEvent::MainEventsCleared => LoopAction::RequestRedraw,
        LoopEvent::RedrawRequested => LoopAction::DrawFrame,
        LoopEvent::LoopDestroyed => LoopAction::WaitDeviceIdle,
        LoopEvent::Other => LoopAction::Nothing,
    }
}

} // verus!
