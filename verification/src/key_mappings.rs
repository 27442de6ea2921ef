//! The keys that steer the player.

use vstd::prelude::*;
use crate::tools::VirtualKeyCode;

verus! {

/// Which key does what.
#[derive(Clone, Copy, Debug, PartialEq, Eq, Structural)]
pub struct KeyMappings {
    pub forward: VirtualKeyCode,
    pub left: VirtualKeyCode,
    pub backward: VirtualKeyCode,
    pub right: VirtualKeyCode,
    pub menu: VirtualKeyCode,
}

impl KeyMappings {
    /// The mappings used until the player chooses others: W, A, S and D
    /// to move, Escape for the menu.
    pub fn default() -> (r: KeyMappings)
        ensures
            r == (KeyMappings {
                forward: VirtualKeyCode::W,
                left: VirtualKeyCode::A,
                backward: VirtualKeyCode::S,
                right: VirtualKeyCode::D,
                menu: VirtualKeyCode::Escape,
            }),
    {
        KeyMappings {
            forward: VirtualKeyCode::W,
            left: VirtualKeyCode::A,
            backward: VirtualKeyCode::S,
            right: VirtualKeyCode::D,
            menu: VirtualKeyCode::Escape,
        }
    }
}

} // verus!
