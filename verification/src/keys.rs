//! Per-frame keyboard snapshots.
//!
//! The host engine samples which of the four semantic direction keys are
//! pressed, both in the previous frame and in the current one. Edge-triggered
//! ("just pressed") controls are derived here as pure functions over the two
//! samples, so the downstream intent logic is deterministic and needs no live
//! input device.

use vstd::prelude::*;

verus! {

/// Whether a key fires an edge this frame: it is pressed now and was not
/// pressed in the previous frame.
pub open spec fn spec_just_pressed(was_pressed: bool, pressed: bool) -> bool {
    pressed && !was_pressed
}

/// Edge-triggered press: fires only on the transition from unpressed to
/// pressed, not while the key is held.
pub fn just_pressed(was_pressed: bool, pressed: bool) -> (r: bool)
    ensures
        r == spec_just_pressed(was_pressed, pressed),
{
    pressed && !was_pressed
}

/// The pressed state of the four semantic direction keys, in the previous
/// frame and in the current one.
pub struct KeySnapshot {
    pub up_was_pressed: bool,
    pub up_pressed: bool,
    pub down_was_pressed: bool,
    pub down_pressed: bool,
    pub left_was_pressed: bool,
    pub left_pressed: bool,
    pub right_was_pressed: bool,
    pub right_pressed: bool,
}

impl KeySnapshot {
    /// Up key fires an edge this frame.
    pub open spec fn spec_just_up(self) -> bool {
        spec_just_pressed(self.up_was_pressed, self.up_pressed)
    }

    /// Down key fires an edge this frame.
    pub open spec fn spec_just_down(self) -> bool {
        spec_just_pressed(self.down_was_pressed, self.down_pressed)
    }

    /// Left key fires an edge this frame.
    pub open spec fn spec_just_left(self) -> bool {
        spec_just_pressed(self.left_was_pressed, self.left_pressed)
    }

    /// Right key fires an edge this frame.
    pub open spec fn spec_just_right(self) -> bool {
        spec_just_pressed(self.right_was_pressed, self.right_pressed)
    }
}

} // verus!
