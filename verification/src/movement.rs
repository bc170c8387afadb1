//! Keyboard-to-movement mapping.
//!
//! Each frame the host hands in a [`KeySnapshot`] and this module updates the
//! movement intent: jump is edge-triggered on the up key and left set until an
//! external consumer resets it, fast-fall is level-triggered on the down key,
//! and the horizontal axis is recomputed from the left/right keys (both held
//! cancel to zero).

use vstd::prelude::*;

use crate::keys::KeySnapshot;

verus! {

/// The horizontal axis value produced by the held state of the right and left
/// keys: right alone gives +1, left alone gives -1, neither or both give 0.
pub open spec fn spec_axis(right_held: bool, left_held: bool) -> int {
    (if right_held { 1int } else { 0int }) - (if left_held { 1int } else { 0int })
}

/// The player's movement intent, refreshed every frame from the keyboard.
pub struct Movement {
    /// Horizontal input axis; always -1, 0 or +1.
    pub x: i32,
    /// Jump request. Set on the frame the up key is newly pressed; reset by
    /// the consumer of this state once the value is read, never here.
    pub jump: bool,
    /// Times jumped; maintained by the consumer, untouched here.
    pub jumped: usize,
    /// Fast-fall request. Set while the down key is held; cancelled by the
    /// consumer (on jump or dash), never here.
    pub is_fast_falling: bool,
    /// Whether horizontal input is locked; maintained by the consumer.
    pub lock_x: bool,
}

impl Movement {
    /// The horizontal axis stays in the three legal values.
    pub open spec fn wf(self) -> bool {
        -1 <= self.x <= 1
    }

    /// The movement state after one keyboard frame: jump latches on an up-key
    /// edge, fast-fall latches while down is held, and the axis is replaced by
    /// the value the held left/right keys give. The other fields are the
    /// consumer's and keep their values.
    pub open spec fn spec_keyboard_step(self, keys: KeySnapshot) -> Movement {
        Movement {
            x: spec_axis(keys.right_pressed, keys.left_pressed) as i32,
            jump: self.jump || keys.spec_just_up(),
            jumped: self.jumped,
            is_fast_falling: self.is_fast_falling || keys.down_pressed,
            lock_x: self.lock_x,
        }
    }

    /// Apply one frame of keyboard input to the movement intent.
    ///
    /// Jump is set only when the up key was newly pressed this frame and is
    /// never cleared here; fast-fall is set for every frame the down key is
    /// held; the horizontal axis is recomputed from the held left/right keys,
    /// cancelling to 0 when both are held.
    pub fn keyboard_controls(&mut self, keys: &KeySnapshot)
        ensures
            *final(self) == old(self).spec_keyboard_step(*keys),
            final(self).wf(),
    {
        if crate::keys::just_pressed(keys.up_was_pressed, keys.up_pressed) {
            self.jump = true;
        }

        if keys.down_pressed {
            self.is_fast_falling = true;
        }

        let mut sides: i32 = 0;
        if keys.right_pressed {
            sides = sides + 1;
        }
        if keys.left_pressed {
            sides = sides - 1;
        }
        self.x = sides;
    }
}

impl Default for Movement {
    /// The startup movement state: axis centred, no jump or fast-fall pending,
    /// no jumps counted, horizontal input unlocked.
    fn default() -> (r: Movement)
        ensures
            r.x == 0,
            !r.jump,
            r.jumped == 0,
            !r.is_fast_falling,
            !r.lock_x,
            r.wf(),
    {
        Movement {
            x: 0,
            jump: false,
            jumped: 0,
            is_fast_falling: false,
            lock_x: false,
        }
    }
}

/// Law: for every combination of the right/left held keys, the horizontal
/// axis is -1, 0 or +1; it is +1 exactly when right is held without left,
/// -1 exactly when left is held without right, and 0 otherwise, including
/// when both are held.
pub proof fn lemma_axis_values(right_held: bool, left_held: bool)
    ensures
        -1 <= spec_axis(right_held, left_held) <= 1,
        spec_axis(right_held, left_held) == 1 <==> (right_held && !left_held),
        spec_axis(right_held, left_held) == -1 <==> (left_held && !right_held),
        spec_axis(right_held, left_held) == 0 <==> (right_held == left_held),
{
}

/// Law: the jump flag becomes true only on the frame the up key transitions
/// from unpressed to pressed. Holding the key across frames does not
/// re-trigger it, releasing it does not clear it: on a frame without an
/// up-key edge the flag keeps its value, and it is never cleared here.
pub proof fn lemma_jump_edge_triggered(m: Movement, keys: KeySnapshot)
    ensures
        m.spec_keyboard_step(keys).jump == (m.jump || keys.spec_just_up()),
        keys.up_was_pressed ==> m.spec_keyboard_step(keys).jump == m.jump,
        !keys.up_pressed ==> m.spec_keyboard_step(keys).jump == m.jump,
        m.jump ==> m.spec_keyboard_step(keys).jump,
{
}

} // verus!
