//! Cursor/aim frame decisions.
//!
//! The screen-to-world conversion itself is floating-point camera math and
//! runs host-side; this module decides, from the cursor's in-window state and
//! the aim marker's existence, what the frame must do: whether to spawn or
//! despawn the marker so that exactly one exists while the cursor is inside
//! the window and none while it is outside, and whether the stored world
//! coordinates are updated this frame.

use vstd::prelude::*;

verus! {

/// What the frame does to the aim marker entity.
#[derive(PartialEq, Eq, Structural, Clone, Copy, Debug)]
pub enum AimMarkerAction {
    /// Spawn the marker: the cursor is in the window and no marker exists.
    Spawn,
    /// Despawn the marker: the cursor left the window and a marker exists.
    Despawn,
    /// Leave the marker as it is.
    Keep,
}

/// The decisions of one cursor frame.
#[derive(PartialEq, Eq, Structural, Clone, Copy, Debug)]
pub struct CursorFrame {
    /// What to do with the aim marker entity.
    pub marker: AimMarkerAction,
    /// Whether the freshly converted world position replaces the stored
    /// coordinates. False leaves them at their last value.
    pub store_position: bool,
}

/// How many markers exist after the frame's action is carried out.
pub open spec fn spec_markers_after(marker_exists: bool, action: AimMarkerAction) -> int {
    match action {
        AimMarkerAction::Spawn => (if marker_exists { 1int } else { 0int }) + 1,
        AimMarkerAction::Despawn => (if marker_exists { 1int } else { 0int }) - 1,
        AimMarkerAction::Keep => if marker_exists { 1int } else { 0int },
    }
}

/// Decide one cursor frame.
///
/// While the cursor is inside the window the world position is stored and a
/// missing marker is spawned; while it is outside, the position keeps its
/// last value and a present marker is despawned. Either way the frame ends
/// with exactly one marker when the cursor is in the window and none when it
/// is not.
pub fn cursor_frame(cursor_in_window: bool, marker_exists: bool) -> (r: CursorFrame)
    ensures
        r.store_position == cursor_in_window,
        r.marker == AimMarkerAction::Spawn <==> (cursor_in_window && !marker_exists),
        r.marker == AimMarkerAction::Despawn <==> (!cursor_in_window && marker_exists),
        r.marker == AimMarkerAction::Keep <==> (cursor_in_window == marker_exists),
        spec_markers_after(marker_exists, r.marker) == if cursor_in_window {
            1int
        } else {
            0int
        },
{
    if cursor_in_window {
        CursorFrame {
            marker: if marker_exists {
                AimMarkerAction::Keep
            } else {
                AimMarkerAction::Spawn
            },
            store_position: true,
        }
    } else {
        CursorFrame {
            marker: if marker_exists {
                AimMarkerAction::Despawn
            } else {
                AimMarkerAction::Keep
            },
            store_position: false,
        }
    }
}

} // verus!
