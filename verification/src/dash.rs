//! Dash intent: direction accumulation and the dash duration timer.
//!
//! Each frame, edge-presses of the four arrow keys yield a direction vector
//! with components in {-1, 0, +1}; it is summed onto the direction already
//! stored (opposite presses on one axis cancel). When the accumulated
//! direction is non-empty the frame raises the trying-to-dash request;
//! otherwise the stored state is left untouched. Clearing the direction and
//! the request is the consumer's responsibility, not this module's.

use vstd::prelude::*;

use crate::keys::KeySnapshot;

verus! {

/// The direction of a dash. Components accumulate by +/-1 per frame and are
/// not clamped by addition.
#[derive(Clone)]
pub struct DashDirection {
    pub x: i64,
    pub y: i64,
}

impl DashDirection {
    /// The direction is empty exactly when both components are zero.
    pub open spec fn spec_is_empty(self) -> bool {
        self.x == 0 && self.y == 0
    }

    /// Componentwise vector sum.
    pub fn add(&self, to_add: &DashDirection) -> (r: DashDirection)
        requires
            i64::MIN <= self.x + to_add.x <= i64::MAX,
            i64::MIN <= self.y + to_add.y <= i64::MAX,
        ensures
            r.x == self.x + to_add.x,
            r.y == self.y + to_add.y,
    {
        DashDirection {
            x: self.x + to_add.x,
            y: self.y + to_add.y,
        }
    }

    /// Whether the direction is the zero vector.
    pub fn is_empty(&self) -> (r: bool)
        ensures
            r == self.spec_is_empty(),
    {
        self.x == 0 && self.y == 0
    }

    /// The squared Euclidean length of the direction vector.
    pub open spec fn spec_mag_sq(self) -> int {
        self.x * self.x + self.y * self.y
    }

    /// A cardinal direction: one axis at +/-1, the other at zero.
    pub open spec fn spec_is_cardinal(self) -> bool {
        ((self.x == 1 || self.x == -1) && self.y == 0)
            || (self.x == 0 && (self.y == 1 || self.y == -1))
    }

    /// A diagonal direction: both axes at +/-1.
    pub open spec fn spec_is_diagonal(self) -> bool {
        (self.x == 1 || self.x == -1) && (self.y == 1 || self.y == -1)
    }
}

impl Default for DashDirection {
    /// The zero direction.
    fn default() -> (r: DashDirection)
        ensures
            r.x == 0,
            r.y == 0,
            r.spec_is_empty(),
    {
        DashDirection { x: 0, y: 0 }
    }
}

/// Countdown timer for the dash duration, modelled in integer nanoseconds.
/// Elapsed time advances monotonically by each frame's delta and never passes
/// the configured duration.
pub struct DashTimer {
    /// Nanoseconds elapsed since the timer started.
    pub elapsed_ns: u64,
    /// Total duration of the timer in nanoseconds.
    pub duration_ns: u64,
}

impl DashTimer {
    /// Elapsed time never exceeds the duration.
    pub open spec fn wf(self) -> bool {
        self.elapsed_ns <= self.duration_ns
    }

    /// Advance the timer by one frame's delta, saturating at the duration.
    pub fn tick(&mut self, delta_ns: u64)
        requires
            old(self).wf(),
        ensures
            final(self).duration_ns == old(self).duration_ns,
            final(self).elapsed_ns == if old(self).elapsed_ns + delta_ns
                <= old(self).duration_ns {
                old(self).elapsed_ns + delta_ns
            } else {
                old(self).duration_ns as int
            },
            final(self).elapsed_ns >= old(self).elapsed_ns,
            final(self).wf(),
    {
        if delta_ns <= self.duration_ns - self.elapsed_ns {
            self.elapsed_ns = self.elapsed_ns + delta_ns;
        } else {
            self.elapsed_ns = self.duration_ns;
        }
    }

    /// Whether the countdown has run out.
    pub fn finished(&self) -> (r: bool)
        ensures
            r == (self.elapsed_ns >= self.duration_ns),
    {
        self.elapsed_ns >= self.duration_ns
    }
}

impl Default for DashTimer {
    /// A zero-length timer, already finished.
    fn default() -> (r: DashTimer)
        ensures
            r.elapsed_ns == 0,
            r.duration_ns == 0,
            r.wf(),
    {
        DashTimer { elapsed_ns: 0, duration_ns: 0 }
    }
}

/// The per-frame direction request the arrow keys' edge-presses yield on the
/// horizontal axis: a right edge adds +1, a left edge adds -1.
pub open spec fn spec_arrow_x(keys: KeySnapshot) -> int {
    (if keys.spec_just_right() { 1int } else { 0int })
        - (if keys.spec_just_left() { 1int } else { 0int })
}

/// The per-frame direction request the arrow keys' edge-presses yield on the
/// vertical axis: an up edge adds +1, a down edge adds -1.
pub open spec fn spec_arrow_y(keys: KeySnapshot) -> int {
    (if keys.spec_just_up() { 1int } else { 0int })
        - (if keys.spec_just_down() { 1int } else { 0int })
}

/// The dash intent state, refreshed every frame from the arrow keys and the
/// frame clock.
pub struct Dash {
    /// Whether the player asked to dash. The request may not result in a
    /// dash: the consumer still checks walls, dashes left and whether a dash
    /// is already running.
    pub trying_to_dash: bool,
    /// Whether the player is dashing (the request passed the consumer's
    /// checks).
    pub is_dashing: bool,
    /// Times dashed since the player last touched a wall; reset externally
    /// on wall contact.
    pub dashed: usize,
    /// The direction in which the player is dashing.
    pub direction: DashDirection,
    /// Countdown for the dash duration.
    pub duration: DashTimer,
}

impl Dash {
    /// The dash state after one frame of arrow-key sampling: the edge-press
    /// vector is summed onto the stored direction; if the sum is non-empty it
    /// replaces the stored direction and raises the trying-to-dash request,
    /// and if it is the zero vector the whole state is left untouched.
    pub open spec fn spec_arrows_step(self, keys: KeySnapshot) -> Dash {
        let nx = self.direction.x + spec_arrow_x(keys);
        let ny = self.direction.y + spec_arrow_y(keys);
        if nx == 0 && ny == 0 {
            self
        } else {
            Dash {
                trying_to_dash: true,
                is_dashing: self.is_dashing,
                dashed: self.dashed,
                direction: DashDirection { x: nx as i64, y: ny as i64 },
                duration: self.duration,
            }
        }
    }

    /// Sample the arrow keys' edge-presses and accumulate them into the dash
    /// direction.
    ///
    /// Each newly pressed arrow contributes +/-1 on its axis; the four
    /// contributions are summed, starting from the stored direction, so
    /// requests accumulate across frames until the consumer clears them and
    /// opposite presses on one axis cancel. A non-empty sum is stored and
    /// raises the trying-to-dash request; an empty sum leaves the prior
    /// direction and request untouched. No diagonal normalisation is applied,
    /// so diagonal dashes keep magnitude sqrt(2) relative to cardinal ones.
    pub fn arrows(&mut self, keys: &KeySnapshot)
        requires
            old(self).direction.x - 1 >= i64::MIN,
            old(self).direction.x + 1 <= i64::MAX,
            old(self).direction.y - 1 >= i64::MIN,
            old(self).direction.y + 1 <= i64::MAX,
        ensures
            *final(self) == old(self).spec_arrows_step(*keys),
    {
        let up = DashDirection {
            x: 0,
            y: if crate::keys::just_pressed(keys.up_was_pressed, keys.up_pressed) {
                1
            } else {
                0
            },
        };
        let down = DashDirection {
            x: 0,
            y: if crate::keys::just_pressed(keys.down_was_pressed, keys.down_pressed) {
                -1
            } else {
                0
            },
        };
        let left = DashDirection {
            x: if crate::keys::just_pressed(keys.left_was_pressed, keys.left_pressed) {
                -1
            } else {
                0
            },
            y: 0,
        };
        let right = DashDirection {
            x: if crate::keys::just_pressed(keys.right_was_pressed, keys.right_pressed) {
                1
            } else {
                0
            },
            y: 0,
        };

        let direction = self.direction.add(&up).add(&down).add(&left).add(&right);

        if !direction.is_empty() {
            self.trying_to_dash = true;
            self.direction = direction;
        }
    }

    /// Advance the dash duration countdown by one frame's delta time.
    pub fn apply_time(&mut self, delta_ns: u64)
        requires
            old(self).duration.wf(),
        ensures
            final(self).duration.duration_ns == old(self).duration.duration_ns,
            final(self).duration.elapsed_ns == if old(self).duration.elapsed_ns
                + delta_ns <= old(self).duration.duration_ns {
                old(self).duration.elapsed_ns + delta_ns
            } else {
                old(self).duration.duration_ns as int
            },
            final(self).duration.wf(),
            final(self).trying_to_dash == old(self).trying_to_dash,
            final(self).is_dashing == old(self).is_dashing,
            final(self).dashed == old(self).dashed,
            final(self).direction == old(self).direction,
    {
        self.duration.tick(delta_ns);
    }
}

impl Default for Dash {
    /// The startup dash state: no request, no dash running, no dashes used,
    /// zero direction, finished zero-length timer.
    fn default() -> (r: Dash)
        ensures
            !r.trying_to_dash,
            !r.is_dashing,
            r.dashed == 0,
            r.direction.spec_is_empty(),
            r.duration.elapsed_ns == 0,
            r.duration.duration_ns == 0,
            r.duration.wf(),
    {
        Dash {
            trying_to_dash: false,
            is_dashing: false,
            dashed: 0,
            direction: DashDirection { x: 0, y: 0 },
            duration: DashTimer { elapsed_ns: 0, duration_ns: 0 },
        }
    }
}

/// Law: starting from a stored direction, one frame of arrow edge-presses
/// stores exactly the componentwise sum of the old direction and the
/// edge-press vector, and raises the trying-to-dash request; if that sum is
/// the zero vector, the stored direction and the request keep their prior
/// values.
pub proof fn lemma_dash_accumulation(d: Dash, keys: KeySnapshot)
    requires
        d.direction.x - 1 >= i64::MIN,
        d.direction.x + 1 <= i64::MAX,
        d.direction.y - 1 >= i64::MIN,
        d.direction.y + 1 <= i64::MAX,
    ensures
        d.direction.x + spec_arrow_x(keys) != 0 || d.direction.y + spec_arrow_y(keys) != 0
            ==> {
                &&& d.spec_arrows_step(keys).direction.x == d.direction.x + spec_arrow_x(keys)
                &&& d.spec_arrows_step(keys).direction.y == d.direction.y + spec_arrow_y(keys)
                &&& d.spec_arrows_step(keys).trying_to_dash
            },
        d.direction.x + spec_arrow_x(keys) == 0 && d.direction.y + spec_arrow_y(keys) == 0
            ==> d.spec_arrows_step(keys) == d,
{
}

/// Law: a diagonal dash direction has twice the squared magnitude of a
/// cardinal one, that is, sqrt(2) times its length: dash directions are not
/// normalised, no diagonal scale-down is applied.
pub proof fn lemma_diagonal_magnitude(cardinal: DashDirection, diagonal: DashDirection)
    requires
        cardinal.spec_is_cardinal(),
        diagonal.spec_is_diagonal(),
    ensures
        cardinal.spec_mag_sq() == 1,
        diagonal.spec_mag_sq() == 2,
        diagonal.spec_mag_sq() == 2 * cardinal.spec_mag_sq(),
{
}

} // verus!
