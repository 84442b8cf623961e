use crate::constants::{FIRE_RATE_US, SIDEKICK_RADIUS};
use vstd::prelude::*;

verus! {

/// A wingman flying at a fixed offset from the player ship.
#[derive(Clone, Copy, Debug, PartialEq, Eq, Structural)]
pub struct Sidekick {
    /// Offset from the player's centre, in half pixels (twice the offset in
    /// pixels), so that a ship of odd width still centres its formation.
    pub offset_x_half_px: i64,
    pub offset_y_half_px: i64,
    /// Time of its last shot, in microseconds of game clock.
    pub last_shot_time: i64,
    /// Microseconds between two of its shots.
    pub fire_rate: i64,
    pub active: bool,
    /// Collision radius in pixels.
    pub radius: i32,
}

/// A fresh, active sidekick at the given offset, in half pixels.
pub open spec fn fresh_sidekick(offset_x_half_px: int, offset_y_half_px: int) -> Sidekick {
    Sidekick {
        offset_x_half_px: offset_x_half_px as i64,
        offset_y_half_px: offset_y_half_px as i64,
        last_shot_time: 0,
        fire_rate: FIRE_RATE_US,
        active: true,
        radius: SIDEKICK_RADIUS,
    }
}

/// Whether a sidekick fires at time `now`: it is active and its fire
/// interval has passed since its last shot.
pub open spec fn sidekick_fires(sk: Sidekick, now: int) -> bool {
    sk.active && now - sk.last_shot_time > sk.fire_rate
}

impl Sidekick {
    /// A fresh sidekick at the given offset, in half pixels.
    pub fn new(offset_x_half_px: i64, offset_y_half_px: i64) -> (sk: Self)
        ensures
            sk == fresh_sidekick(offset_x_half_px as int, offset_y_half_px as int),
    {
        Sidekick {
            offset_x_half_px,
            offset_y_half_px,
            last_shot_time: 0,
            fire_rate: FIRE_RATE_US,
            active: true,
            radius: SIDEKICK_RADIUS,
        }
    }
}

} // verus!
