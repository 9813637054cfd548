//! Game data: the arena's angle scale, the paddle configuration, and the
//! score records.
//!
//! Angles are fixed-point integers: [`PI_UNITS`] units stand for π radians,
//! so a full turn is exactly [`TAU_UNITS`] units.  The scale is chosen so
//! that every angle the game configures — π, π/3, 4π/3 — is exact, which
//! lets the wraparound arithmetic in [`crate::systems::paddle`] be proved
//! without any rounding slack.

use vstd::prelude::*;

verus! {

/// One full turn (2π radians) in angle units.
pub const TAU_UNITS: i64 = 6_000_000_000;

/// Half a turn (π radians) in angle units.
pub const PI_UNITS: i64 = 3_000_000_000;

/// A third of π in angle units: the half-width of the right paddle's arc.
pub const PI_THIRD_UNITS: i64 = 1_000_000_000;

/// Which side of the arena a paddle defends; decides which input axis
/// drives it and which arc it is allowed to occupy.
#[derive(PartialEq, Copy, Clone, Eq)]
pub enum Side {
    Left,
    Right,
}

/// Static paddle configuration.  The extents are consumed by collision and
/// rendering collaborators; the angle math reads only `side` and the arc
/// bounds.
pub struct Paddle {
    pub side: Side,
    /// Paddle width in arena units.
    pub width: i64,
    /// Paddle height in arena units.
    pub height: i64,
    /// Lower bound of the allowed arc, inclusive, in angle units.
    pub min_angle: i64,
    /// Upper bound of the allowed arc, inclusive, in angle units.
    pub max_angle: i64,
}

impl Paddle {
    /// The arc bounds are ordered and lie within one turn of zero, so that
    /// every angle difference the motion system forms stays far from the
    /// integer limits.
    pub open spec fn wf(self) -> bool {
        -TAU_UNITS <= self.min_angle <= self.max_angle <= TAU_UNITS
    }

    /// A paddle at its side's default configuration: the left arc is
    /// centered on π with half-width 4π/3, the right arc is centered on 0
    /// with half-width π/3.
    pub fn new(side: Side) -> (p: Paddle)
        ensures
            p.wf(),
            p.side == side,
            p.width == 1,
            p.height == 1,
            side == Side::Left ==> p.min_angle == -4 * PI_THIRD_UNITS && p.max_angle == 4
                * PI_THIRD_UNITS,
            side == Side::Right ==> p.min_angle == -PI_THIRD_UNITS && p.max_angle
                == PI_THIRD_UNITS,
    {
        Paddle {
            side,
            width: 1,
            height: 1,
            min_angle: match side {
                Side::Left => -4 * PI_THIRD_UNITS,
                Side::Right => -PI_THIRD_UNITS,
            },
            max_angle: match side {
                Side::Left => 4 * PI_THIRD_UNITS,
                Side::Right => PI_THIRD_UNITS,
            },
        }
    }
}

/// The running score, one counter per player.
pub struct ScoreBoard {
    pub score_left: i32,
    pub score_right: i32,
}

impl Default for ScoreBoard {
    /// A fresh scoreboard starts at zero for both players.
    fn default() -> (s: ScoreBoard)
        ensures
            s.score_left == 0,
            s.score_right == 0,
    {
        ScoreBoard { score_left: 0, score_right: 0 }
    }
}

} // verus!
