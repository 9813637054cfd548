//! Pong on a circle: paddles slide along a circular arc instead of a
//! straight rail.
//!
//! The heart of the game is the paddle angular motion system: it turns a
//! per-tick input sample into an angular displacement, clamps the new angle
//! into the paddle's allowed arc, and reports the motion to apply to the
//! paddle's transform.  Angles are held in an exact fixed-point unit (see
//! [`pong`]), so the wraparound arithmetic and the clamp tie-breaking are
//! proved rather than trusted to rounding.

pub mod pong;
pub mod systems;
