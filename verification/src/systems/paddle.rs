//! The paddle angular motion system.
//!
//! Each tick the system turns one paddle's input sample into an angular
//! displacement, clamps the candidate angle into the paddle's allowed arc —
//! aware that angles wrap modulo one turn — and reports the new angle
//! together with the incremental roll to apply to the paddle's transform.
//!
//! Angles are fixed-point integers ([`PI_UNITS`] units per π radians), so
//! every statement here is exact; see [`crate::pong`] for the scale.

use vstd::prelude::*;

verus! {

use vstd::arithmetic::div_mod::{
    lemma_fundamental_div_mod,
    lemma_fundamental_div_mod_converse_mod,
    lemma_mod_division_less_than_divisor,
    lemma_mod_multiples_vanish,
    lemma_sub_mod_noop,
};
use vstd::math::abs;
use crate::pong::{Side, Paddle, PI_UNITS, TAU_UNITS};

/// The canonical representative of an angle: the unique value congruent to
/// `a` modulo a full turn that lies in the half-open interval
/// `(-PI_UNITS, PI_UNITS]` — the fixed-point image of `(-π, π]`.
pub open spec fn norm_spec(a: int) -> int {
    let m = a % (TAU_UNITS as int);
    if m > PI_UNITS as int {
        m - TAU_UNITS
    } else {
        m
    }
}

/// Two angles are congruent when they differ by a whole number of turns.
pub open spec fn congruent(a: int, b: int) -> bool {
    (a - b) % (TAU_UNITS as int) == 0
}

/// Reduces an angle to its canonical representative in `(-PI_UNITS,
/// PI_UNITS]`, however far the input lies from that range.
pub fn normalize_angle(a: i64) -> (r: i64)
    ensures
        r == norm_spec(a as int),
        -PI_UNITS < r <= PI_UNITS,
{
    proof {
        lemma_mod_division_less_than_divisor(a as int, TAU_UNITS as int);
    }
    let m: i64 = a.checked_rem_euclid(TAU_UNITS).unwrap();
    if m > PI_UNITS {
        m - TAU_UNITS
    } else {
        m
    }
}

/// The canonical representative is congruent to the angle it came from.
pub proof fn lemma_norm_congruent(a: int)
    ensures
        congruent(norm_spec(a), a),
        -PI_UNITS < norm_spec(a) <= PI_UNITS,
{
    let t = TAU_UNITS as int;
    lemma_mod_division_less_than_divisor(a, t);
    lemma_fundamental_div_mod(a, t);
    // a % t == a - t * (a / t), so norm_spec(a) - a is -t * (a / t),
    // possibly less one more whole turn.
    let q = a / t;
    if a % t > PI_UNITS as int {
        assert(norm_spec(a) - a == t * (-q - 1)) by (nonlinear_arith)
            requires
                a == t * q + a % t,
                norm_spec(a) == a % t - t,
        ;
        lemma_mod_multiples_vanish(-q - 1, 0, t);
    } else {
        assert(norm_spec(a) - a == t * (-q)) by (nonlinear_arith)
            requires
                a == t * q + a % t,
                norm_spec(a) == a % t,
        ;
        lemma_mod_multiples_vanish(-q, 0, t);
    }
}

/// Congruent angles have the same canonical representative.
pub proof fn lemma_norm_of_congruent(a: int, b: int)
    requires
        congruent(a, b),
    ensures
        norm_spec(a) == norm_spec(b),
{
    let t = TAU_UNITS as int;
    lemma_fundamental_div_mod(a - b, t);
    let k = (a - b) / t;
    assert(a == t * k + b);
    assert((t * k + b) % t == b % t) by {
        lemma_mod_multiples_vanish(k, b, t);
    }
}

/// An angle already in the canonical range is its own representative.
pub proof fn lemma_norm_small(a: int)
    requires
        -PI_UNITS < a <= PI_UNITS,
    ensures
        norm_spec(a) == a,
{
    let t = TAU_UNITS as int;
    if a >= 0 {
        lemma_fundamental_div_mod_converse_mod(a, t, 0, a);
    } else {
        lemma_fundamental_div_mod_converse_mod(a, t, -1, a + t);
    }
}

/// Normalizing twice is the same as normalizing once.
pub proof fn lemma_norm_idempotent(a: int)
    ensures
        norm_spec(norm_spec(a)) == norm_spec(a),
{
    lemma_norm_congruent(a);
    lemma_norm_small(norm_spec(a));
}

/// Normalization is periodic: shifting an angle by any whole number of
/// turns does not change its canonical representative.
pub proof fn lemma_norm_periodic(a: int, k: int)
    ensures
        norm_spec(a + k * TAU_UNITS) == norm_spec(a),
{
    let t = TAU_UNITS as int;
    assert((k * t) % t == 0) by {
        lemma_mod_multiples_vanish(k, 0, t);
    }
    lemma_norm_of_congruent(a + k * t, a);
}

/// The canonical range holds exactly one representative of each angle:
/// congruent angles that both lie in `(-PI_UNITS, PI_UNITS]` are equal.
pub proof fn lemma_norm_unique(a: int, b: int)
    requires
        congruent(a, b),
        -PI_UNITS < a <= PI_UNITS,
        -PI_UNITS < b <= PI_UNITS,
    ensures
        a == b,
{
    lemma_norm_of_congruent(a, b);
    lemma_norm_small(a);
    lemma_norm_small(b);
}

/// A difference of normalized angles normalizes to the normalized
/// difference of the angles themselves.
pub proof fn lemma_norm_sub(x: int, y: int)
    ensures
        norm_spec(norm_spec(x) - norm_spec(y)) == norm_spec(x - y),
{
    let t = TAU_UNITS as int;
    lemma_norm_congruent(x);
    lemma_norm_congruent(y);
    let p = norm_spec(x) - x;
    let q = norm_spec(y) - y;
    assert((p - q) % t == 0) by {
        lemma_sub_mod_noop(p, q, t);
    }
    assert((norm_spec(x) - norm_spec(y)) - (x - y) == p - q);
    lemma_norm_of_congruent(norm_spec(x) - norm_spec(y), x - y);
}

/// Whether angle `a` lies inside the arc `[min, max]`, counting angles
/// modulo full turns: the signed distances from `a` to the two bounds,
/// each reduced to `(-π, π]`, must bracket zero.
pub open spec fn in_arc(a: int, min: int, max: int) -> bool {
    norm_spec(min - a) <= 0 && norm_spec(max - a) >= 0
}

/// The clamped angle: `a` itself when it already lies inside the arc,
/// otherwise whichever bound is the smaller angular distance away —
/// the edge of the arc that the motion overshot.
pub open spec fn clamp_spec(a: int, min: int, max: int) -> int {
    if in_arc(a, min, max) {
        a
    } else if abs(norm_spec(min - a)) < abs(norm_spec(max - a)) {
        min
    } else {
        max
    }
}

/// Clamps a candidate angle into the arc `[min, max]`, wrap-aware: the
/// test compares angles modulo full turns, so the arc may straddle the
/// ±π seam.  Inside the arc the candidate comes back unchanged; outside
/// it, the nearer bound.
pub fn clamp_angle(angle: i64, min: i64, max: i64) -> (r: i64)
    ensures
        r == clamp_spec(angle as int, min as int, max as int),
{
    let na = normalize_angle(angle);
    let nmin = normalize_angle(min);
    let nmax = normalize_angle(max);
    proof {
        lemma_norm_sub(min as int, angle as int);
        lemma_norm_sub(max as int, angle as int);
    }
    let lo = normalize_angle(nmin - na);
    let hi = normalize_angle(nmax - na);
    if lo <= 0 && hi >= 0 {
        angle
    } else {
        let lo_dist: i64 = if lo < 0 {
            -lo
        } else {
            lo
        };
        let hi_dist: i64 = if hi < 0 {
            -hi
        } else {
            hi
        };
        if lo_dist < hi_dist {
            min
        } else {
            max
        }
    }
}

/// Whether an angle lies within `[min, max]` when counted modulo whole
/// turns: some angle congruent to it sits between the bounds.
pub open spec fn angle_within_arc(a: int, min: int, max: int) -> bool {
    exists|b: int| #[trigger] congruent(b, a) && min <= b <= max
}

/// Containment: starting from an angle inside the arc, no displacement of
/// less than half a turn can escape it — the clamped result stays within
/// `[min, max]`.
pub proof fn lemma_clamp_containment(angle: int, delta: int, min: int, max: int)
    requires
        min <= angle <= max,
        -PI_UNITS < delta < PI_UNITS,
    ensures
        min <= clamp_spec(angle + delta, min, max) <= max,
{
    let c = angle + delta;
    if in_arc(c, min, max) {
        // The clamp returns the candidate itself; a candidate past either
        // bound would have been a small out-of-range distance, which the
        // arc test rejects.
        if c > max {
            lemma_norm_small(max - c);
            assert(false);
        }
        if c < min {
            lemma_norm_small(min - c);
            assert(false);
        }
    }
}

/// Containment modulo full turns, for every candidate: as long as the arc
/// bounds are ordered, the clamped result is congruent to some angle
/// within `[min, max]`.
pub proof fn lemma_clamp_in_arc(a: int, min: int, max: int)
    requires
        min <= max,
    ensures
        angle_within_arc(clamp_spec(a, min, max), min, max),
{
    let t = TAU_UNITS as int;
    let r = clamp_spec(a, min, max);
    if !in_arc(a, min, max) {
        // The clamp snapped to a bound, which lies in the range as it is.
        assert((r - r) % t == 0) by {
            lemma_mod_multiples_vanish(0, 0, t);
        }
        assert(congruent(r, r) && min <= r <= max);
    } else if max - min >= t {
        // The range covers at least one whole turn, so it holds a
        // translate of every angle: shift `a` up into [min, min + t).
        lemma_fundamental_div_mod(min - a + t - 1, t);
        lemma_mod_division_less_than_divisor(min - a + t - 1, t);
        let k = (min - a + t - 1) / t;
        assert(t * k == (min - a + t - 1) - ((min - a + t - 1) % t));
        assert(min <= a + k * t <= max) by (nonlinear_arith)
            requires
                t * k > min - a - 1,
                t * k <= min - a + t - 1,
                max - min >= t,
        ;
        assert(((a + k * t) - a) % t == 0) by {
            lemma_mod_multiples_vanish(k, 0, t);
            assert((a + k * t) - a == t * k) by (nonlinear_arith);
        }
        assert(congruent(a + k * t, r) && min <= a + k * t <= max);
    } else {
        // The arc test placed `a` at distance `lo_gap` past `min` and
        // `hi_gap` short of `max`, modulo turns; the two gaps add up to
        // exactly the width of the arc, so the translate `min + lo_gap`
        // of `a` lies between the bounds.
        let lo = norm_spec(min - a);
        let hi = norm_spec(max - a);
        lemma_norm_congruent(min - a);
        lemma_norm_congruent(max - a);
        lemma_fundamental_div_mod(lo - (min - a), t);
        lemma_fundamental_div_mod(hi - (max - a), t);
        let j = (lo - (min - a)) / t;
        let j2 = (hi - (max - a)) / t;
        assert(lo == (min - a) + t * j);
        assert(hi == (max - a) + t * j2);
        let lo_gap = -lo;
        let hi_gap = hi;
        // (max - min) - (lo_gap + hi_gap) is a multiple of t strictly
        // between -t and t, hence zero.
        assert((max - min) - (lo_gap + hi_gap) == t * (j - j2)) by (nonlinear_arith)
            requires
                lo == (min - a) + t * j,
                hi == (max - a) + t * j2,
                lo_gap == -lo,
                hi_gap == hi,
        ;
        assert(-t < t * (j - j2) < t);
        assert(j - j2 == 0) by (nonlinear_arith)
            requires
                -t < t * (j - j2) < t,
                t > 0,
        ;
        assert(lo_gap + hi_gap == max - min);
        assert(a + (-j) * t == min + lo_gap) by (nonlinear_arith)
            requires
                lo == (min - a) + t * j,
                lo_gap == -lo,
        ;
        assert(((min + lo_gap) - a) % t == 0) by {
            lemma_mod_multiples_vanish(-j, 0, t);
            assert((min + lo_gap) - a == t * (-j)) by (nonlinear_arith)
                requires
                    a + (-j) * t == min + lo_gap,
            ;
        }
        assert(congruent(min + lo_gap, r) && min <= min + lo_gap <= max);
    }
}

/// The per-tick input sample, one axis per paddle side, already scaled to
/// an angular displacement in angle units.  `None` means the side has no
/// input binding this tick.
#[derive(Clone, Copy)]
pub struct InputSnapshot {
    pub left_paddle: Option<i64>,
    pub right_paddle: Option<i64>,
}

/// The axis sample that drives a paddle on the given side.
pub open spec fn spec_axis(input: InputSnapshot, side: Side) -> Option<i64> {
    match side {
        Side::Left => input.left_paddle,
        Side::Right => input.right_paddle,
    }
}

/// What one tick of the motion system asks of the paddle's transform.
#[derive(Clone, Copy, PartialEq, Eq, Structural, Debug)]
pub enum PaddleAction {
    /// Leave the transform exactly as it is: no position write, no roll.
    NoChange,
    /// Place the paddle at `new_angle` on the arena circle and roll its
    /// orientation by `roll_delta` (both in angle units; a positive angle
    /// step shows as a negative roll).
    Move { new_angle: i64, roll_delta: i64 },
}

/// The motion system's decision for one paddle and one tick.  The tick's
/// displacement is reduced to its canonical turn representative before it
/// is applied, so a single tick never moves a paddle by more than half a
/// turn in either direction.
pub open spec fn run_spec(paddle: Paddle, angle: int, input: InputSnapshot) -> PaddleAction {
    match spec_axis(input, paddle.side) {
        Option::None => PaddleAction::NoChange,
        Option::Some(delta) => if delta == 0 {
            PaddleAction::NoChange
        } else {
            let candidate = norm_spec(angle) + norm_spec(delta as int);
            let clamped = clamp_spec(candidate, paddle.min_angle as int, paddle.max_angle as int);
            PaddleAction::Move {
                new_angle: clamped as i64,
                roll_delta: (norm_spec(angle) - clamped) as i64,
            }
        },
    }
}

/// Whether a motion decision respects the arc `[min, max]`: an order to
/// move must place the paddle at an angle within the arc, modulo whole
/// turns; leaving the transform alone always does.
pub open spec fn action_in_arc(act: PaddleAction, min: int, max: int) -> bool {
    match act {
        PaddleAction::NoChange => true,
        PaddleAction::Move { new_angle, .. } => angle_within_arc(new_angle as int, min, max),
    }
}

/// The paddle angular motion system.  Stateless: each tick's decision
/// depends only on the paddle's configuration, its current angle, and the
/// tick's input snapshot.
pub struct PaddleSystem;

impl PaddleSystem {
    /// One tick for one paddle: reads the side's axis sample, applies the
    /// angular displacement, clamps the result into the paddle's arc, and
    /// reports the motion to perform.  A missing binding or an exactly
    /// zero sample short-circuits to [`PaddleAction::NoChange`], so
    /// no-input ticks write nothing at all.
    pub fn run(&self, paddle: &Paddle, angle: i64, input: &InputSnapshot) -> (act: PaddleAction)
        requires
            paddle.wf(),
        ensures
            act == run_spec(*paddle, angle as int, *input),
            spec_axis(*input, paddle.side) is None ==> act == PaddleAction::NoChange,
            spec_axis(*input, paddle.side) == Option::Some(0i64) ==> act
                == PaddleAction::NoChange,
            action_in_arc(act, paddle.min_angle as int, paddle.max_angle as int),
    {
        let movement: Option<i64> = match paddle.side {
            Side::Left => input.left_paddle,
            Side::Right => input.right_paddle,
        };
        match movement {
            None => PaddleAction::NoChange,
            Some(delta) => {
                if delta == 0 {
                    PaddleAction::NoChange
                } else {
                    let na = normalize_angle(angle);
                    let nd = normalize_angle(delta);
                    let candidate = na + nd;
                    let new_angle = clamp_angle(candidate, paddle.min_angle, paddle.max_angle);
                    proof {
                        let min = paddle.min_angle as int;
                        let max = paddle.max_angle as int;
                        lemma_clamp_in_arc(candidate as int, min, max);
                        let b = choose|b: int|
                            congruent(b, clamp_spec(candidate as int, min, max)) && min <= b
                                <= max;
                        assert(congruent(b, new_angle as int) && min <= b <= max);
                        assert(angle_within_arc(new_angle as int, min, max));
                    }
                    PaddleAction::Move { new_angle, roll_delta: na - new_angle }
                }
            },
        }
    }
}

} // verus!
