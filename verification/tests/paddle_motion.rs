//! Tests for the wrap-aware clamp and for the per-tick motion system.

use arc_pong::pong::{Paddle, Side, PI_THIRD_UNITS, PI_UNITS};
use arc_pong::systems::paddle::{clamp_angle, InputSnapshot, PaddleAction, PaddleSystem};

/// 0.05 radians — the per-tick gain for a full axis deflection — in angle
/// units, rounded to the nearest unit.
const FULL_AXIS_TICK: i64 = 47_746_483;

fn no_input() -> InputSnapshot {
    InputSnapshot { left_paddle: None, right_paddle: None }
}

#[test]
fn clamp_inside_arc_returns_candidate() {
    assert_eq!(clamp_angle(500_000_000, -1_000_000_000, 1_000_000_000), 500_000_000);
    assert_eq!(clamp_angle(-999_999_999, -1_000_000_000, 1_000_000_000), -999_999_999);
    assert_eq!(clamp_angle(1_000_000_000, -1_000_000_000, 1_000_000_000), 1_000_000_000);
}

#[test]
fn clamp_snaps_to_nearer_bound() {
    assert_eq!(clamp_angle(-1_100_000_000, -1_000_000_000, 1_000_000_000), -1_000_000_000);
    assert_eq!(clamp_angle(1_100_000_000, -1_000_000_000, 1_000_000_000), 1_000_000_000);
}

#[test]
fn clamp_arc_straddling_the_seam() {
    // An arc around π, stated with a bound beyond PI_UNITS, still accepts
    // a candidate that is expressed on the other side of the seam.
    assert_eq!(clamp_angle(-2_900_000_000, 2_500_000_000, 3_500_000_000), -2_900_000_000);
    // A candidate below the arc snaps to the lower bound.
    assert_eq!(clamp_angle(2_000_000_000, 2_500_000_000, 3_500_000_000), 2_500_000_000);
}

#[test]
fn clamp_degenerate_arc_freezes() {
    // A zero-width arc resolves every candidate to its single angle.
    assert_eq!(clamp_angle(500, 1_000, 1_000), 1_000);
    assert_eq!(clamp_angle(1_000, 1_000, 1_000), 1_000);
    assert_eq!(clamp_angle(-2_000_000_000, 1_000, 1_000), 1_000);
}

#[test]
fn clamp_containment_sampled() {
    // Starting anywhere inside the right paddle's arc, ticks of less than
    // half a turn never land outside it.
    let (min, max) = (-PI_THIRD_UNITS, PI_THIRD_UNITS);
    let angles: [i64; 5] = [min, -123_456_789, 0, 777_777_777, max];
    let deltas: [i64; 8] = [
        -PI_UNITS + 1,
        -FULL_AXIS_TICK,
        -1,
        0,
        1,
        FULL_AXIS_TICK,
        1_999_999_999,
        PI_UNITS - 1,
    ];
    for &a in angles.iter() {
        for &d in deltas.iter() {
            let r = clamp_angle(a + d, min, max);
            assert!(min <= r && r <= max, "start {} tick {} ended at {}", a, d, r);
        }
    }
}

#[test]
fn scenario_left_paddle_moves_freely_at_rest() {
    // Left paddle at its resting angle π, full positive deflection: the
    // candidate π + 0.05 is well inside the wide arc, so the move is
    // unclamped and the roll is exactly minus the tick.
    let sys = PaddleSystem;
    let paddle = Paddle::new(Side::Left);
    let input = InputSnapshot { left_paddle: Some(FULL_AXIS_TICK), right_paddle: None };
    let act = sys.run(&paddle, PI_UNITS, &input);
    assert_eq!(
        act,
        PaddleAction::Move {
            new_angle: PI_UNITS + FULL_AXIS_TICK,
            roll_delta: -FULL_AXIS_TICK,
        }
    );
}

#[test]
fn scenario_right_paddle_snaps_to_upper_bound() {
    // Right paddle near its upper bound π/3: a full positive deflection
    // overshoots the arc and the clamp snaps to the bound.
    let sys = PaddleSystem;
    let paddle = Paddle::new(Side::Right);
    let angle: i64 = 954_929_659;  // 1.0 radian in angle units
    let input = InputSnapshot { left_paddle: None, right_paddle: Some(FULL_AXIS_TICK) };
    let act = sys.run(&paddle, angle, &input);
    assert_eq!(
        act,
        PaddleAction::Move {
            new_angle: PI_THIRD_UNITS,
            roll_delta: angle - PI_THIRD_UNITS,
        }
    );
}

#[test]
fn scenario_zero_axis_changes_nothing() {
    // An axis sample of exactly zero short-circuits: no write at all.
    let sys = PaddleSystem;
    let input = InputSnapshot { left_paddle: Some(0), right_paddle: Some(0) };
    for side in [Side::Left, Side::Right] {
        let paddle = Paddle::new(side);
        let angles: [i64; 3] = [0, PI_UNITS, -500_000_000];
        for &a in angles.iter() {
            assert_eq!(sys.run(&paddle, a, &input), PaddleAction::NoChange);
        }
    }
}

#[test]
fn missing_binding_is_a_no_op() {
    let sys = PaddleSystem;
    for side in [Side::Left, Side::Right] {
        let paddle = Paddle::new(side);
        assert_eq!(sys.run(&paddle, PI_UNITS, &no_input()), PaddleAction::NoChange);
    }
}

#[test]
fn each_side_reads_its_own_axis() {
    let sys = PaddleSystem;
    // Only the left axis carries input: the right paddle must not move.
    let left_only = InputSnapshot { left_paddle: Some(FULL_AXIS_TICK), right_paddle: None };
    let right = Paddle::new(Side::Right);
    assert_eq!(sys.run(&right, 0, &left_only), PaddleAction::NoChange);
    // And the left paddle does.
    let left = Paddle::new(Side::Left);
    assert!(sys.run(&left, PI_UNITS, &left_only) != PaddleAction::NoChange);
}

#[test]
fn run_result_stays_inside_the_arc() {
    // End to end: wherever the right paddle starts inside its arc, one
    // tick leaves its new angle inside the arc.
    let sys = PaddleSystem;
    let paddle = Paddle::new(Side::Right);
    let angles: [i64; 4] = [-PI_THIRD_UNITS, -1, 900_000_000, PI_THIRD_UNITS];
    let ticks: [i64; 4] = [-FULL_AXIS_TICK, -1, 1, FULL_AXIS_TICK];
    for &a in angles.iter() {
        for &d in ticks.iter() {
            let input = InputSnapshot { left_paddle: None, right_paddle: Some(d) };
            match sys.run(&paddle, a, &input) {
                PaddleAction::NoChange => {}
                PaddleAction::Move { new_angle, .. } => {
                    assert!(paddle.min_angle <= new_angle && new_angle <= paddle.max_angle);
                }
            }
        }
    }
}
