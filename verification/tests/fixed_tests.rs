//! Fixed-point arithmetic: saturation, wrapping, and the trigonometric
//! approximation at its exact anchor points.

use tick_engine::fixed::{
    clamp_i64, cos_fp, sat_add, sat_neg, sin_fp, wrap_angle, ANGLE_FULL_TURN, ANGLE_HALF_TURN,
    ANGLE_QUARTER_TURN, TRIG_SCALE,
};

#[test]
fn sat_add_saturates_at_both_bounds() {
    assert_eq!(sat_add(i64::MAX, 1), i64::MAX);
    assert_eq!(sat_add(i64::MIN, -1), i64::MIN);
    assert_eq!(sat_add(40, 2), 42);
    assert_eq!(sat_add(-40, -2), -42);
}

#[test]
fn sat_neg_saturates_the_smallest_value() {
    assert_eq!(sat_neg(i64::MIN), i64::MAX);
    assert_eq!(sat_neg(5), -5);
    assert_eq!(sat_neg(-5), 5);
    assert_eq!(sat_neg(0), 0);
}

#[test]
fn clamp_holds_the_band() {
    assert_eq!(clamp_i64(5, 0, 10), 5);
    assert_eq!(clamp_i64(-5, 0, 10), 0);
    assert_eq!(clamp_i64(15, 0, 10), 10);
}

#[test]
fn wrap_angle_reduces_onto_one_turn() {
    assert_eq!(wrap_angle(0), 0);
    assert_eq!(wrap_angle(ANGLE_FULL_TURN), 0);
    assert_eq!(wrap_angle(-1), ANGLE_FULL_TURN - 1);
    assert_eq!(wrap_angle(ANGLE_FULL_TURN + 7), 7);
    assert_eq!(wrap_angle(-3 * ANGLE_FULL_TURN - 1), ANGLE_FULL_TURN - 1);
}

#[test]
fn sine_anchor_points_are_exact() {
    assert_eq!(sin_fp(0), 0);
    assert_eq!(sin_fp(ANGLE_QUARTER_TURN), TRIG_SCALE);
    assert_eq!(sin_fp(ANGLE_HALF_TURN), 0);
    assert_eq!(sin_fp(ANGLE_HALF_TURN + ANGLE_QUARTER_TURN), -TRIG_SCALE);
}

#[test]
fn cosine_anchor_points_are_exact() {
    assert_eq!(cos_fp(0), TRIG_SCALE);
    assert_eq!(cos_fp(ANGLE_QUARTER_TURN), 0);
    assert_eq!(cos_fp(ANGLE_HALF_TURN), -TRIG_SCALE);
    assert_eq!(cos_fp(ANGLE_HALF_TURN + ANGLE_QUARTER_TURN), 0);
}

#[test]
fn sine_stays_within_scale() {
    let mut a: i64 = 0;
    while a < ANGLE_FULL_TURN {
        let s = sin_fp(a);
        assert!(s >= -TRIG_SCALE && s <= TRIG_SCALE);
        a += 4096;
    }
}
