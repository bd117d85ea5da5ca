use zoompan::animation::spring_animation;
use zoompan::fixed::ONE;
use zoompan::smoothing::{
    SmoothAnimation, BUFFER_SIZE, EMA_ALPHA, SHAKE_SMOOTHING_FACTOR, SHAKE_THRESHOLD, SHAKE_WINDOW,
};

#[test]
fn smoothing_constants() {
    assert_eq!(BUFFER_SIZE, 10);
    assert_eq!(SHAKE_WINDOW, 5);
    assert_eq!(EMA_ALPHA, 200_000);
    assert_eq!(SHAKE_THRESHOLD, 10_000);
    assert_eq!(SHAKE_SMOOTHING_FACTOR, 500_000);
}

#[test]
fn spring_pulls_toward_the_target() {
    // force = (100 - 40) * 0.5 - 10 * 0.25 = 27.5; velocity 10 + 27.5
    assert_eq!(
        spring_animation(100 * ONE, 40 * ONE, 10 * ONE, 500_000, 250_000, 0),
        37_500_000
    );
    // pulling down
    assert_eq!(
        spring_animation(40 * ONE, 100 * ONE, 0, 500_000, 250_000, -ONE),
        -30_000_000
    );
    // rounding toward zero: 1 * 0.333333 = 0.333333 -> 0.333333 units
    assert_eq!(spring_animation(1, 0, 0, 333_333, 0, 0), 0);
    assert_eq!(spring_animation(3, 0, 0, 333_334, 0, 0), 1);
    assert_eq!(spring_animation(-3, 0, 0, 333_334, 0, 0), -1);
}

#[test]
fn spring_stands_still_beyond_its_target() {
    // asked to move down but already below the target
    assert_eq!(spring_animation(100 * ONE, 40 * ONE, 10 * ONE, 500_000, 250_000, -1), 0);
    // asked to move up but already above the target
    assert_eq!(spring_animation(40 * ONE, 100 * ONE, 10 * ONE, 500_000, 250_000, 1), 0);
    // at the target the direction does not matter
    assert_eq!(spring_animation(7, 7, 4 * ONE, ONE, 500_000, 1), 2 * ONE);
    assert_eq!(spring_animation(7, 7, 4 * ONE, ONE, 500_000, -1), 2 * ONE);
    // at rest on its target a spring stays there, whatever its tension
    assert_eq!(spring_animation(7, 7, 0, i64::MAX, i64::MIN, 0), 0);
    assert_eq!(spring_animation(-3, -3, 0, 5_000_000_000_000, 9, 1), 0);
}

#[test]
fn spring_takes_any_tension_and_friction() {
    // tension 5000: force = 2 * 5000 = 10000
    assert_eq!(spring_animation(2 * ONE, 0, 0, 5_000 * ONE, 0, 0), 10_000 * ONE);
    // friction 2000 on a velocity of 3: force = -6000, step = 3 - 6000
    assert_eq!(spring_animation(0, 0, 3 * ONE, 0, 2_000 * ONE, 0), -5_997 * ONE);
    // both products are huge and nearly cancel:
    // (2^62 * (2^62 + 3) - 2^62 * 2^62) / 10^6 = 3 * 2^62 / 10^6
    let big: i64 = 1 << 62;
    assert_eq!(spring_animation(big, 0, big, big + 3, big, 0), big + 13_835_058_055_282);
    assert_eq!(spring_animation(big, 0, big, big, big + 3, 0), big - 13_835_058_055_282);
    // rounding toward zero on both sides of nothing
    assert_eq!(spring_animation(1, 0, 1, 1_999_999, 1_000_000, 0), 1);
    assert_eq!(spring_animation(1, 0, 1, 1_000_000, 1_999_999, 0), 1);
    assert_eq!(spring_animation(1, 0, 1, 1_000_000, 2_000_000, 0), 0);
}

#[test]
fn moving_mean_covers_the_last_ten_values() {
    let mut smooth = SmoothAnimation::new();
    assert!(!smooth.is_shaky());
    assert_eq!(smooth.update(10 * ONE), 10 * ONE);
    assert_eq!(smooth.update(20 * ONE), 15 * ONE);
    assert_eq!(smooth.update(30 * ONE), 20 * ONE);
    for _ in 0..7 {
        smooth.update(30 * ONE);
    }
    // ten values: 10, 20 and eight times 30
    // the next value pushes the 10 out: 20 and nine times 30
    assert_eq!(smooth.update(30 * ONE), 29 * ONE);
    assert_eq!(smooth.update(30 * ONE), 30 * ONE);
}

#[test]
fn moving_mean_rounds_toward_zero() {
    let mut smooth = SmoothAnimation::new();
    smooth.update(1);
    assert_eq!(smooth.update(2), 1);
    let mut smooth = SmoothAnimation::new();
    smooth.update(-1);
    assert_eq!(smooth.update(-2), -1);
    let mut smooth = SmoothAnimation::new();
    smooth.update(i64::MAX);
    assert_eq!(smooth.update(i64::MAX), i64::MAX);
    smooth.update(i64::MIN);
    assert_eq!(smooth.update(i64::MIN), 0);
}

#[test]
fn shaky_input_is_mixed_with_the_newest_value() {
    let mut smooth = SmoothAnimation::new();
    // four values that swing up and down by a full unit
    smooth.update(0);
    smooth.update(ONE);
    smooth.update(0);
    smooth.update(ONE);
    assert!(!smooth.is_shaky());
    // the fifth completes the window: changes +1, -1, +1, -1 turn three times
    let value = smooth.update(0);
    assert!(smooth.is_shaky());
    // the mean of 0, 1, 0, 1, 0 is 0.4; half of it and half of 0
    assert_eq!(value, 200_000);
    // a sixth value keeps the window shaky: mean of six values is 0.5
    let value = smooth.update(ONE);
    assert!(smooth.is_shaky());
    assert_eq!(value, 750_000);
}

#[test]
fn small_changes_do_not_count_as_moves() {
    let mut smooth = SmoothAnimation::new();
    for value in [0, SHAKE_THRESHOLD, 0, SHAKE_THRESHOLD, 0, SHAKE_THRESHOLD] {
        smooth.update(value);
        assert!(!smooth.is_shaky());
    }
    let mut smooth = SmoothAnimation::new();
    for value in [0, SHAKE_THRESHOLD + 1, 0, SHAKE_THRESHOLD + 1, 0] {
        smooth.update(value);
    }
    assert!(smooth.is_shaky());
    // two turns are not enough
    let mut smooth = SmoothAnimation::new();
    for value in [0, ONE, 2 * ONE, ONE, 2 * ONE] {
        smooth.update(value);
    }
    assert!(!smooth.is_shaky());
    // a pause between two moves does not hide the turn
    let mut smooth = SmoothAnimation::new();
    for value in [0, ONE, ONE, 0, ONE, 0, ONE] {
        smooth.update(value);
    }
    // the window holds 1, 0, 1, 0, 1
    assert!(smooth.is_shaky());
}

#[test]
fn velocity_average_moves_a_fifth_of_the_way() {
    let mut smooth = SmoothAnimation::new();
    assert_eq!(smooth.smooth_velocity(10 * ONE), 2 * ONE);
    assert_eq!(smooth.smooth_velocity(10 * ONE), 3_600_000);
    assert_eq!(smooth.smooth_velocity(-10 * ONE), 880_000);
    let mut smooth = SmoothAnimation::new();
    assert_eq!(smooth.smooth_velocity(4), 0);
    assert_eq!(smooth.smooth_velocity(-4), 0);
    assert_eq!(smooth.smooth_velocity(i64::MAX), i64::MAX / 5);
    let mut smooth = SmoothAnimation::new();
    assert_eq!(smooth.smooth_velocity(i64::MIN), i64::MIN / 5);
}
