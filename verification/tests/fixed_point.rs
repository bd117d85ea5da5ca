use zoompan::animation::{frictional_animation, settle_dimension, step_toward, STANDARD_DECAY};
use zoompan::fixed::{clamp_to, clamp_wide, floor_div, make_even, pixels, round_whole, HALF, ONE};

#[test]
fn make_even_rounds_down() {
    assert_eq!(make_even(0), 0);
    assert_eq!(make_even(1), 0);
    assert_eq!(make_even(2), 2);
    assert_eq!(make_even(7), 6);
    assert_eq!(make_even(1080), 1080);
    assert_eq!(make_even(u32::MAX), u32::MAX - 1);
}

#[test]
fn clamp_keeps_values_in_range() {
    assert_eq!(clamp_to(5, 0, 10), 5);
    assert_eq!(clamp_to(-5, 0, 10), 0);
    assert_eq!(clamp_to(15, 0, 10), 10);
    assert_eq!(clamp_to(3, 7, 2), 7);
    assert_eq!(clamp_wide(i128::MAX, -4, 9), 9);
    assert_eq!(clamp_wide(i128::MIN, -4, 9), -4);
    assert_eq!(clamp_wide(6, -4, 9), 6);
}

#[test]
fn floor_div_rounds_toward_minus_infinity() {
    assert_eq!(floor_div(7, 2), 3);
    assert_eq!(floor_div(-7, 2), -4);
    assert_eq!(floor_div(-8, 2), -4);
    assert_eq!(floor_div(-1, 1_000_000), -1);
    assert_eq!(floor_div(0, 5), 0);
    assert_eq!(floor_div(i128::MIN, 1), i128::MIN);
    assert_eq!(floor_div(i128::MIN, 2), i128::MIN / 2);
}

#[test]
fn rounding_to_whole_pixels_sends_halves_up() {
    assert_eq!(round_whole(0), 0);
    assert_eq!(round_whole(HALF - 1), 0);
    assert_eq!(round_whole(HALF), 1);
    assert_eq!(round_whole(1_499_999), 1);
    assert_eq!(round_whole(1_500_000), 2);
    assert_eq!(round_whole(pixels(1920)), 1920);
    assert_eq!(round_whole(-HALF), 0);
    assert_eq!(round_whole(-HALF - 1), -1);
    assert_eq!(round_whole(-1_500_000), -1);
    assert_eq!(round_whole(i64::MAX), 9_223_372_036_855);
    assert_eq!(round_whole(i64::MIN), -9_223_372_036_855);
}

#[test]
fn pixels_are_millionths() {
    assert_eq!(pixels(0), 0);
    assert_eq!(pixels(1), ONE);
    assert_eq!(pixels(u32::MAX), 4_294_967_295_000_000);
}

#[test]
fn frictional_step_is_the_decayed_distance() {
    // (960 - 1920) px * 0.018316 = -17.58336 px
    assert_eq!(frictional_animation(pixels(960), pixels(1920), 0, STANDARD_DECAY), -17_583_360);
    assert_eq!(frictional_animation(pixels(1920), pixels(960), 0, STANDARD_DECAY), 17_583_360);
    // a distance too short to move: 54 units * 0.018316 < 1 unit
    assert_eq!(frictional_animation(54, 0, 0, STANDARD_DECAY), 0);
    assert_eq!(frictional_animation(55, 0, 0, STANDARD_DECAY), 1);
    assert_eq!(frictional_animation(-55, 0, 0, STANDARD_DECAY), -1);
    assert_eq!(frictional_animation(10, 0, 0, ONE), 10);
    assert_eq!(frictional_animation(10, 0, 0, 0), 0);
    // the velocity makes no difference
    assert_eq!(frictional_animation(55, 0, i64::MAX, STANDARD_DECAY), 1);
}

#[test]
fn settle_guards_against_overshoot() {
    // zooming in: never below the target
    assert_eq!(settle_dimension(pixels(100), pixels(200), STANDARD_DECAY, true, true), pixels(200));
    assert_eq!(
        settle_dimension(pixels(1920), pixels(960), STANDARD_DECAY, true, true),
        pixels(1920) - 17_583_360
    );
    // zooming out: never above the target
    assert_eq!(settle_dimension(pixels(300), pixels(200), STANDARD_DECAY, true, false), pixels(200));
    assert_eq!(
        settle_dimension(pixels(960), pixels(1920), STANDARD_DECAY, true, false),
        pixels(960) + 17_583_360
    );
    // idle: no step, only the guard
    assert_eq!(settle_dimension(pixels(100), pixels(200), STANDARD_DECAY, false, false), pixels(100));
    assert_eq!(settle_dimension(pixels(300), pixels(200), STANDARD_DECAY, false, false), pixels(200));
}

#[test]
fn settle_survives_the_extremes() {
    assert_eq!(settle_dimension(i64::MIN, i64::MAX, ONE, true, false), i64::MAX);
    assert_eq!(settle_dimension(i64::MAX, i64::MIN, ONE, true, true), i64::MIN);
    assert_eq!(settle_dimension(i64::MIN, i64::MAX, ONE, true, true), i64::MAX);
    assert_eq!(settle_dimension(i64::MAX, i64::MIN, ONE, true, false), i64::MIN);
    assert_eq!(settle_dimension(i64::MAX, i64::MIN, 0, true, false), i64::MIN);
}

#[test]
fn distance_to_a_fixed_target_never_grows_and_settles() {
    let target = pixels(960);
    let mut current = pixels(1920);
    let mut distance = (current - target).abs();
    // frames_to_halve(18316) = 55; the start is under 2^30 units from the
    // target, so 30 halvings bring the excess to nothing.
    let frames = 30 * 55;
    for _ in 0..frames {
        current = settle_dimension(current, target, STANDARD_DECAY, true, true);
        let next = (current - target).abs();
        assert!(next <= distance);
        distance = next;
    }
    assert!(current >= target);
    assert!(distance * STANDARD_DECAY <= ONE);
}

#[test]
fn distance_halves_within_fifty_five_frames() {
    let target = pixels(1000);
    let mut current = pixels(3000);
    for _ in 0..55 {
        current = settle_dimension(current, target, STANDARD_DECAY, true, true);
    }
    assert!(current - target <= pixels(1000));
    assert!(current - target > pixels(700));
}

#[test]
fn a_step_stays_between_start_and_target() {
    assert_eq!(step_toward(pixels(1920), pixels(960), STANDARD_DECAY), pixels(1920) - 17_583_360);
    assert_eq!(step_toward(pixels(960), pixels(1920), STANDARD_DECAY), pixels(960) + 17_583_360);
    assert_eq!(step_toward(5, 5, STANDARD_DECAY), 5);
    assert_eq!(step_toward(i64::MIN, i64::MAX, ONE), i64::MAX);
    assert_eq!(step_toward(i64::MAX, i64::MIN, ONE), i64::MIN);
    assert_eq!(step_toward(i64::MAX, i64::MIN, 0), i64::MAX);
}
