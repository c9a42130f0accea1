use wakey_2d_engine::motion::{
    abs_saturating, advance, center_offset, displace, neg_saturating, saturate_to_i32,
    saturate_to_u32, scale,
};

#[test]
fn displacement_of_a_tenth_of_a_second() {
    assert_eq!(displace(400, 100_000), 40);
    assert_eq!(displace(-400, 100_000), -40);
}

#[test]
fn displacement_rounds_toward_zero_both_ways() {
    assert_eq!(displace(1, 999_999), 0);
    assert_eq!(displace(-1, 999_999), 0);
    assert_eq!(displace(3, 500_000), 1);
    assert_eq!(displace(-3, 500_000), -1);
    assert_eq!(displace(7, 1_000_000), 7);
}

#[test]
fn displacement_is_zero_without_time_or_rate() {
    assert_eq!(displace(123_456, 0), 0);
    assert_eq!(displace(0, u64::MAX), 0);
}

#[test]
fn displacement_at_the_ends_of_the_ranges() {
    let max_time = u64::MAX as i128;
    assert_eq!(displace(i64::MAX, u64::MAX), (i64::MAX as i128) * max_time / 1_000_000);
    assert_eq!(displace(i64::MIN, u64::MAX), -((1i128 << 63) * max_time / 1_000_000));
}

#[test]
fn advance_adds_the_displacement() {
    assert_eq!(advance(395, 400, 100_000), 435);
    assert_eq!(advance(295, -400, 100_000), 255);
    assert_eq!(advance(-10, 5, 2_000_000), 0);
}

#[test]
fn advance_stops_at_the_ends_of_the_coordinate_range() {
    assert_eq!(advance(i32::MAX, 1, 1_000_000), i32::MAX);
    assert_eq!(advance(i32::MIN, -1, 1_000_000), i32::MIN);
    assert_eq!(advance(0, i64::MAX, u64::MAX), i32::MAX);
    assert_eq!(advance(0, i64::MIN, u64::MAX), i32::MIN);
}

#[test]
fn scale_multiplies_by_the_ratio() {
    assert_eq!(scale(10, 1440, 720), 20);
    assert_eq!(scale(-10, 1440, 720), -20);
    assert_eq!(scale(120, 360, 720), 60);
    assert_eq!(scale(400, 600, 600), 400);
}

#[test]
fn scale_rounds_toward_zero() {
    assert_eq!(scale(7, 1, 2), 3);
    assert_eq!(scale(-7, 1, 2), -3);
    assert_eq!(scale(1, 1, 3), 0);
}

#[test]
fn scale_by_a_zero_denominator_keeps_the_value() {
    assert_eq!(scale(5, 3, 0), 5);
    assert_eq!(scale(-5, 0, 0), -5);
}

#[test]
fn scale_to_a_zero_numerator_gives_zero() {
    assert_eq!(scale(5, 0, 3), 0);
}

#[test]
fn center_offset_halves_what_is_left_over() {
    assert_eq!(center_offset(720, 120), 300);
    assert_eq!(center_offset(800, 10), 395);
    assert_eq!(center_offset(600, 10), 295);
    assert_eq!(center_offset(11, 10), 0);
    assert_eq!(center_offset(10, 10), 0);
}

#[test]
fn center_offset_is_negative_for_an_extent_larger_than_the_span() {
    assert_eq!(center_offset(10, 20), -5);
    assert_eq!(center_offset(11, 20), -4);
    assert_eq!(center_offset(0, u32::MAX), -2147483647);
    assert_eq!(center_offset(u32::MAX, 0), 2147483647);
}

#[test]
fn saturation_to_the_coordinate_types() {
    assert_eq!(saturate_to_i32(5), 5);
    assert_eq!(saturate_to_i32(i32::MAX as i128 + 1), i32::MAX);
    assert_eq!(saturate_to_i32(i32::MIN as i128 - 1), i32::MIN);
    assert_eq!(saturate_to_u32(-1), 0);
    assert_eq!(saturate_to_u32(7), 7);
    assert_eq!(saturate_to_u32(u32::MAX as i128 + 1), u32::MAX);
}

#[test]
fn magnitude_and_negation_stop_at_the_largest_value() {
    assert_eq!(abs_saturating(-5), 5);
    assert_eq!(abs_saturating(5), 5);
    assert_eq!(abs_saturating(0), 0);
    assert_eq!(abs_saturating(i32::MIN), i32::MAX);
    assert_eq!(neg_saturating(5), -5);
    assert_eq!(neg_saturating(-5), 5);
    assert_eq!(neg_saturating(i32::MIN), i32::MAX);
    assert_eq!(neg_saturating(i32::MAX), i32::MIN + 1);
}
