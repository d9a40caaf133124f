use hallowden::units::{
    divide, integer_sqrt, saturate, settle, split_units, travel_in, HALF_UNIT, MICROS_PER_SECOND,
    UNIT,
};

#[test]
fn a_unit_has_a_million_sub_units() {
    assert_eq!(UNIT, 1_000_000);
    assert_eq!(HALF_UNIT, 500_000);
    assert_eq!(MICROS_PER_SECOND, 1_000_000);
}

#[test]
fn split_takes_out_the_nearest_whole_units() {
    assert_eq!(split_units(0), (0, 0));
    assert_eq!(split_units(499_999), (0, 499_999));
    assert_eq!(split_units(-499_999), (0, -499_999));
    assert_eq!(split_units(1_200_000), (1, 200_000));
    assert_eq!(split_units(1_700_000), (2, -300_000));
    assert_eq!(split_units(-1_200_000), (-1, -200_000));
    assert_eq!(split_units(-1_700_000), (-2, 300_000));
    assert_eq!(split_units(3_000_000), (3, 0));
}

#[test]
fn split_sends_halves_away_from_zero() {
    assert_eq!(split_units(500_000), (1, -500_000));
    assert_eq!(split_units(-500_000), (-1, 500_000));
    assert_eq!(split_units(1_500_000), (2, -500_000));
    assert_eq!(split_units(-1_500_000), (-2, 500_000));
    assert_eq!(split_units(2_500_000), (3, -500_000));
}

#[test]
fn split_handles_the_sum_of_two_extreme_distances() {
    let total = i64::MAX as i128 + i64::MAX as i128;
    let (units, rest) = split_units(total);
    assert_eq!(units as i128 * 1_000_000 + rest as i128, total);
    assert!(-500_000 <= rest && rest <= 500_000);
    let (units, rest) = split_units(-total);
    assert_eq!(units as i128 * 1_000_000 + rest as i128, -total);
    assert!(-500_000 <= rest && rest <= 500_000);
}

#[test]
fn saturate_stops_at_the_ends() {
    assert_eq!(saturate(0), 0);
    assert_eq!(saturate(-17), -17);
    assert_eq!(saturate(i64::MAX as i128), i64::MAX);
    assert_eq!(saturate(i64::MAX as i128 + 1), i64::MAX);
    assert_eq!(saturate(i64::MIN as i128 - 1), i64::MIN);
    assert_eq!(saturate(i128::MAX), i64::MAX);
    assert_eq!(saturate(i128::MIN), i64::MIN);
}

#[test]
fn divide_drops_the_fraction_towards_zero() {
    assert_eq!(divide(7, 2), 3);
    assert_eq!(divide(-7, 2), -3);
    assert_eq!(divide(6, 3), 2);
    assert_eq!(divide(-6, 3), -2);
    assert_eq!(divide(0, 5), 0);
    assert_eq!(divide(-1, 5), 0);
}

#[test]
fn travel_is_speed_times_time() {
    assert_eq!(travel_in(15_000_000, 16_667), 250_005);
    assert_eq!(travel_in(-15_000_000, 16_667), -250_005);
    assert_eq!(travel_in(9_800_000, 100_000), 980_000);
    assert_eq!(travel_in(1, 999_999), 0);
    assert_eq!(travel_in(-1, 999_999), 0);
    assert_eq!(travel_in(123, 0), 0);
    assert_eq!(travel_in(3, 1_000_000), 3);
}

#[test]
fn travel_saturates() {
    assert_eq!(travel_in(i64::MAX, u32::MAX), i64::MAX);
    assert_eq!(travel_in(i64::MIN, u32::MAX), i64::MIN);
    assert_eq!(travel_in(i64::MAX, 1_000_000), i64::MAX);
    assert_eq!(travel_in(i64::MIN, 1_000_000), i64::MIN);
}

#[test]
fn settle_gives_a_grid_point_and_the_rest() {
    assert_eq!(settle(0), (0, 0));
    assert_eq!(settle(600_000), (1, -400_000));
    assert_eq!(settle(-2_400_000), (-2, -400_000));
    assert_eq!(settle(i32::MAX as i128 * 1_000_000 + 499_999), (i32::MAX, 499_999));
}

#[test]
fn settle_stops_at_the_end_of_the_grid() {
    assert_eq!(settle(i32::MAX as i128 * 1_000_000 + 500_000), (i32::MAX, 0));
    assert_eq!(settle(i32::MIN as i128 * 1_000_000 - 500_000), (i32::MIN, 0));
    assert_eq!(settle(i64::MAX as i128), (i32::MAX, 0));
    assert_eq!(settle(i64::MIN as i128), (i32::MIN, 0));
}

#[test]
fn integer_sqrt_is_the_whole_part_of_the_root() {
    assert_eq!(integer_sqrt(0), 0);
    assert_eq!(integer_sqrt(1), 1);
    assert_eq!(integer_sqrt(2), 1);
    assert_eq!(integer_sqrt(3), 1);
    assert_eq!(integer_sqrt(4), 2);
    assert_eq!(integer_sqrt(15), 3);
    assert_eq!(integer_sqrt(16), 4);
    assert_eq!(integer_sqrt(17), 4);
    assert_eq!(integer_sqrt(8_410_000_000_000_000), 91_706_052);
    assert_eq!(integer_sqrt(1_000_000_000_000_000_000_000_000), 1_000_000_000_000);
    assert_eq!(integer_sqrt(999_999_999_999_999_999_999_999), 999_999_999_999);
    assert_eq!(integer_sqrt(1u128 << 125), 6_521_908_912_666_391_106);
}
