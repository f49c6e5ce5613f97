use snap_grid::rounding::{ceil_div_i64, floor_div_i64, round_div_i64};

#[test]
fn floor_rounds_down_on_both_sides_of_zero() {
    assert_eq!(floor_div_i64(0, 10), 0);
    assert_eq!(floor_div_i64(9, 10), 0);
    assert_eq!(floor_div_i64(10, 10), 1);
    assert_eq!(floor_div_i64(19, 10), 1);
    assert_eq!(floor_div_i64(-1, 10), -1);
    assert_eq!(floor_div_i64(-10, 10), -1);
    assert_eq!(floor_div_i64(-11, 10), -2);
}

#[test]
fn ceil_rounds_up_on_both_sides_of_zero() {
    assert_eq!(ceil_div_i64(0, 10), 0);
    assert_eq!(ceil_div_i64(1, 10), 1);
    assert_eq!(ceil_div_i64(10, 10), 1);
    assert_eq!(ceil_div_i64(11, 10), 2);
    assert_eq!(ceil_div_i64(-1, 10), 0);
    assert_eq!(ceil_div_i64(-9, 10), 0);
    assert_eq!(ceil_div_i64(-10, 10), -1);
    assert_eq!(ceil_div_i64(-11, 10), -1);
}

#[test]
fn round_goes_to_the_nearest() {
    assert_eq!(round_div_i64(0, 250), 0);
    assert_eq!(round_div_i64(124, 250), 0);
    assert_eq!(round_div_i64(126, 250), 1);
    assert_eq!(round_div_i64(374, 250), 1);
    assert_eq!(round_div_i64(376, 250), 2);
    assert_eq!(round_div_i64(-124, 250), 0);
    assert_eq!(round_div_i64(-126, 250), -1);
    assert_eq!(round_div_i64(-376, 250), -2);
}

#[test]
fn round_sends_ties_away_from_zero() {
    assert_eq!(round_div_i64(125, 250), 1);
    assert_eq!(round_div_i64(-125, 250), -1);
    assert_eq!(round_div_i64(375, 250), 2);
    assert_eq!(round_div_i64(-375, 250), -2);
    assert_eq!(round_div_i64(1, 2), 1);
    assert_eq!(round_div_i64(-1, 2), -1);
}

#[test]
fn round_with_an_odd_step_has_no_ties() {
    assert_eq!(round_div_i64(1, 3), 0);
    assert_eq!(round_div_i64(2, 3), 1);
    assert_eq!(round_div_i64(-1, 3), 0);
    assert_eq!(round_div_i64(-2, 3), -1);
}

#[test]
fn division_by_one_is_the_identity() {
    for a in [i64::MIN, i64::MIN + 1, -1, 0, 1, i64::MAX - 1, i64::MAX] {
        assert_eq!(floor_div_i64(a, 1), a);
        assert_eq!(ceil_div_i64(a, 1), a);
        assert_eq!(round_div_i64(a, 1), a);
    }
}

#[test]
fn the_ends_of_the_integer_range_divide() {
    assert_eq!(round_div_i64(i64::MAX, 2), 4_611_686_018_427_387_904);
    assert_eq!(round_div_i64(i64::MIN, 2), -4_611_686_018_427_387_904);
    assert_eq!(floor_div_i64(i64::MIN, 2), -4_611_686_018_427_387_904);
    assert_eq!(ceil_div_i64(i64::MIN, 2), -4_611_686_018_427_387_904);
    assert_eq!(floor_div_i64(i64::MAX, 2), 4_611_686_018_427_387_903);
    assert_eq!(ceil_div_i64(i64::MAX, 2), 4_611_686_018_427_387_904);
    assert_eq!(floor_div_i64(i64::MIN, i64::MAX), -2);
    assert_eq!(ceil_div_i64(i64::MIN, i64::MAX), -1);
    assert_eq!(round_div_i64(i64::MIN, i64::MAX), -1);
    assert_eq!(round_div_i64(i64::MAX, i64::MAX), 1);
}

#[test]
fn the_three_roundings_agree_with_one_another() {
    for d in [1i64, 2, 3, 7, 10, 250] {
        for a in -1000i64..=1000 {
            let f = floor_div_i64(a, d);
            let c = ceil_div_i64(a, d);
            let r = round_div_i64(a, d);
            assert!(f * d <= a && a < f * d + d);
            assert!(c * d - d < a && a <= c * d);
            assert!(r == f || r == c);
            assert!(2 * (a - r * d).abs() <= d);
            assert_eq!(round_div_i64(-a, d), -r);
        }
    }
}
