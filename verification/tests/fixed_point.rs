use rust_abm::fixed::{Fixed, DRAW_RANGE, LIMIT, SCALE};

#[test]
fn whole_numbers_are_scaled() {
    assert_eq!(SCALE, 1_000_000_000);
    assert_eq!(LIMIT, 100_000_000_000 * SCALE * SCALE);
    assert_eq!(Fixed::from_int(3).raw, 3_000_000_000);
    assert_eq!(Fixed::from_int(-7).raw, -7_000_000_000);
    assert_eq!(Fixed::one(), Fixed::from_int(1));
    assert_eq!(Fixed::zero().raw, 0);
    assert_eq!(Fixed::epsilon().raw, 1);
    assert_eq!(Fixed::lowest().raw, i128::MIN);
    assert_eq!(Fixed::from_nanos(42).raw, 42);
    assert_eq!(Fixed::from_micros(42).raw, 42_000);
    assert_eq!(Fixed::from_micros(-1_500_000), Fixed::from_nanos(-1_500_000_000));
    assert_eq!(Fixed::from_int(i64::MAX).raw, i64::MAX as i128 * SCALE);
    assert_eq!(Fixed::from_int(i64::MIN).raw, i64::MIN as i128 * SCALE);
    assert_eq!(Fixed::from_micros(i64::MIN).raw, i64::MIN as i128 * 1000);
}

#[test]
fn sums_and_differences_saturate() {
    let top = Fixed::from_nanos(LIMIT);
    let bottom = Fixed::from_nanos(-LIMIT);
    assert_eq!(top.plus(Fixed::one()), top);
    assert_eq!(bottom.minus(Fixed::one()), bottom);
    assert_eq!(bottom.neg(), top);
    assert_eq!(bottom.abs(), top);
    assert_eq!(top.plus(bottom), Fixed::zero());
    assert_eq!(Fixed::from_nanos(i128::MAX).plus(Fixed::from_nanos(i128::MAX)), top);
    assert_eq!(Fixed::from_nanos(i128::MIN).plus(Fixed::from_nanos(i128::MIN)), bottom);
    assert_eq!(Fixed::from_nanos(i128::MAX).minus(Fixed::from_nanos(i128::MIN)), top);
    assert_eq!(Fixed::from_nanos(i128::MIN).minus(Fixed::from_nanos(i128::MAX)), bottom);
    assert_eq!(Fixed::zero().minus(Fixed::from_nanos(i128::MIN)), top);
    assert_eq!(Fixed::from_nanos(i128::MIN).neg(), top);
    assert_eq!(Fixed::from_nanos(i128::MIN).abs(), top);
    assert_eq!(Fixed::from_nanos(i128::MAX).neg(), bottom);
    assert_eq!(Fixed::from_int(2).plus(Fixed::from_int(3)), Fixed::from_int(5));
    assert_eq!(Fixed::from_int(2).minus(Fixed::from_int(3)), Fixed::from_int(-1));
    assert_eq!(Fixed::from_int(-4).abs(), Fixed::from_int(4));
    assert_eq!(Fixed::from_int(4).neg(), Fixed::from_int(-4));
}

#[test]
fn products_round_towards_zero() {
    let a = Fixed::from_micros(1_500_000);
    let b = Fixed::from_micros(2_500_000);
    assert_eq!(a.times(b), Fixed::from_micros(3_750_000));
    let half = Fixed::from_micros(500_000);
    assert_eq!(Fixed::from_nanos(1).times(half).raw, 0);
    assert_eq!(Fixed::from_nanos(-1).times(half).raw, 0);
    assert_eq!(Fixed::from_nanos(3).times(half).raw, 1);
    assert_eq!(Fixed::from_nanos(-3).times(half).raw, -1);
    assert_eq!(Fixed::from_int(-2).times(Fixed::from_int(-3)), Fixed::from_int(6));
    assert_eq!(Fixed::from_int(-2).times(Fixed::zero()), Fixed::zero());
}

#[test]
fn products_saturate() {
    let top = Fixed::from_nanos(LIMIT);
    let bottom = Fixed::from_nanos(-LIMIT);
    assert_eq!(top.times(Fixed::from_int(2)), top);
    assert_eq!(top.times(Fixed::from_int(-2)), bottom);
    assert_eq!(bottom.times(bottom), top);
    assert_eq!(bottom.times(top), bottom);
    assert_eq!(top.times(Fixed::one()), top);
    assert_eq!(top.times(Fixed::from_micros(500_000)).raw, LIMIT / 2);
    let huge = Fixed::from_nanos(i128::MAX);
    let tiny = Fixed::from_nanos(i128::MIN);
    assert_eq!(huge.times(huge), top);
    assert_eq!(huge.times(tiny), bottom);
    assert_eq!(tiny.times(tiny), top);
    assert_eq!(huge.times(Fixed::one()), top);
    assert_eq!(Fixed::from_int(1_000_000_000_000).times(Fixed::from_int(1_000_000_000_000)), top);
    assert_eq!(
        Fixed::from_int(10_000_000_000).times(Fixed::from_int(10_000_000_000)).raw,
        LIMIT
    );
    assert_eq!(
        Fixed::from_int(1_000_000_000).times(Fixed::from_int(10_000_000_000)).raw,
        LIMIT / 10
    );
}

#[test]
fn quotients_round_towards_zero() {
    assert_eq!(Fixed::from_int(1).over(Fixed::from_int(3)).raw, 333_333_333);
    assert_eq!(Fixed::from_int(-1).over(Fixed::from_int(3)).raw, -333_333_333);
    assert_eq!(Fixed::from_int(1).over(Fixed::from_int(-3)).raw, -333_333_333);
    assert_eq!(Fixed::from_int(-1).over(Fixed::from_int(-3)).raw, 333_333_333);
    assert_eq!(Fixed::from_int(15).over(Fixed::from_int(2)), Fixed::from_micros(7_500_000));
    assert_eq!(Fixed::from_int(7).over(Fixed::from_nanos(i128::MIN)), Fixed::zero());
    assert_eq!(Fixed::from_int(-7).over(Fixed::from_nanos(i128::MAX)), Fixed::zero());
}

#[test]
fn quotients_saturate() {
    let top = Fixed::from_nanos(LIMIT);
    let bottom = Fixed::from_nanos(-LIMIT);
    assert_eq!(top.over(Fixed::epsilon()), top);
    assert_eq!(bottom.over(Fixed::epsilon()), bottom);
    assert_eq!(top.over(Fixed::from_nanos(-1)), bottom);
    assert_eq!(
        Fixed::from_int(100_000).over(Fixed::epsilon()),
        Fixed::from_nanos(100_000 * SCALE * SCALE)
    );
    assert_eq!(Fixed::from_nanos(i128::MAX).over(Fixed::from_int(4)).raw, LIMIT / 4);
    assert_eq!(Fixed::from_nanos(i128::MIN).over(Fixed::from_int(4)).raw, -LIMIT / 4);
}

#[test]
fn counts_multiply_and_divide() {
    assert_eq!(Fixed::from_micros(2_500_000).times_count(4), Fixed::from_int(10));
    assert_eq!(Fixed::from_nanos(LIMIT).times_count(2).raw, LIMIT);
    assert_eq!(Fixed::from_nanos(-LIMIT / 2).times_count(3).raw, -LIMIT);
    assert_eq!(Fixed::from_nanos(i128::MAX).times_count(u64::MAX).raw, LIMIT);
    assert_eq!(Fixed::from_nanos(i128::MIN).times_count(u64::MAX).raw, -LIMIT);
    assert_eq!(Fixed::from_nanos(i128::MIN).times_count(0).raw, 0);
    assert_eq!(Fixed::from_nanos(-5).times_count(u64::MAX).raw, -5 * u64::MAX as i128);
    assert_eq!(Fixed::from_int(10).over_count(4), Fixed::from_micros(2_500_000));
    assert_eq!(Fixed::from_nanos(-7).over_count(2).raw, -3);
    assert_eq!(Fixed::from_nanos(7).over_count(u64::MAX).raw, 0);
    assert_eq!(Fixed::from_nanos(i128::MIN).over_count(1).raw, i128::MIN);
}

#[test]
fn ratios_of_counts() {
    assert_eq!(Fixed::ratio(1, 4), Fixed::from_micros(250_000));
    assert_eq!(Fixed::ratio(3, 3), Fixed::one());
    assert_eq!(Fixed::ratio(0, 9), Fixed::zero());
    assert_eq!(Fixed::ratio(2, 3).raw, 666_666_666);
    assert_eq!(Fixed::ratio(u64::MAX, 1).raw, u64::MAX as i128 * SCALE);
    assert_eq!(Fixed::ratio(u64::MAX, u64::MAX), Fixed::one());
}

#[test]
fn whole_part_as_count() {
    assert_eq!(Fixed::from_micros(2_900_000).to_count(), 2);
    assert_eq!(Fixed::from_int(-1).to_count(), 0);
    assert_eq!(Fixed::from_nanos(999_999_999).to_count(), 0);
    assert_eq!(Fixed::from_int(5_000_000_000).to_count(), u32::MAX);
    assert_eq!(Fixed::from_int(4_294_967_295).to_count(), u32::MAX);
    assert_eq!(Fixed::from_int(4_294_967_294).to_count(), 4_294_967_294);
    assert_eq!(Fixed::from_nanos(i128::MAX).to_count(), u32::MAX);
    assert_eq!(Fixed::from_nanos(i128::MIN).to_count(), 0);
}

#[test]
fn larger_and_smaller() {
    let a = Fixed::from_int(2);
    let b = Fixed::from_int(-3);
    assert_eq!(a.max(b), a);
    assert_eq!(a.min(b), b);
    assert_eq!(a.max(a), a);
    assert_eq!(Fixed::lowest().max(b), b);
    assert_eq!(Fixed::lowest().max(Fixed::from_nanos(-LIMIT)), Fixed::from_nanos(-LIMIT));
}

#[test]
fn draws_compare_exactly() {
    let half = Fixed::from_micros(500_000);
    let middle = DRAW_RANGE / 2;
    assert!(half.exceeds_draw(middle - 1));
    assert!(!half.exceeds_draw(middle));
    assert!(!half.below_draw(middle));
    assert!(half.below_draw(middle + 1));
    assert!(!Fixed::zero().exceeds_draw(0));
    assert!(Fixed::one().exceeds_draw(DRAW_RANGE - 1));
    assert!(!Fixed::one().below_draw(DRAW_RANGE - 1));
    assert!(Fixed::from_int(-1).below_draw(0));
    assert!(Fixed::from_nanos(i128::MAX).exceeds_draw(u64::MAX));
    assert!(!Fixed::from_nanos(i128::MAX).below_draw(u64::MAX));
    assert!(Fixed::from_nanos(i128::MIN).below_draw(0));
    assert!(!Fixed::from_nanos(i128::MIN).exceeds_draw(0));
    let twentieth = Fixed::from_micros(50_000);
    assert!(twentieth.exceeds_draw(450_359_962_737_049));
    assert!(!twentieth.exceeds_draw(450_359_962_737_050));
}


#[test]
fn chances_of_one_and_zero_are_certain() {
    for draw in [0, 1, DRAW_RANGE / 2, DRAW_RANGE - 1] {
        assert!(Fixed::one().exceeds_draw(draw));
        assert!(!Fixed::one().below_draw(draw));
        assert!(!Fixed::zero().exceeds_draw(draw));
    }
    assert!(!Fixed::one().exceeds_draw(DRAW_RANGE));
}
