use parkour_core::fixed::{clamp, diff, product, sum, SCALE};
use parkour_core::vector::Vec3;

#[test]
fn product_of_whole_numbers() {
    assert_eq!(product(1_500_000, 2_000_000), 3_000_000);
    assert_eq!(product(SCALE, 123_456), 123_456);
    assert_eq!(product(0, i64::MAX), 0);
}

#[test]
fn product_rounds_toward_zero() {
    assert_eq!(product(1, 500_000), 0);
    assert_eq!(product(-1, 500_000), 0);
    assert_eq!(product(3, 500_000), 1);
    assert_eq!(product(-3, 500_000), -1);
    assert_eq!(product(-19_620_000, 33_333), -653_993);
}

#[test]
fn product_saturates() {
    assert_eq!(product(i64::MAX, 2_000_000), i64::MAX);
    assert_eq!(product(i64::MIN, 2_000_000), i64::MIN);
    assert_eq!(product(i64::MIN, -2_000_000), i64::MAX);
    assert_eq!(product(i64::MIN, i64::MIN), i64::MAX);
}

#[test]
fn sum_and_diff_saturate() {
    assert_eq!(sum(2, 3), 5);
    assert_eq!(sum(i64::MAX, 1), i64::MAX);
    assert_eq!(sum(i64::MIN, -1), i64::MIN);
    assert_eq!(diff(2, 3), -1);
    assert_eq!(diff(i64::MIN, 1), i64::MIN);
    assert_eq!(diff(i64::MAX, -1), i64::MAX);
    assert_eq!(diff(0, i64::MIN), i64::MAX);
}

#[test]
fn clamp_holds_between_bounds() {
    assert_eq!(clamp(5, 0, 10), 5);
    assert_eq!(clamp(-5, 0, 10), 0);
    assert_eq!(clamp(15, 0, 10), 10);
    assert_eq!(clamp(7, 7, 7), 7);
}

#[test]
fn vector_arithmetic_is_componentwise() {
    let a = Vec3::new(1_000_000, -2_000_000, 3_000_000);
    let b = Vec3::new(500_000, 500_000, -500_000);
    assert_eq!(a.plus(b), Vec3::new(1_500_000, -1_500_000, 2_500_000));
    assert_eq!(a.minus(b), Vec3::new(500_000, -2_500_000, 3_500_000));
    assert_eq!(a.scaled(250_000), Vec3::new(250_000, -500_000, 750_000));
    assert_eq!(Vec3::new(i64::MAX, 0, 0).plus(Vec3::new(1, 0, 0)).x, i64::MAX);
}
