use basilisk::arithmetic::{percent, Permill};

#[test]
fn permill_from_percent_caps_at_one_hundred() {
    assert_eq!(Permill::from_percent(10).deconstruct(), 100_000);
    assert_eq!(Permill::from_percent(100).deconstruct(), 1_000_000);
    assert_eq!(Permill::from_percent(250).deconstruct(), 1_000_000);
    assert_eq!(Permill::zero().deconstruct(), 0);
}

#[test]
fn permill_from_parts_caps_at_one() {
    assert_eq!(Permill::from_parts(1).deconstruct(), 1);
    assert_eq!(Permill::from_parts(2_000_000).deconstruct(), 1_000_000);
}

#[test]
fn permill_mul_floor_and_ceil_round_as_documented() {
    let p = Permill::from_percent(10);
    assert_eq!(p.mul_floor(1_005), 100);
    assert_eq!(p.mul_ceil(1_005), 101);
    assert_eq!(p.mul_floor(1_000), 100);
    assert_eq!(p.mul_ceil(1_000), 100);
    assert_eq!(Permill::from_parts(1).mul_ceil(1), 1);
    assert_eq!(Permill::from_parts(1).mul_floor(999_999), 0);
    assert_eq!(Permill::from_percent(100).mul_floor(u128::MAX), u128::MAX);
    assert_eq!(Permill::from_percent(50).mul_floor(u128::MAX), u128::MAX / 2);
}

#[test]
fn percent_is_a_hundredth() {
    // FixedI64 holds 10^9 parts per unit.
    assert_eq!(percent(0).inner, 0);
    assert_eq!(percent(1).inner, 10_000_000);
    assert_eq!(percent(50).inner, 500_000_000);
    assert_eq!(percent(100).inner, 1_000_000_000);
}
