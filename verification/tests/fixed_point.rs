use vibe_invaders::fixed::{fixed_add, fixed_div, fixed_mul, fixed_norm, isqrt, ONE};

#[test]
fn product_of_speed_and_time() {
    assert_eq!(fixed_mul(300 * ONE, 16_667), 5_000_100);
    assert_eq!(fixed_mul(-300 * ONE, 16_667), -5_000_100);
    assert_eq!(fixed_mul(3, 333_333), 0);
    assert_eq!(fixed_mul(-3, 333_334), -1);
}

#[test]
fn sums_stop_at_the_ends_of_the_range() {
    assert_eq!(fixed_add(i64::MAX, 1), i64::MAX);
    assert_eq!(fixed_add(i64::MIN, -1), i64::MIN);
    assert_eq!(fixed_add(2, 3), 5);
}

#[test]
fn quotients() {
    assert_eq!(fixed_div(ONE, 2 * ONE), 500_000);
    assert_eq!(fixed_div(-ONE, 3 * ONE), -333_333);
    assert_eq!(fixed_div(ONE, -3 * ONE), -333_333);
    assert_eq!(fixed_div(5, 0), i64::MAX);
    assert_eq!(fixed_div(-5, 0), i64::MIN);
    assert_eq!(fixed_div(0, 0), 0);
}

#[test]
fn square_roots() {
    assert_eq!(isqrt(0), 0);
    assert_eq!(isqrt(15), 3);
    assert_eq!(isqrt(16), 4);
    assert_eq!(isqrt(u128::MAX), u64::MAX);
    assert_eq!(fixed_norm(3 * ONE, -4 * ONE), 5 * ONE);
    assert_eq!(fixed_norm(i64::MIN, i64::MIN), i64::MAX);
}
