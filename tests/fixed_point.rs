use minigolf::fixed::{fixed_mul, isqrt, mul_div, Vec3};

#[test]
fn isqrt_exact_values() {
    assert_eq!(isqrt(0), 0);
    assert_eq!(isqrt(1), 1);
    assert_eq!(isqrt(15), 3);
    assert_eq!(isqrt(16), 4);
    assert_eq!(isqrt(2_000_000), 1414);
    assert_eq!(isqrt(u128::MAX), u64::MAX);
}

#[test]
fn length_of_three_four_five() {
    assert_eq!(Vec3::new(3000, 4000, 0).length(), 5000);
    assert_eq!(Vec3::new(3000, 4000, 0).length_squared(), 25_000_000);
}

#[test]
fn normalize_keeps_direction() {
    assert_eq!(Vec3::new(3000, 4000, 0).normalize(), Some(Vec3::new(600, 800, 0)));
    assert_eq!(Vec3::new(0, 0, -7).normalize(), Some(Vec3::new(0, 0, -1000)));
    assert_eq!(Vec3::zero().normalize(), None);
}

#[test]
fn products_round_toward_zero() {
    assert_eq!(mul_div(-7, 3, 2), -10);
    assert_eq!(mul_div(7, 3, 2), 10);
    assert_eq!(fixed_mul(1500, 2000), 3000);
    assert_eq!(fixed_mul(-1001, 992), -992);
}

#[test]
fn vector_helpers() {
    let v = Vec3::new(1000, -2000, 3000);
    assert_eq!(v.scale(500), Vec3::new(500, -1000, 1500));
    assert_eq!(v.add(&Vec3::new(1, 2, 3)), Vec3::new(1001, -1998, 3003));
    assert_eq!(v.horizontal(), Vec3::new(1000, 0, 3000));
}
