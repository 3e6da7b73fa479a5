use slingshot_settle::geom::Frac2;
use slingshot_settle::geom::Vec2i;
use slingshot_settle::geom::ceil_sqrt_u64;
use slingshot_settle::geom::clamp_length;
use slingshot_settle::geom::div_trunc_i64;
use slingshot_settle::geom::mul_div_trunc;

#[test]
fn ceil_sqrt_small_values() {
    assert_eq!(ceil_sqrt_u64(0), 0);
    assert_eq!(ceil_sqrt_u64(1), 1);
    assert_eq!(ceil_sqrt_u64(2), 2);
    assert_eq!(ceil_sqrt_u64(3), 2);
    assert_eq!(ceil_sqrt_u64(4), 2);
    assert_eq!(ceil_sqrt_u64(5), 3);
    assert_eq!(ceil_sqrt_u64(9), 3);
    assert_eq!(ceil_sqrt_u64(10), 4);
}

#[test]
fn ceil_sqrt_large_values() {
    assert_eq!(ceil_sqrt_u64(250_000_000_000), 500_000);
    assert_eq!(ceil_sqrt_u64(250_000_000_001), 500_001);
    assert_eq!(ceil_sqrt_u64(u64::MAX), 1 << 32);
}

#[test]
fn clamp_keeps_short_vectors() {
    let v = Vec2i { x: 30_000, y: 40_000 };
    let r = clamp_length(v, 120_000);
    assert_eq!(r, Frac2 { nx: 30_000, ny: 40_000, den: 1 });
}

#[test]
fn clamp_zero_vector() {
    let r = clamp_length(Vec2i { x: 0, y: 0 }, 120_000);
    assert_eq!(r, Frac2 { nx: 0, ny: 0, den: 1 });
}

#[test]
fn clamp_caps_long_vectors() {
    // |(300000, 400000)| = 500000 > 120000, and 500000 is an exact root.
    let v = Vec2i { x: 300_000, y: 400_000 };
    let r = clamp_length(v, 120_000);
    assert_eq!(r.den, 500_000);
    assert_eq!(r.nx, 300_000i64 * 120_000);
    assert_eq!(r.ny, 400_000i64 * 120_000);
    // Length capped: nx^2 + ny^2 <= max^2 * den^2.
    let lhs = (r.nx as i128) * (r.nx as i128) + (r.ny as i128) * (r.ny as i128);
    let rhs = 120_000i128 * 120_000 * (r.den as i128) * (r.den as i128);
    assert!(lhs <= rhs);
    // Direction preserved exactly: the cross product with v is zero.
    assert_eq!((r.nx as i128) * (v.y as i128), (r.ny as i128) * (v.x as i128));
}

#[test]
fn truncating_division() {
    assert_eq!(div_trunc_i64(7, 2), 3);
    assert_eq!(div_trunc_i64(-7, 2), -3);
    assert_eq!(div_trunc_i64(0, 5), 0);
    assert_eq!(div_trunc_i64(-1, 3), 0);
}

#[test]
fn multiply_then_divide() {
    assert_eq!(mul_div_trunc(7, 3, 2), 10);
    assert_eq!(mul_div_trunc(-7, 3, 2), -10);
    assert_eq!(mul_div_trunc(36_000_000_000, 10_000, 500_000), 720_000_000);
}
