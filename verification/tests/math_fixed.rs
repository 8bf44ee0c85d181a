//! Exact-value tests of the fixed-point arithmetic helpers.

use flatland::math::abs_i64;
use flatland::math::clamp_i64;
use flatland::math::dist_sq;
use flatland::math::distance;
use flatland::math::isqrt;
use flatland::math::mid_i64;
use flatland::math::midpoint;
use flatland::math::mul_div;
use flatland::math::raise_then_cap;
use flatland::math::Vec2;
use flatland::math::Vec3;
use flatland::util::MapNumber;

#[test]
fn isqrt_exact_and_rounded() {
    assert_eq!(isqrt(0), 0);
    assert_eq!(isqrt(1), 1);
    assert_eq!(isqrt(3), 1);
    assert_eq!(isqrt(4), 2);
    assert_eq!(isqrt(4_000_000), 2000);
    assert_eq!(isqrt(4_000_001), 2000);
    assert_eq!(isqrt(u64::MAX as u128), 4_294_967_295);
}

#[test]
fn mul_div_rounds_toward_zero() {
    assert_eq!(mul_div(7, 1, 2), 3);
    assert_eq!(mul_div(-7, 1, 2), -3);
    assert_eq!(mul_div(7, 1, -2), -3);
    assert_eq!(mul_div(-7, 1, -2), 3);
    assert_eq!(mul_div(1_000_000, 1_000_000, 1_000), 1_000_000_000);
}

#[test]
fn midpoint_rounds_toward_zero() {
    assert_eq!(mid_i64(1, 2), 1);
    assert_eq!(mid_i64(-1, -2), -1);
    assert_eq!(
        midpoint(
            Vec3 { x: 0, y: 10, z: -3 },
            Vec3 { x: 10, y: 20, z: 0 }
        ),
        Vec3 { x: 5, y: 15, z: -1 }
    );
}

#[test]
fn distance_of_axis_separated_points() {
    let a = Vec3 { x: 0, y: 0, z: 1000 };
    let b = Vec3 {
        x: 0,
        y: 0,
        z: -1000,
    };
    assert_eq!(dist_sq(a, b), 4_000_000);
    assert_eq!(distance(a, b), 2000);
    // a 3-4-5 triangle scaled by one hundred
    let c = Vec3 { x: 300, y: 400, z: 0 };
    assert_eq!(distance(c, Vec3 { x: 0, y: 0, z: 0 }), 500);
}

#[test]
fn clamp_and_abs() {
    assert_eq!(clamp_i64(5, 0, 10), 5);
    assert_eq!(clamp_i64(-5, 0, 10), 0);
    assert_eq!(clamp_i64(15, 0, 10), 10);
    assert_eq!(abs_i64(-7), 7);
    assert_eq!(abs_i64(7), 7);
    // when the floor exceeds the cap, the cap wins
    assert_eq!(raise_then_cap(5, 10, 3), 3);
    assert_eq!(raise_then_cap(-4, 0, 10), 0);
}

#[test]
fn map_range_matches_affine_formula() {
    // the ramp sending 250 to 0 and 50 to 1000
    assert_eq!(250i64.map((250, 50), (0, 1000)), 0);
    assert_eq!(50i64.map((250, 50), (0, 1000)), 1000);
    assert_eq!(150i64.map((250, 50), (0, 1000)), 500);
    // a flipped vertical pixel map
    assert_eq!(0i64.map((50, -50), (0, 100_000)), 50_000);
    assert_eq!(50i64.map((50, -50), (0, 100_000)), 0);
    assert_eq!((-50i64).map((50, -50), (0, 100_000)), 100_000);
    // componentwise on a vector
    assert_eq!(
        (Vec2 { x: 0, y: 25 }).map((0, 100), (0, 1000)),
        Vec2 { x: 0, y: 250 }
    );
}
