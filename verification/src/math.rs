//! Fixed-point scalar and vector arithmetic for the manipulator geometry.
//!
//! All lengths are carried as `i64` values in thousandths of the scene unit
//! (one unit of length in the compositor's space is `SCALE` here), so every
//! geometric rule of the library is stated and proved over exact integers.

use vstd::prelude::*;

verus! {

/// Number of fixed-point steps per scene unit of length.
pub const SCALE: i64 = 1000;

/// Bound on every coordinate, distance and auxiliary value the library
/// accepts: one hundred thousand scene units. Keeping components within this
/// bound lets sums of three squared differences stay well inside `i64`.
pub const COORD_LIMIT: i64 = 100_000_000;

/// A planar vector of fixed-point scalars.
#[derive(Clone, Copy, Debug, PartialEq, Eq, Structural)]
pub struct Vec2 {
    pub x: i64,
    pub y: i64,
}

/// A spatial vector of fixed-point scalars.
#[derive(Clone, Copy, Debug, PartialEq, Eq, Structural)]
pub struct Vec3 {
    pub x: i64,
    pub y: i64,
    pub z: i64,
}

impl Vec2 {
    /// Whether both components are within the global coordinate bound.
    pub open spec fn bounded(self) -> bool {
        -COORD_LIMIT <= self.x <= COORD_LIMIT && -COORD_LIMIT <= self.y <= COORD_LIMIT
    }
}

impl Vec3 {
    /// Whether all three components are within `m` in magnitude.
    pub open spec fn bounded_by(self, m: int) -> bool {
        &&& -m <= self.x <= m
        &&& -m <= self.y <= m
        &&& -m <= self.z <= m
    }

    /// Whether all three components are within the global coordinate bound.
    pub open spec fn bounded(self) -> bool {
        self.bounded_by(COORD_LIMIT as int)
    }
}

/// Truncating (round-toward-zero) integer division, the rounding rule of the
/// machine division this library compiles to.
pub open spec fn div_trunc(a: int, b: int) -> int {
    if a >= 0 {
        a / b
    } else {
        -((-a) / b)
    }
}

/// Absolute value as a mathematical integer.
pub open spec fn spec_abs(a: int) -> int {
    if a >= 0 {
        a
    } else {
        -a
    }
}

/// Clamping of `a` into `[lo, hi]`.
pub open spec fn spec_clamp(a: int, lo: int, hi: int) -> int {
    if a < lo {
        lo
    } else if a > hi {
        hi
    } else {
        a
    }
}

/// Squared Euclidean distance between two spatial points.
pub open spec fn spec_dist_sq(a: Vec3, b: Vec3) -> int {
    (a.x - b.x) * (a.x - b.x) + (a.y - b.y) * (a.y - b.y) + (a.z - b.z) * (a.z - b.z)
}

/// Absolute value within the coordinate bound.
pub fn abs_i64(a: i64) -> (r: i64)
    requires
        a > i64::MIN,
    ensures
        r == spec_abs(a as int),
{
    if a >= 0 {
        a
    } else {
        -a
    }
}

/// Clamping into a well-ordered interval.
pub fn clamp_i64(a: i64, lo: i64, hi: i64) -> (r: i64)
    requires
        lo <= hi,
    ensures
        r == spec_clamp(a as int, lo as int, hi as int),
{
    if a < lo {
        lo
    } else if a > hi {
        hi
    } else {
        a
    }
}

/// Midpoint of two scalars, rounded toward zero.
pub fn mid_i64(a: i64, b: i64) -> (r: i64)
    requires
        -COORD_LIMIT <= a <= COORD_LIMIT,
        -COORD_LIMIT <= b <= COORD_LIMIT,
    ensures
        r == div_trunc(a + b, 2),
        -COORD_LIMIT <= r <= COORD_LIMIT,
{
    let s: i64 = a + b;
    s / 2
}

/// Componentwise midpoint of two spatial points, rounded toward zero.
pub fn midpoint(a: Vec3, b: Vec3) -> (r: Vec3)
    requires
        a.bounded(),
        b.bounded(),
    ensures
        r.x == div_trunc(a.x + b.x, 2),
        r.y == div_trunc(a.y + b.y, 2),
        r.z == div_trunc(a.z + b.z, 2),
        r.bounded(),
{
    Vec3 { x: mid_i64(a.x, b.x), y: mid_i64(a.y, b.y), z: mid_i64(a.z, b.z) }
}

/// Squared distance between two bounded points; exact, no overflow.
pub fn dist_sq(a: Vec3, b: Vec3) -> (r: i64)
    requires
        a.bounded(),
        b.bounded(),
    ensures
        r == spec_dist_sq(a, b),
        0 <= r <= 12 * (COORD_LIMIT as int) * (COORD_LIMIT as int),
{
    let dx: i64 = a.x - b.x;
    let dy: i64 = a.y - b.y;
    let dz: i64 = a.z - b.z;
    proof {
        lemma_square_bound(dx as int, 2 * COORD_LIMIT as int);
        lemma_square_bound(dy as int, 2 * COORD_LIMIT as int);
        lemma_square_bound(dz as int, 2 * COORD_LIMIT as int);
    }
    dx * dx + dy * dy + dz * dz
}

/// A square of a bounded value is bounded by the square of the bound.
pub proof fn lemma_square_bound(a: int, m: int)
    requires
        -m <= a <= m,
        0 <= m,
    ensures
        0 <= a * a <= m * m,
{
    assert(0 <= a * a <= m * m) by (nonlinear_arith)
        requires
            -m <= a <= m,
            0 <= m,
    ;
}

/// Integer square root: the greatest `r` with `r * r <= x`.
pub fn isqrt(x: u128) -> (r: u64)
    ensures
        r * r <= x,
        x < (r + 1) * (r + 1),
        r == spec_isqrt(x as int),
{
    let mut lo: u128 = 0;
    let mut hi: u128 = 0x1_0000_0000_0000_0000;
    proof {
        assert(hi * hi > x) by (nonlinear_arith)
            requires
                hi == 0x1_0000_0000_0000_0000u128 as int,
                x <= u128::MAX,
        ;
    }
    while hi - lo > 1
        invariant
            0 <= lo < hi <= 0x1_0000_0000_0000_0000,
            lo * lo <= x,
            x < hi * hi,
        decreases hi - lo,
    {
        let mid: u128 = lo + (hi - lo) / 2;
        proof {
            assert(mid * mid <= u128::MAX) by (nonlinear_arith)
                requires
                    0 <= mid < 0x1_0000_0000_0000_0000u128 as int,
            ;
        }
        if mid * mid <= x {
            lo = mid;
        } else {
            hi = mid;
        }
    }
    proof {
        assert(lo < 0x1_0000_0000_0000_0000);
        lemma_isqrt_unique(x as int, lo as int);
    }
    lo as u64
}

/// `a * b / d` rounded toward zero, computed without intermediate overflow.
pub fn mul_div(a: i64, b: i64, d: i64) -> (r: i64)
    requires
        d != 0,
        -i64::MAX <= div_trunc(a as int * b as int, d as int) <= i64::MAX,
    ensures
        r == div_trunc(a as int * b as int, d as int),
{
    proof {
        lemma_i64_product_fits(a as int, b as int);
    }
    let p: i128 = (a as i128) * (b as i128);
    let q: i128 = p / (d as i128);
    q as i64
}

/// The product of two `i64` values fits in `i128`.
pub proof fn lemma_i64_product_fits(a: int, b: int)
    requires
        i64::MIN <= a <= i64::MAX,
        i64::MIN <= b <= i64::MAX,
    ensures
        i128::MIN < a * b < i128::MAX,
{
    assert(i128::MIN < a * b < i128::MAX) by (nonlinear_arith)
        requires
            -0x8000_0000_0000_0000 <= a <= 0x7fff_ffff_ffff_ffff,
            -0x8000_0000_0000_0000 <= b <= 0x7fff_ffff_ffff_ffff,
    ;
}

/// A quotient magnitude bound: if the numerator is at most `k` times the
/// divisor in magnitude, the truncated quotient is at most `k` in magnitude.
pub proof fn lemma_div_trunc_bound(a: int, d: int, k: int)
    requires
        d != 0,
        k >= 0,
        spec_abs(a) <= spec_abs(d) * k,
    ensures
        spec_abs(div_trunc(a, d)) <= k,
{
    let n = spec_abs(a);
    let b = spec_abs(d);
    let q0 = n / b;
    vstd::arithmetic::div_mod::lemma_fundamental_div_mod(n, b);
    vstd::arithmetic::div_mod::lemma_mod_bound(n, b);
    assert(0 <= q0 <= k) by (nonlinear_arith)
        requires
            b > 0,
            k >= 0,
            0 <= n <= b * k,
            b * q0 + n % b == n,
            0 <= n % b < b,
    ;
    if d < 0 {
        lemma_div_flip_divisor(n, b);
        assert(n / d == -q0);
    }
    assert(div_trunc(a, d) == if (a >= 0) == (d > 0) {
        q0
    } else {
        -q0
    });
}

/// Negating a positive divisor negates the Euclidean quotient.
proof fn lemma_div_flip_divisor(a: int, b: int)
    requires
        b > 0,
    ensures
        a / (-b) == -(a / b),
{
    assert(a / (-b) == -(a / b)) by (nonlinear_arith)
        requires
            b > 0,
    ;
}


/// The integer square root of a nonnegative number: the unique `r` with
/// `r * r <= x < (r + 1) * (r + 1)`.
pub open spec fn spec_isqrt(x: int) -> int {
    choose|r: int| 0 <= r && #[trigger] (r * r) <= x && x < (r + 1) * (r + 1)
}

/// The integer square root is pinned down by its defining inequalities.
pub proof fn lemma_isqrt_unique(x: int, r: int)
    requires
        0 <= r,
        r * r <= x,
        x < (r + 1) * (r + 1),
    ensures
        r == spec_isqrt(x),
{
    assert(exists|w: int| 0 <= w && #[trigger] (w * w) <= x && x < (w + 1) * (w + 1)) by {
        assert(0 <= r && r * r <= x && x < (r + 1) * (r + 1));
    }
    let q = spec_isqrt(x);
    assert(0 <= q && q * q <= x && x < (q + 1) * (q + 1));
    assert(q == r) by (nonlinear_arith)
        requires
            0 <= r,
            r * r <= x,
            x < (r + 1) * (r + 1),
            0 <= q,
            q * q <= x,
            x < (q + 1) * (q + 1),
    ;
}

/// A component is never larger in magnitude than the square root of a sum of
/// squares it contributes to.
pub proof fn lemma_component_within_isqrt(a: int, s: int, n: int)
    requires
        a * a <= s,
        0 <= n,
        n * n <= s,
        s < (n + 1) * (n + 1),
    ensures
        -n <= a <= n,
{
    assert(-n <= a <= n) by (nonlinear_arith)
        requires
            a * a <= s,
            0 <= n,
            s < (n + 1) * (n + 1),
    ;
}

/// Squared length of a spatial vector.
pub open spec fn spec_len_sq(v: Vec3) -> int {
    v.x * v.x + v.y * v.y + v.z * v.z
}

/// Integer square root on machine words, pinned to `spec_isqrt`.
pub fn isqrt_i64(x: i64) -> (r: i64)
    requires
        x >= 0,
    ensures
        r == spec_isqrt(x as int),
        0 <= r,
        r * r <= x,
        x < (r + 1) * (r + 1),
{
    let r = isqrt(x as u128);
    proof {
        lemma_isqrt_unique(x as int, r as int);
        assert((r as int) * (r as int) <= x as int);
        assert(r as int <= x as int) by (nonlinear_arith)
            requires
                0 <= r as int,
            (r as int) * (r as int) <= x as int,
        ;
    }
    r as i64
}

/// Euclidean distance between two bounded points, rounded down.
pub fn distance(a: Vec3, b: Vec3) -> (r: i64)
    requires
        a.bounded_by(4 * COORD_LIMIT as int),
        b.bounded_by(4 * COORD_LIMIT as int),
    ensures
        r == spec_isqrt(spec_dist_sq(a, b)),
        0 <= r <= 16 * COORD_LIMIT as int,
{
    let dx: i64 = a.x - b.x;
    let dy: i64 = a.y - b.y;
    let dz: i64 = a.z - b.z;
    proof {
        lemma_square_bound(dx as int, 8 * COORD_LIMIT as int);
        lemma_square_bound(dy as int, 8 * COORD_LIMIT as int);
        lemma_square_bound(dz as int, 8 * COORD_LIMIT as int);
    }
    let s: i64 = dx * dx + dy * dy + dz * dz;
    let r = isqrt_i64(s);
    proof {
        let m = 16 * COORD_LIMIT as int;
        assert(s as int <= 3 * (8 * COORD_LIMIT as int) * (8 * COORD_LIMIT as int));
        assert(r as int <= m) by (nonlinear_arith)
            requires
                0 <= r as int,
                (r as int) * (r as int) <= s as int,
                s as int <= 3 * (8 * COORD_LIMIT as int) * (8 * COORD_LIMIT as int),
                m == 16 * COORD_LIMIT as int,
                COORD_LIMIT == 100_000_000,
    ;
    }
    r
}


/// Squared length of a bounded vector; exact, no overflow.
pub fn len_sq(v: Vec3) -> (r: i64)
    requires
        v.bounded(),
    ensures
        r == spec_len_sq(v),
        0 <= r <= 3 * (COORD_LIMIT as int) * (COORD_LIMIT as int),
{
    proof {
        lemma_square_bound(v.x as int, COORD_LIMIT as int);
        lemma_square_bound(v.y as int, COORD_LIMIT as int);
        lemma_square_bound(v.z as int, COORD_LIMIT as int);
    }
    v.x * v.x + v.y * v.y + v.z * v.z
}


/// The larger of two integers.
pub open spec fn spec_max(a: int, b: int) -> int {
    if a >= b {
        a
    } else {
        b
    }
}

/// The smaller of two integers.
pub open spec fn spec_min(a: int, b: int) -> int {
    if a <= b {
        a
    } else {
        b
    }
}

/// Raise `v` to at least `lo`, then cap it at `hi`; when `lo` exceeds `hi`
/// the cap wins.
pub fn raise_then_cap(v: i64, lo: i64, hi: i64) -> (r: i64)
    ensures
        r == spec_min(spec_max(v as int, lo as int), hi as int),
{
    let raised: i64 = if v >= lo {
        v
    } else {
        lo
    };
    if raised <= hi {
        raised
    } else {
        hi
    }
}


/// A truncated quotient is never larger in magnitude than its numerator.
pub proof fn lemma_div_trunc_shrink(a: int, d: int)
    requires
        d != 0,
    ensures
        spec_abs(div_trunc(a, d)) <= spec_abs(a),
{
    assert(spec_abs(a) <= spec_abs(d) * spec_abs(a)) by (nonlinear_arith)
        requires
            spec_abs(d) >= 1,
            spec_abs(a) >= 0,
    ;
    lemma_div_trunc_bound(a, d, spec_abs(a));
}


/// Magnitudes multiply: a product of bounded factors is bounded by the
/// product of the bounds.
pub proof fn lemma_mul_bound(a: int, ma: int, b: int, mb: int)
    requires
        -ma <= a <= ma,
        -mb <= b <= mb,
        0 <= ma,
        0 <= mb,
    ensures
        -(ma * mb) <= a * b <= ma * mb,
{
    assert(-(ma * mb) <= a * b <= ma * mb) by (nonlinear_arith)
        requires
            -ma <= a <= ma,
            -mb <= b <= mb,
            0 <= ma,
            0 <= mb,
    ;
}

} // verus!
