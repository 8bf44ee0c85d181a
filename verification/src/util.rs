//! Affine remapping of values between ranges.

use vstd::prelude::*;

use crate::math::div_trunc;
use crate::math::COORD_LIMIT;
use crate::math::Vec2;

verus! {

/// The affine map carrying `from_range` onto `to_range`, applied to `v` and
/// rounded toward zero.
pub open spec fn spec_map_range(v: int, f0: int, f1: int, t0: int, t1: int) -> int {
    t0 + div_trunc((v - f0) * (t1 - t0), f1 - f0)
}

/// A value that can be remapped from one range onto another.
pub trait MapNumber: Sized {
    /// The remapped value.
    type Output;

    /// What the remap means for this type.
    spec fn spec_map(self, from_range: (i64, i64), to_range: (i64, i64)) -> Self::Output;

    /// Whether this value is within the global coordinate bound.
    spec fn map_bounded(self) -> bool;

    /// Remap this value from `from_range` onto `to_range`.
    fn map(self, from_range: (i64, i64), to_range: (i64, i64)) -> (r: Self::Output)
        requires
            self.map_bounded(),
            from_range.0 != from_range.1,
            -COORD_LIMIT <= from_range.0 <= COORD_LIMIT,
            -COORD_LIMIT <= from_range.1 <= COORD_LIMIT,
            -COORD_LIMIT <= to_range.0 <= COORD_LIMIT,
            -COORD_LIMIT <= to_range.1 <= COORD_LIMIT,
        ensures
            r == self.spec_map(from_range, to_range),
    ;
}

impl MapNumber for i64 {
    type Output = i64;

    open spec fn spec_map(self, from_range: (i64, i64), to_range: (i64, i64)) -> i64 {
        spec_map_range(
            self as int,
            from_range.0 as int,
            from_range.1 as int,
            to_range.0 as int,
            to_range.1 as int,
        ) as i64
    }

    open spec fn map_bounded(self) -> bool {
        -COORD_LIMIT <= self <= COORD_LIMIT
    }

    fn map(self, from_range: (i64, i64), to_range: (i64, i64)) -> (r: i64) {
        proof {
            crate::math::lemma_div_trunc_shrink(
                (self - from_range.0) * (to_range.1 - to_range.0),
                from_range.1 - from_range.0,
            );
            crate::math::lemma_i64_product_fits(
                self as int - from_range.0 as int,
                to_range.1 as int - to_range.0 as int,
            );
            crate::math::lemma_mul_bound(
                self as int - from_range.0 as int,
                2 * COORD_LIMIT as int,
                to_range.1 as int - to_range.0 as int,
                2 * COORD_LIMIT as int,
            );
        }
        let q: i64 = crate::math::mul_div(
            self - from_range.0,
            to_range.1 - to_range.0,
            from_range.1 - from_range.0,
        );
        to_range.0 + q
    }
}

impl MapNumber for Vec2 {
    type Output = Vec2;

    open spec fn spec_map(self, from_range: (i64, i64), to_range: (i64, i64)) -> Vec2 {
        Vec2 {
            x: MapNumber::spec_map(self.x, from_range, to_range),
            y: MapNumber::spec_map(self.y, from_range, to_range),
        }
    }

    open spec fn map_bounded(self) -> bool {
        self.bounded()
    }

    fn map(self, from_range: (i64, i64), to_range: (i64, i64)) -> (r: Vec2) {
        Vec2 { x: self.x.map(from_range, to_range), y: self.y.map(from_range, to_range) }
    }
}

} // verus!
