//! The 3-component value type and its algebra: componentwise
//! arithmetic, dot and cross products, length, normalization and
//! reflection, together with the exact mathematical model the
//! contracts are stated over.

use vstd::prelude::*;
use crate::fixed::{
    div_trunc, fits_i64, iabs, in_range, isqrt, lemma_mul_mag, lemma_sqrt_floor_bounds_component,
    lemma_tdiv_mag, lemma_tdiv_mul_bound, sqrt_floor, tdiv, COORD_LIMIT, SCALE,
};

pub use Triple as Vector;
pub use Triple as Point;
pub use Triple as Coordinates;

verus! {

/// Largest component magnitude the product-forming operations (dot,
/// cross, length) accept; under it every intermediate product and
/// three-term sum provably fits an `i128`.
pub const PRODUCT_LIMIT: i64 = 0x4000_0000_0000_0000;

/// A 3-component fixed-point value.  By semantic convention it is
/// reused as a spatial vector, a point, a barycentric-coordinate
/// triple and a linear color.
#[derive(Clone, Copy, PartialEq, Eq, Structural, Debug)]
pub struct Triple {
    pub x: i64,
    pub y: i64,
    pub z: i64,
}

/// Unbounded mathematical counterpart of `Triple`, used in contracts.
pub ghost struct Vec3 {
    pub x: int,
    pub y: int,
    pub z: int,
}

/// The mathematical value of a `Triple`.
pub open spec fn v3(t: Triple) -> Vec3 {
    Vec3 { x: t.x as int, y: t.y as int, z: t.z as int }
}

/// Componentwise sum.
pub open spec fn add3(a: Vec3, b: Vec3) -> Vec3 {
    Vec3 { x: a.x + b.x, y: a.y + b.y, z: a.z + b.z }
}

/// Componentwise difference.
pub open spec fn sub3(a: Vec3, b: Vec3) -> Vec3 {
    Vec3 { x: a.x - b.x, y: a.y - b.y, z: a.z - b.z }
}

/// Exact (unscaled) dot product.
pub open spec fn dot3(a: Vec3, b: Vec3) -> int {
    a.x * b.x + a.y * b.y + a.z * b.z
}

/// Exact (unscaled) right-handed cross product.
pub open spec fn cross3(a: Vec3, b: Vec3) -> Vec3 {
    Vec3 {
        x: a.y * b.z - a.z * b.y,
        y: a.z * b.x - a.x * b.z,
        z: a.x * b.y - a.y * b.x,
    }
}

/// Componentwise truncated division by `SCALE`, restoring fixed-point
/// scale after an exact product.
pub open spec fn div_scale3(a: Vec3) -> Vec3 {
    Vec3 {
        x: tdiv(a.x, SCALE as int),
        y: tdiv(a.y, SCALE as int),
        z: tdiv(a.z, SCALE as int),
    }
}

/// Fixed-point dot product of two fixed-point vectors.
pub open spec fn dot_scaled3(a: Vec3, b: Vec3) -> int {
    tdiv(dot3(a, b), SCALE as int)
}

/// Fixed-point cross product of two fixed-point vectors.
pub open spec fn cross_scaled3(a: Vec3, b: Vec3) -> Vec3 {
    div_scale3(cross3(a, b))
}

/// Fixed-point scalar multiple of a fixed-point vector.
pub open spec fn scale3(a: Vec3, s: int) -> Vec3 {
    Vec3 {
        x: tdiv(a.x * s, SCALE as int),
        y: tdiv(a.y * s, SCALE as int),
        z: tdiv(a.z * s, SCALE as int),
    }
}

/// Componentwise sum with a scalar.
pub open spec fn add_scalar3(a: Vec3, s: int) -> Vec3 {
    Vec3 { x: a.x + s, y: a.y + s, z: a.z + s }
}

/// Fixed-point Euclidean length: the floor square root of the exact
/// sum of squares.
pub open spec fn len3(a: Vec3) -> int {
    sqrt_floor(dot3(a, a))
}

/// Normalization: rescale to unit length, or leave a zero-length
/// vector unchanged (there is no direction to keep).
pub open spec fn norm3(a: Vec3) -> Vec3 {
    if len3(a) == 0 {
        a
    } else {
        Vec3 {
            x: tdiv(a.x * SCALE, len3(a)),
            y: tdiv(a.y * SCALE, len3(a)),
            z: tdiv(a.z * SCALE, len3(a)),
        }
    }
}

/// Reflection of `a` about the plane normal `n`:
/// `a - 2 (a . n) n` in fixed point.
pub open spec fn reflect3(a: Vec3, n: Vec3) -> Vec3 {
    sub3(a, scale3(n, 2 * dot_scaled3(a, n)))
}

/// All components within the coordinate range of the library.
pub open spec fn vec_in_range(a: Vec3) -> bool {
    in_range(a.x) && in_range(a.y) && in_range(a.z)
}

/// All components within `bound` in magnitude.
pub open spec fn vec_bounded(a: Vec3, bound: int) -> bool {
    iabs(a.x) <= bound && iabs(a.y) <= bound && iabs(a.z) <= bound
}

/// The exact sum of products of two component-bounded vectors fits an
/// `i128`, as does each partial sum and each cross-product component.
pub proof fn lemma_products_bounded(a: Vec3, b: Vec3, aa: int, bb: int)
    requires
        0 <= aa,
        0 <= bb,
        vec_bounded(a, aa),
        vec_bounded(b, bb),
    ensures
        iabs(a.x * b.x) <= aa * bb,
        iabs(a.y * b.y) <= aa * bb,
        iabs(a.z * b.z) <= aa * bb,
        iabs(a.y * b.z) <= aa * bb,
        iabs(a.z * b.y) <= aa * bb,
        iabs(a.z * b.x) <= aa * bb,
        iabs(a.x * b.z) <= aa * bb,
        iabs(a.x * b.y) <= aa * bb,
        iabs(a.y * b.x) <= aa * bb,
        iabs(dot3(a, b)) <= 3 * (aa * bb),
        vec_bounded(cross3(a, b), 2 * (aa * bb)),
{
    lemma_mul_mag(a.x, b.x, aa, bb);
    lemma_mul_mag(a.y, b.y, aa, bb);
    lemma_mul_mag(a.z, b.z, aa, bb);
    lemma_mul_mag(a.y, b.z, aa, bb);
    lemma_mul_mag(a.z, b.y, aa, bb);
    lemma_mul_mag(a.z, b.x, aa, bb);
    lemma_mul_mag(a.x, b.z, aa, bb);
    lemma_mul_mag(a.x, b.y, aa, bb);
    lemma_mul_mag(a.y, b.x, aa, bb);
}

/// A fixed-point scalar multiple of a bounded vector stays within the
/// product of the bounds, shrunk by the scale.
pub proof fn lemma_scale3_bounded(a: Vec3, s: int, aa: int, ss: int)
    requires
        0 <= aa,
        0 <= ss,
        vec_bounded(a, aa),
        iabs(s) <= ss,
    ensures
        vec_bounded(scale3(a, s), (aa * ss) / (SCALE as int)),
        vec_bounded(scale3(a, s), aa * ss),
{
    lemma_mul_mag(a.x, s, aa, ss);
    lemma_mul_mag(a.y, s, aa, ss);
    lemma_mul_mag(a.z, s, aa, ss);
    lemma_tdiv_mag(a.x * s, SCALE as int, aa * ss);
    lemma_tdiv_mag(a.y * s, SCALE as int, aa * ss);
    lemma_tdiv_mag(a.z * s, SCALE as int, aa * ss);
}

impl Triple {
    /// Build a triple from its three fixed-point components.
    pub fn new(x: i64, y: i64, z: i64) -> (r: Triple)
        ensures
            r == (Triple { x, y, z }),
    {
        Triple { x, y, z }
    }

    /// Componentwise sum.
    pub fn add(&self, rhs: &Triple) -> (r: Triple)
        requires
            fits_i64(self.x + rhs.x),
            fits_i64(self.y + rhs.y),
            fits_i64(self.z + rhs.z),
        ensures
            v3(r) == add3(v3(*self), v3(*rhs)),
    {
        Triple { x: self.x + rhs.x, y: self.y + rhs.y, z: self.z + rhs.z }
    }

    /// Componentwise sum, in place.
    pub fn add_assign(&mut self, rhs: &Triple)
        requires
            fits_i64(old(self).x + rhs.x),
            fits_i64(old(self).y + rhs.y),
            fits_i64(old(self).z + rhs.z),
        ensures
            v3(*final(self)) == add3(v3(*old(self)), v3(*rhs)),
    {
        self.x = self.x + rhs.x;
        self.y = self.y + rhs.y;
        self.z = self.z + rhs.z;
    }

    /// Sum with a scalar on every component.
    pub fn add_scalar(&self, s: i64) -> (r: Triple)
        requires
            fits_i64(self.x + s),
            fits_i64(self.y + s),
            fits_i64(self.z + s),
        ensures
            v3(r) == add_scalar3(v3(*self), s as int),
    {
        Triple { x: self.x + s, y: self.y + s, z: self.z + s }
    }

    /// Componentwise difference.
    pub fn sub(&self, rhs: &Triple) -> (r: Triple)
        requires
            fits_i64(self.x - rhs.x),
            fits_i64(self.y - rhs.y),
            fits_i64(self.z - rhs.z),
        ensures
            v3(r) == sub3(v3(*self), v3(*rhs)),
    {
        Triple { x: self.x - rhs.x, y: self.y - rhs.y, z: self.z - rhs.z }
    }

    /// Componentwise difference, in place.
    pub fn sub_assign(&mut self, rhs: &Triple)
        requires
            fits_i64(old(self).x - rhs.x),
            fits_i64(old(self).y - rhs.y),
            fits_i64(old(self).z - rhs.z),
        ensures
            v3(*final(self)) == sub3(v3(*old(self)), v3(*rhs)),
    {
        self.x = self.x - rhs.x;
        self.y = self.y - rhs.y;
        self.z = self.z - rhs.z;
    }

    /// Difference with a scalar on every component.
    pub fn sub_scalar(&self, s: i64) -> (r: Triple)
        requires
            fits_i64(self.x - s),
            fits_i64(self.y - s),
            fits_i64(self.z - s),
        ensures
            v3(r) == add_scalar3(v3(*self), -(s as int)),
    {
        Triple { x: self.x - s, y: self.y - s, z: self.z - s }
    }

    /// Fixed-point multiple by the scalar `s`.
    pub fn scale(&self, s: i64) -> (r: Triple)
        requires
            fits_i64(scale3(v3(*self), s as int).x),
            fits_i64(scale3(v3(*self), s as int).y),
            fits_i64(scale3(v3(*self), s as int).z),
        ensures
            v3(r) == scale3(v3(*self), s as int),
    {
        proof {
            lemma_mul_mag(self.x as int, s as int, i64::MAX + 1, i64::MAX + 1);
            lemma_mul_mag(self.y as int, s as int, i64::MAX + 1, i64::MAX + 1);
            lemma_mul_mag(self.z as int, s as int, i64::MAX + 1, i64::MAX + 1);
        }
        let x = div_trunc(self.x as i128 * s as i128, SCALE as i128);
        let y = div_trunc(self.y as i128 * s as i128, SCALE as i128);
        let z = div_trunc(self.z as i128 * s as i128, SCALE as i128);
        Triple { x: x as i64, y: y as i64, z: z as i64 }
    }

    /// Fixed-point multiple by `s`, in place.
    pub fn scale_assign(&mut self, s: i64)
        requires
            fits_i64(scale3(v3(*old(self)), s as int).x),
            fits_i64(scale3(v3(*old(self)), s as int).y),
            fits_i64(scale3(v3(*old(self)), s as int).z),
        ensures
            v3(*final(self)) == scale3(v3(*old(self)), s as int),
    {
        let r = self.scale(s);
        self.x = r.x;
        self.y = r.y;
        self.z = r.z;
    }

}

impl Vector {
    /// Fixed-point dot product.
    pub fn dot_product(&self, rhs: &Triple) -> (r: i64)
        requires
            vec_bounded(v3(*self), PRODUCT_LIMIT as int),
            vec_bounded(v3(*rhs), PRODUCT_LIMIT as int),
            fits_i64(dot_scaled3(v3(*self), v3(*rhs))),
        ensures
            r as int == dot_scaled3(v3(*self), v3(*rhs)),
    {
        proof {
            lemma_products_bounded(v3(*self), v3(*rhs), PRODUCT_LIMIT as int, PRODUCT_LIMIT as int);
        }
        let s = self.x as i128 * rhs.x as i128 + self.y as i128 * rhs.y as i128
            + self.z as i128 * rhs.z as i128;
        let q = div_trunc(s, SCALE as i128);
        q as i64
    }

    /// Fixed-point right-handed cross product.  The sign of the result
    /// is significant: it carries winding order and normal orientation.
    pub fn cross_product(&self, rhs: &Triple) -> (r: Triple)
        requires
            vec_bounded(v3(*self), PRODUCT_LIMIT as int),
            vec_bounded(v3(*rhs), PRODUCT_LIMIT as int),
            fits_i64(cross_scaled3(v3(*self), v3(*rhs)).x),
            fits_i64(cross_scaled3(v3(*self), v3(*rhs)).y),
            fits_i64(cross_scaled3(v3(*self), v3(*rhs)).z),
        ensures
            v3(r) == cross_scaled3(v3(*self), v3(*rhs)),
    {
        proof {
            lemma_products_bounded(v3(*self), v3(*rhs), PRODUCT_LIMIT as int, PRODUCT_LIMIT as int);
        }
        let cx = self.y as i128 * rhs.z as i128 - self.z as i128 * rhs.y as i128;
        let cy = self.z as i128 * rhs.x as i128 - self.x as i128 * rhs.z as i128;
        let cz = self.x as i128 * rhs.y as i128 - self.y as i128 * rhs.x as i128;
        let x = div_trunc(cx, SCALE as i128);
        let y = div_trunc(cy, SCALE as i128);
        let z = div_trunc(cz, SCALE as i128);
        Triple { x: x as i64, y: y as i64, z: z as i64 }
    }

    /// Fixed-point Euclidean length.
    pub fn get_length(&self) -> (r: i64)
        requires
            vec_bounded(v3(*self), PRODUCT_LIMIT as int),
        ensures
            r as int == len3(v3(*self)),
            0 <= r,
    {
        proof {
            lemma_products_bounded(v3(*self), v3(*self), PRODUCT_LIMIT as int, PRODUCT_LIMIT as int);
            lemma_mul_mag(self.x as int, self.x as int, PRODUCT_LIMIT as int, PRODUCT_LIMIT as int);
            assert(0 <= self.x as int * self.x as int) by (nonlinear_arith);
            assert(0 <= self.y as int * self.y as int) by (nonlinear_arith);
            assert(0 <= self.z as int * self.z as int) by (nonlinear_arith);
        }
        let s = self.x as i128 * self.x as i128 + self.y as i128 * self.y as i128
            + self.z as i128 * self.z as i128;
        let r = isqrt(s as u128);
        proof {
            if r as int >= 0x8000_0000_0000_0000 {
                assert((r as int) * (r as int) >= 0x8000_0000_0000_0000 * 0x8000_0000_0000_0000)
                    by (nonlinear_arith)
                    requires
                        r as int >= 0x8000_0000_0000_0000,
                ;
                assert(false);
            }
        }
        r as i64
    }

    /// Rescale to unit length in place; a zero-length vector is left
    /// unchanged, so callers must not assume a unit result for it.
    pub fn normalize(&mut self)
        requires
            vec_bounded(v3(*old(self)), PRODUCT_LIMIT as int),
        ensures
            v3(*final(self)) == norm3(v3(*old(self))),
    {
        let len = self.get_length();
        if len > 0 {
            proof {
                let a = v3(*self);
                let n = dot3(a, a);
                assert(0 <= a.x * a.x) by (nonlinear_arith);
                assert(0 <= a.y * a.y) by (nonlinear_arith);
                assert(0 <= a.z * a.z) by (nonlinear_arith);
                crate::fixed::lemma_sqrt_floor_exists(n);
                lemma_sqrt_floor_bounds_component(n, len as int, a.x);
                lemma_sqrt_floor_bounds_component(n, len as int, a.y);
                lemma_sqrt_floor_bounds_component(n, len as int, a.z);
                lemma_mul_mag(a.x, SCALE as int, len as int, SCALE as int);
                lemma_mul_mag(a.y, SCALE as int, len as int, SCALE as int);
                lemma_mul_mag(a.z, SCALE as int, len as int, SCALE as int);
                lemma_tdiv_mul_bound(a.x * SCALE, len as int, SCALE as int);
                lemma_tdiv_mul_bound(a.y * SCALE, len as int, SCALE as int);
                lemma_tdiv_mul_bound(a.z * SCALE, len as int, SCALE as int);
            }
            let x = div_trunc(self.x as i128 * SCALE as i128, len as i128);
            let y = div_trunc(self.y as i128 * SCALE as i128, len as i128);
            let z = div_trunc(self.z as i128 * SCALE as i128, len as i128);
            self.x = x as i64;
            self.y = y as i64;
            self.z = z as i64;
        }
    }

    /// Non-mutating copy of the normalized vector.
    pub fn get_normalized(&self) -> (r: Triple)
        requires
            vec_bounded(v3(*self), PRODUCT_LIMIT as int),
        ensures
            v3(r) == norm3(v3(*self)),
    {
        let mut temp = self.clone();
        temp.normalize();
        temp
    }

    /// Reflection about the plane with normal `normal`.
    pub fn reflect(&self, normal: &Triple) -> (r: Triple)
        requires
            vec_in_range(v3(*self)),
            vec_in_range(v3(*normal)),
        ensures
            v3(r) == reflect3(v3(*self), v3(*normal)),
    {
        proof {
            lemma_products_bounded(v3(*self), v3(*normal), 1_000_000_000, 1_000_000_000);
            lemma_tdiv_mag(dot3(v3(*self), v3(*normal)), SCALE as int, 3_000_000_000_000_000_000);
        }
        let d = self.dot_product(normal);
        let k = 2 * d;
        proof {
            let kk = 2 * dot_scaled3(v3(*self), v3(*normal));
            assert(iabs(kk) <= 6_000_000_000_000);
            lemma_mul_mag(normal.x as int, kk, 1_000_000_000, 6_000_000_000_000);
            lemma_mul_mag(normal.y as int, kk, 1_000_000_000, 6_000_000_000_000);
            lemma_mul_mag(normal.z as int, kk, 1_000_000_000, 6_000_000_000_000);
            lemma_tdiv_mag(normal.x as int * kk, SCALE as int, 6_000_000_000_000_000_000_000);
            lemma_tdiv_mag(normal.y as int * kk, SCALE as int, 6_000_000_000_000_000_000_000);
            lemma_tdiv_mag(normal.z as int * kk, SCALE as int, 6_000_000_000_000_000_000_000);
        }
        let term = normal.scale(k);
        self.sub(&term)
    }
}

} // verus!
