//! Triangle geometry: the cached face normal, point containment by
//! exact edge-function tests, area, and barycentric coordinates.

use vstd::prelude::*;
use crate::fixed::{
    iabs, isqrt, lemma_mul_mag, lemma_sqrt_floor_exists, lemma_tdiv_mag, tdiv, SCALE,
};
use crate::vector::{
    cross3, cross_scaled3, div_scale3, dot3, len3, lemma_products_bounded, sub3, v3, vec_bounded,
    vec_in_range, Triple, Vec3,
};
use crate::vertex::{vertex_in_range, Vertex};

verus! {

/// A triangle: three vertices and the face normal computed once from
/// its edges at construction.  The cached normal must be recomputed
/// (`calculate_triangle_normal`) whenever a vertex position changes;
/// all methods require the well-formedness predicate `wf` that ties
/// the cache to the vertices.
#[derive(Clone, Copy, Debug)]
pub struct Triangle {
    pub v0: Vertex,
    pub v1: Vertex,
    pub v2: Vertex,
    pub normal: Triple,
}

/// Edge from the first to the second vertex.
pub open spec fn edge01(t: Triangle) -> Vec3 {
    sub3(v3(t.v1.position), v3(t.v0.position))
}

/// Edge from the first to the third vertex.
pub open spec fn edge02(t: Triangle) -> Vec3 {
    sub3(v3(t.v2.position), v3(t.v0.position))
}

/// The face normal a well-formed triangle caches: the fixed-point
/// cross product of its two edges, in winding order.
pub open spec fn normal_spec(t: Triangle) -> Vec3 {
    cross_scaled3(edge01(t), edge02(t))
}

/// The exact (unscaled) edge cross product; the triangle has positive
/// area exactly when it is non-zero.
pub open spec fn exact_normal(t: Triangle) -> Vec3 {
    cross3(edge01(t), edge02(t))
}

/// The triangle spans a positive area.
pub open spec fn positive_area(t: Triangle) -> bool {
    exact_normal(t) != (Vec3 { x: 0, y: 0, z: 0 })
}

/// One edge-function value: the exact dot product of the face normal
/// with the cross product of an edge vector and the vector from the
/// edge's start to the query point.
pub open spec fn edge_test(n: Vec3, e: Vec3, c: Vec3) -> int {
    dot3(n, cross3(e, c))
}

/// Exact point-containment predicate: the point is inside when all
/// three edge functions are non-negative.  Boundary points, vertices
/// included, count as inside.
pub open spec fn in_triangle3(t: Triangle, p: Vec3) -> bool {
    let n = v3(t.normal);
    edge_test(n, sub3(v3(t.v1.position), v3(t.v0.position)), sub3(p, v3(t.v0.position))) >= 0
        && edge_test(n, sub3(v3(t.v2.position), v3(t.v1.position)), sub3(p, v3(t.v1.position)))
        >= 0
        && edge_test(n, sub3(v3(t.v0.position), v3(t.v2.position)), sub3(p, v3(t.v2.position)))
        >= 0
}

/// Barycentric weight of the second vertex: the ratio of the length of
/// the sub-triangle cross product to the full edge cross product, in
/// fixed point.
pub open spec fn bary_u(t: Triangle, p: Vec3) -> int {
    (SCALE as int * len3(cross3(sub3(p, v3(t.v0.position)), edge02(t)))) / len3(exact_normal(t))
}

/// Barycentric weight of the third vertex.
pub open spec fn bary_v(t: Triangle, p: Vec3) -> int {
    (SCALE as int * len3(cross3(edge01(t), sub3(p, v3(t.v0.position))))) / len3(exact_normal(t))
}

/// A well-formed normal is bounded well below the limits of the
/// product-forming operations.
pub proof fn lemma_wf_normal_bounded(t: Triangle)
    requires
        t.wf(),
    ensures
        vec_bounded(v3(t.normal), 8_000_000_000_000),
{
    let a = edge01(t);
    let b = edge02(t);
    lemma_products_bounded(a, b, 2_000_000_000, 2_000_000_000);
    let cr = cross3(a, b);
    lemma_tdiv_mag(cr.x, SCALE as int, 8_000_000_000_000_000_000);
    lemma_tdiv_mag(cr.y, SCALE as int, 8_000_000_000_000_000_000);
    lemma_tdiv_mag(cr.z, SCALE as int, 8_000_000_000_000_000_000);
}

/// A vector crossed with itself vanishes.
proof fn lemma_cross_self_zero(a: Vec3)
    ensures
        cross3(a, a) == (Vec3 { x: 0, y: 0, z: 0 }),
{
    assert(a.y * a.z - a.z * a.y == 0) by (nonlinear_arith);
    assert(a.z * a.x - a.x * a.z == 0) by (nonlinear_arith);
    assert(a.x * a.y - a.y * a.x == 0) by (nonlinear_arith);
}

/// `(b - a) x (-a) == a x b`: the second edge function at the first
/// vertex reproduces the exact edge cross product.
proof fn lemma_cross_vertex_first(a: Vec3, b: Vec3)
    ensures
        cross3(sub3(b, a), Vec3 { x: -a.x, y: -a.y, z: -a.z }) == cross3(a, b),
{
    assert((b.y - a.y) * (-a.z) - (b.z - a.z) * (-a.y) == a.y * b.z - a.z * b.y)
        by (nonlinear_arith);
    assert((b.z - a.z) * (-a.x) - (b.x - a.x) * (-a.z) == a.z * b.x - a.x * b.z)
        by (nonlinear_arith);
    assert((b.x - a.x) * (-a.y) - (b.y - a.y) * (-a.x) == a.x * b.y - a.y * b.x)
        by (nonlinear_arith);
}

/// `(-b) x (a - b) == a x b`: the third edge function at the second
/// vertex reproduces the exact edge cross product.
proof fn lemma_cross_vertex_second(a: Vec3, b: Vec3)
    ensures
        cross3(Vec3 { x: -b.x, y: -b.y, z: -b.z }, sub3(a, b)) == cross3(a, b),
{
    assert((-b.y) * (a.z - b.z) - (-b.z) * (a.y - b.y) == a.y * b.z - a.z * b.y)
        by (nonlinear_arith);
    assert((-b.z) * (a.x - b.x) - (-b.x) * (a.z - b.z) == a.z * b.x - a.x * b.z)
        by (nonlinear_arith);
    assert((-b.x) * (a.y - b.y) - (-b.y) * (a.x - b.x) == a.x * b.y - a.y * b.x)
        by (nonlinear_arith);
}

/// A vector truncated down by `SCALE` still points no further than a
/// right angle from the untruncated vector: their dot product is
/// non-negative.
proof fn lemma_dot_div_scale_nonneg(x: Vec3)
    ensures
        0 <= dot3(div_scale3(x), x),
{
    lemma_tdiv_mag(x.x, SCALE as int, iabs(x.x));
    lemma_tdiv_mag(x.y, SCALE as int, iabs(x.y));
    lemma_tdiv_mag(x.z, SCALE as int, iabs(x.z));
    assert(0 <= tdiv(x.x, SCALE as int) * x.x) by (nonlinear_arith)
        requires
            x.x >= 0 ==> tdiv(x.x, SCALE as int) >= 0,
            x.x <= 0 ==> tdiv(x.x, SCALE as int) <= 0,
    ;
    assert(0 <= tdiv(x.y, SCALE as int) * x.y) by (nonlinear_arith)
        requires
            x.y >= 0 ==> tdiv(x.y, SCALE as int) >= 0,
            x.y <= 0 ==> tdiv(x.y, SCALE as int) <= 0,
    ;
    assert(0 <= tdiv(x.z, SCALE as int) * x.z) by (nonlinear_arith)
        requires
            x.z >= 0 ==> tdiv(x.z, SCALE as int) >= 0,
            x.z <= 0 ==> tdiv(x.z, SCALE as int) <= 0,
    ;
}

/// Containment convention at the boundary: with exact arithmetic each
/// vertex of a well-formed triangle makes every edge function zero or
/// positive, so the triangle's own vertices are classified inside.
pub proof fn lemma_vertices_in_triangle(t: Triangle)
    requires
        t.wf(),
    ensures
        in_triangle3(t, v3(t.v0.position)),
        in_triangle3(t, v3(t.v1.position)),
        in_triangle3(t, v3(t.v2.position)),
{
    let a = edge01(t);
    let b = edge02(t);
    let n = v3(t.normal);
    lemma_cross_self_zero(a);
    lemma_cross_self_zero(sub3(b, a));
    lemma_cross_self_zero(Vec3 { x: -b.x, y: -b.y, z: -b.z });
    lemma_cross_vertex_first(a, b);
    lemma_cross_vertex_second(a, b);
    lemma_dot_div_scale_nonneg(cross3(a, b));
    let zero = Vec3 { x: 0, y: 0, z: 0 };
    assert(cross3(sub3(v3(t.v1.position), v3(t.v0.position)), zero) == zero);
    assert(cross3(sub3(v3(t.v2.position), v3(t.v1.position)), zero) == zero);
    assert(cross3(sub3(v3(t.v0.position), v3(t.v2.position)), zero) == zero);
    assert(sub3(v3(t.v2.position), v3(t.v1.position)) == sub3(b, a));
    assert(sub3(v3(t.v0.position), v3(t.v1.position)) == (Vec3 { x: -a.x, y: -a.y, z: -a.z }));
    assert(sub3(v3(t.v0.position), v3(t.v2.position)) == (Vec3 { x: -b.x, y: -b.y, z: -b.z }));
    assert(sub3(v3(t.v1.position), v3(t.v2.position)) == sub3(a, b));
    assert(dot3(n, zero) == 0);
}

/// One exact edge-function value, computed in 128-bit arithmetic.
fn edge_test_exec(n: &Triple, e: &Triple, c: &Triple) -> (r: i128)
    requires
        vec_bounded(v3(*n), 8_000_000_000_000),
        vec_bounded(v3(*e), 2_000_000_000),
        vec_bounded(v3(*c), 2_000_000_000),
    ensures
        r as int == edge_test(v3(*n), v3(*e), v3(*c)),
{
    proof {
        lemma_products_bounded(v3(*e), v3(*c), 2_000_000_000, 2_000_000_000);
        let cr = cross3(v3(*e), v3(*c));
        lemma_mul_mag(n.x as int, cr.x, 8_000_000_000_000, 8_000_000_000_000_000_000);
        lemma_mul_mag(n.y as int, cr.y, 8_000_000_000_000, 8_000_000_000_000_000_000);
        lemma_mul_mag(n.z as int, cr.z, 8_000_000_000_000, 8_000_000_000_000_000_000);
    }
    let cx = e.y as i128 * c.z as i128 - e.z as i128 * c.y as i128;
    let cy = e.z as i128 * c.x as i128 - e.x as i128 * c.z as i128;
    let cz = e.x as i128 * c.y as i128 - e.y as i128 * c.x as i128;
    n.x as i128 * cx + n.y as i128 * cy + n.z as i128 * cz
}

/// Fixed-point length of the exact cross product of two bounded
/// vectors.
fn cross_len(a: &Triple, b: &Triple) -> (r: u64)
    requires
        vec_bounded(v3(*a), 2_000_000_000),
        vec_bounded(v3(*b), 2_000_000_000),
    ensures
        r as int == len3(cross3(v3(*a), v3(*b))),
{
    proof {
        lemma_products_bounded(v3(*a), v3(*b), 2_000_000_000, 2_000_000_000);
    }
    let cx = a.y as i128 * b.z as i128 - a.z as i128 * b.y as i128;
    let cy = a.z as i128 * b.x as i128 - a.x as i128 * b.z as i128;
    let cz = a.x as i128 * b.y as i128 - a.y as i128 * b.x as i128;
    let ax: u128 = if cx < 0 { (-cx) as u128 } else { cx as u128 };
    let ay: u128 = if cy < 0 { (-cy) as u128 } else { cy as u128 };
    let az: u128 = if cz < 0 { (-cz) as u128 } else { cz as u128 };
    proof {
        let cr = cross3(v3(*a), v3(*b));
        lemma_mul_mag(ax as int, ax as int, 8_000_000_000_000_000_000, 8_000_000_000_000_000_000);
        lemma_mul_mag(ay as int, ay as int, 8_000_000_000_000_000_000, 8_000_000_000_000_000_000);
        lemma_mul_mag(az as int, az as int, 8_000_000_000_000_000_000, 8_000_000_000_000_000_000);
        assert(ax as int * ax as int == cr.x * cr.x) by (nonlinear_arith)
            requires
                ax as int == iabs(cr.x),
                iabs(cr.x) == if cr.x < 0 { -cr.x } else { cr.x },
        ;
        assert(ay as int * ay as int == cr.y * cr.y) by (nonlinear_arith)
            requires
                ay as int == iabs(cr.y),
                iabs(cr.y) == if cr.y < 0 { -cr.y } else { cr.y },
        ;
        assert(az as int * az as int == cr.z * cr.z) by (nonlinear_arith)
            requires
                az as int == iabs(cr.z),
                iabs(cr.z) == if cr.z < 0 { -cr.z } else { cr.z },
        ;
    }
    let s: u128 = ax * ax + ay * ay + az * az;
    isqrt(s)
}

impl Triangle {
    /// The cached face normal matches the vertices and every
    /// coordinate the geometry computes with is in range.
    pub open spec fn wf(&self) -> bool {
        vertex_in_range(self.v0) && vertex_in_range(self.v1) && vertex_in_range(self.v2)
            && v3(self.normal) == normal_spec(*self)
    }

    /// Build a triangle from three vertices, computing and caching the
    /// face normal from the winding order `v0 -> v1 -> v2`.
    pub fn new(v0: Vertex, v1: Vertex, v2: Vertex) -> (r: Triangle)
        requires
            vertex_in_range(v0),
            vertex_in_range(v1),
            vertex_in_range(v2),
        ensures
            r.v0 == v0,
            r.v1 == v1,
            r.v2 == v2,
            r.wf(),
    {
        let mut t = Triangle { v0, v1, v2, normal: Triple::new(0, 0, 0) };
        let n = t.calculate_triangle_normal();
        t.normal = n;
        t
    }

    /// The cached face normal.  Its magnitude is twice the triangle's
    /// area; its sign follows the winding order of the vertices.
    pub fn triangle_normal(&self) -> (r: &Triple)
        ensures
            *r == self.normal,
    {
        &self.normal
    }

    /// The face normal recomputed from the current vertex positions:
    /// the fixed-point cross product of the two edges at `v0`.
    pub fn calculate_triangle_normal(&self) -> (r: Triple)
        requires
            vec_in_range(v3(self.v0.position)),
            vec_in_range(v3(self.v1.position)),
            vec_in_range(v3(self.v2.position)),
        ensures
            v3(r) == normal_spec(*self),
    {
        proof {
            lemma_products_bounded(edge01(*self), edge02(*self), 2_000_000_000, 2_000_000_000);
            let cr = cross3(edge01(*self), edge02(*self));
            lemma_tdiv_mag(cr.x, SCALE as int, 8_000_000_000_000_000_000);
            lemma_tdiv_mag(cr.y, SCALE as int, 8_000_000_000_000_000_000);
            lemma_tdiv_mag(cr.z, SCALE as int, 8_000_000_000_000_000_000);
        }
        let e1 = self.v1.position.sub(&self.v0.position);
        let e2 = self.v2.position.sub(&self.v0.position);
        e1.cross_product(&e2)
    }

    /// Exact point-containment test by the three edge functions
    /// against the cached normal.  Boundary points count as inside;
    /// with integer arithmetic the comparison threshold is exactly
    /// zero, so no interior point is ever misclassified.
    pub fn point_in_triangle(&self, point: &Triple) -> (r: bool)
        requires
            self.wf(),
            vec_in_range(v3(*point)),
        ensures
            r == in_triangle3(*self, v3(*point)),
    {
        proof {
            lemma_wf_normal_bounded(*self);
        }
        let e0 = self.v1.position.sub(&self.v0.position);
        let c0 = point.sub(&self.v0.position);
        if edge_test_exec(&self.normal, &e0, &c0) < 0 {
            return false;
        }
        let e1 = self.v2.position.sub(&self.v1.position);
        let c1 = point.sub(&self.v1.position);
        if edge_test_exec(&self.normal, &e1, &c1) < 0 {
            return false;
        }
        let e2 = self.v0.position.sub(&self.v2.position);
        let c2 = point.sub(&self.v2.position);
        if edge_test_exec(&self.normal, &e2, &c2) < 0 {
            return false;
        }
        true
    }

    /// Half the magnitude of the cached face normal.
    pub fn area(&self) -> (r: i64)
        requires
            self.wf(),
        ensures
            r as int == len3(v3(self.normal)) / 2,
            0 <= r,
    {
        proof {
            lemma_wf_normal_bounded(*self);
        }
        let len = self.normal.get_length();
        ((len as u64) / 2) as i64
    }

    /// Barycentric weights of the second and the third vertex, each a
    /// ratio of unsigned sub-triangle areas in fixed point.
    pub(crate) fn bary_scaled(&self, point: &Triple) -> (r: (u128, u128))
        requires
            self.wf(),
            vec_in_range(v3(*point)),
            positive_area(*self),
        ensures
            r.0 as int == bary_u(*self, v3(*point)),
            r.1 as int == bary_v(*self, v3(*point)),
    {
        let e01v = self.v1.position.sub(&self.v0.position);
        let e02v = self.v2.position.sub(&self.v0.position);
        let v0p = point.sub(&self.v0.position);
        let area_len = cross_len(&e01v, &e02v);
        proof {
            let cr = exact_normal(*self);
            assert(cr.x != 0 || cr.y != 0 || cr.z != 0);
            assert(1 <= cr.x * cr.x + cr.y * cr.y + cr.z * cr.z) by (nonlinear_arith)
                requires
                    cr.x != 0 || cr.y != 0 || cr.z != 0,
            ;
            lemma_sqrt_floor_exists(dot3(cr, cr));
            assert(area_len as int >= 1);
        }
        let lu = cross_len(&v0p, &e02v);
        let lv = cross_len(&e01v, &v0p);
        proof {
            lemma_mul_mag(SCALE as int, lu as int, 1_000_000, 0xFFFF_FFFF_FFFF_FFFF);
            lemma_mul_mag(SCALE as int, lv as int, 1_000_000, 0xFFFF_FFFF_FFFF_FFFF);
        }
        let u = (SCALE as u128) * (lu as u128) / (area_len as u128);
        let v = (SCALE as u128) * (lv as u128) / (area_len as u128);
        (u, v)
    }

    /// Barycentric coordinates `(u, v, w)` of a point, with
    /// `w = 1 - u - v` so that the three always sum to one exactly.
    /// The unsigned area ratios discard sign, so this is meaningful
    /// only for points already known to lie in the triangle; it is not
    /// an inside test.
    pub fn get_barycentric_coordinates(&self, point: &Triple) -> (r: Triple)
        requires
            self.wf(),
            vec_in_range(v3(*point)),
            positive_area(*self),
            bary_u(*self, v3(*point)) + bary_v(*self, v3(*point)) <= i64::MAX,
        ensures
            r.x as int == bary_u(*self, v3(*point)),
            r.y as int == bary_v(*self, v3(*point)),
            r.z as int == SCALE - r.x - r.y,
            r.x + r.y + r.z == SCALE,
    {
        let (u, v) = self.bary_scaled(point);
        let ux = u as i64;
        let vx = v as i64;
        let w = SCALE - ux - vx;
        Triple { x: ux, y: vx, z: w }
    }
}

} // verus!
