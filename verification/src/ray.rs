//! Rays and ray/triangle intersection with ray-kind-aware back-face
//! culling.

use vstd::prelude::*;
use crate::fixed::{div_trunc, lemma_mul_mag, lemma_tdiv_mag, tdiv, COORD_LIMIT, SCALE};
use crate::triangle::{
    bary_u, bary_v, exact_normal, in_triangle3, lemma_wf_normal_bounded, Triangle,
};
use crate::vector::{
    add3, dot3, dot_scaled3, lemma_products_bounded, scale3, v3, vec_in_range, Triple, Vec3,
};

verus! {

/// The role a ray plays, fixed at construction.  Back-face culling
/// applies only to camera rays: shadow, reflection and refraction
/// rays may hit either face of a surface.
#[derive(Clone, Copy, PartialEq, Eq, Structural, Debug)]
pub enum RayType {
    CameraRay,
    ShadowRay,
    ReflectionRay,
    RefractionRay,
}

/// A successful ray/triangle intersection: the distance along the
/// ray, the world-space hit point, the face normal at the hit, and
/// the barycentric coordinates of the hit point.
#[derive(Clone, Copy, Debug)]
pub struct Intersection {
    pub distance: i64,
    pub hit_point: Triple,
    pub hit_normal: Triple,
    pub uv: Triple,
}

/// A ray: origin, direction and kind.  The direction need not be
/// normalized, but `distance` in an `Intersection` means physical
/// distance only when it is.
#[derive(Clone, Copy, Debug)]
pub struct Ray {
    pub origin: Triple,
    pub direction: Triple,
    pub kind: RayType,
}

/// Fixed-point dot product of the ray direction with the face normal:
/// negative when the face is oriented toward the ray.
pub open spec fn normal_dot_direction(r: Ray, t: Triangle) -> int {
    dot_scaled3(v3(r.direction), v3(t.normal))
}

/// Signed distance term of the triangle's plane equation, from the
/// first vertex and the face normal.
pub open spec fn plane_distance(t: Triangle) -> int {
    -dot_scaled3(v3(t.v0.position), v3(t.normal))
}

/// Numerator of the ray parameter at the plane crossing.
pub open spec fn t_numerator(r: Ray, t: Triangle) -> int {
    dot_scaled3(v3(t.normal), v3(r.origin)) + plane_distance(t)
}

/// Ray parameter of the plane crossing, in fixed point.
pub open spec fn ray_t(r: Ray, t: Triangle) -> int {
    tdiv(-t_numerator(r, t) * SCALE, normal_dot_direction(r, t))
}

/// The candidate hit point: `origin + direction * t` in fixed point.
pub open spec fn hit_point3(r: Ray, t: Triangle) -> Vec3 {
    add3(v3(r.origin), scale3(v3(r.direction), ray_t(r, t)))
}

/// A camera ray is culled when the face is oriented away from it.
pub open spec fn culled(r: Ray, t: Triangle) -> bool {
    r.kind == RayType::CameraRay && normal_dot_direction(r, t) >= 0
}

/// Exactly when the intersection test reports a hit: the ray is not
/// culled, is not parallel to the plane, crosses the plane at a
/// non-negative representable parameter, and the crossing point lies
/// in the coordinate range, inside the triangle, with representable
/// barycentric weights.
pub open spec fn accepts(r: Ray, t: Triangle) -> bool {
    &&& !culled(r, t)
    &&& normal_dot_direction(r, t) != 0
    &&& 0 <= ray_t(r, t) <= i64::MAX
    &&& vec_in_range(hit_point3(r, t))
    &&& in_triangle3(t, hit_point3(r, t))
    &&& bary_u(t, hit_point3(r, t)) <= COORD_LIMIT
    &&& bary_v(t, hit_point3(r, t)) <= COORD_LIMIT
}

impl Ray {
    /// Build a ray from origin, direction and kind.
    pub fn new(origin: Triple, direction: Triple, kind: RayType) -> (r: Ray)
        ensures
            r.origin == origin,
            r.direction == direction,
            r.kind == kind,
    {
        Ray { origin, direction, kind }
    }

    /// Single-triangle intersection test: returns the one crossing of
    /// the ray with the triangle, or `None` for a miss.  A miss is a
    /// normal outcome, not an error; nearest-hit selection over many
    /// triangles is the caller's concern.  A ray parallel to the
    /// triangle's plane is rejected by an explicit zero guard rather
    /// than by a division.
    pub fn intersect_triangle(&self, triangle: &Triangle) -> (res: Option<Intersection>)
        requires
            triangle.wf(),
            vec_in_range(v3(self.origin)),
            vec_in_range(v3(self.direction)),
        ensures
            res is Some <==> accepts(*self, *triangle),
            res matches Some(i) ==> {
                &&& i.distance as int == ray_t(*self, *triangle)
                &&& v3(i.hit_point) == hit_point3(*self, *triangle)
                &&& i.hit_normal == triangle.normal
                &&& i.uv.x as int == bary_u(*triangle, hit_point3(*self, *triangle))
                &&& i.uv.y as int == bary_v(*triangle, hit_point3(*self, *triangle))
                &&& i.uv.z as int == SCALE - i.uv.x - i.uv.y
            },
    {
        proof {
            lemma_wf_normal_bounded(*triangle);
            lemma_products_bounded(
                v3(self.direction),
                v3(triangle.normal),
                1_000_000_000,
                8_000_000_000_000,
            );
            lemma_tdiv_mag(
                dot3(v3(self.direction), v3(triangle.normal)),
                SCALE as int,
                24_000_000_000_000_000_000_000,
            );
            lemma_products_bounded(
                v3(triangle.v0.position),
                v3(triangle.normal),
                1_000_000_000,
                8_000_000_000_000,
            );
            lemma_tdiv_mag(
                dot3(v3(triangle.v0.position), v3(triangle.normal)),
                SCALE as int,
                24_000_000_000_000_000_000_000,
            );
            lemma_products_bounded(
                v3(triangle.normal),
                v3(self.origin),
                8_000_000_000_000,
                1_000_000_000,
            );
            lemma_tdiv_mag(
                dot3(v3(triangle.normal), v3(self.origin)),
                SCALE as int,
                24_000_000_000_000_000_000_000,
            );
        }
        let triangle_normal = *triangle.triangle_normal();
        let normal_dot_dir = self.direction.dot_product(&triangle_normal);

        if self.kind == RayType::CameraRay && normal_dot_dir >= 0 {
            return None;
        }
        if normal_dot_dir == 0 {
            return None;
        }

        let distance_to_plane = -(triangle.v0.position.dot_product(&triangle_normal));
        let num = triangle_normal.dot_product(&self.origin) + distance_to_plane;
        proof {
            lemma_mul_mag(num as int, SCALE as int, 48_000_000_000_000_000, 1_000_000);
            lemma_mul_mag(-(num as int), SCALE as int, 48_000_000_000_000_000, 1_000_000);
        }
        let t128 = div_trunc(-(num as i128) * SCALE as i128, normal_dot_dir as i128);
        if t128 < 0 {
            return None;
        }
        if t128 > i64::MAX as i128 {
            return None;
        }
        let t = t128 as i64;

        proof {
            let dd = v3(self.direction);
            let tt = ray_t(*self, *triangle);
            lemma_mul_mag(dd.x, tt, 1_000_000_000, i64::MAX as int);
            lemma_mul_mag(dd.y, tt, 1_000_000_000, i64::MAX as int);
            lemma_mul_mag(dd.z, tt, 1_000_000_000, i64::MAX as int);
            lemma_tdiv_mag(dd.x * tt, SCALE as int, 0x10000_0000_0000_0000_0000_0000);
            lemma_tdiv_mag(dd.y * tt, SCALE as int, 0x10000_0000_0000_0000_0000_0000);
            lemma_tdiv_mag(dd.z * tt, SCALE as int, 0x10000_0000_0000_0000_0000_0000);
        }
        let hx = self.origin.x as i128 + div_trunc(
            self.direction.x as i128 * t as i128,
            SCALE as i128,
        );
        let hy = self.origin.y as i128 + div_trunc(
            self.direction.y as i128 * t as i128,
            SCALE as i128,
        );
        let hz = self.origin.z as i128 + div_trunc(
            self.direction.z as i128 * t as i128,
            SCALE as i128,
        );
        if hx < -(COORD_LIMIT as i128) || hx > COORD_LIMIT as i128 || hy < -(COORD_LIMIT as i128)
            || hy > COORD_LIMIT as i128 || hz < -(COORD_LIMIT as i128)
            || hz > COORD_LIMIT as i128 {
            return None;
        }
        let intersection_point = Triple { x: hx as i64, y: hy as i64, z: hz as i64 };

        if !triangle.point_in_triangle(&intersection_point) {
            return None;
        }

        proof {
            let n3 = v3(triangle.normal);
            let zero = Vec3 { x: 0, y: 0, z: 0 };
            if exact_normal(*triangle) == zero {
                assert(n3 == zero);
                let d3 = v3(self.direction);
                assert(d3.x * n3.x == 0) by (nonlinear_arith)
                    requires
                        n3.x == 0,
                ;
                assert(d3.y * n3.y == 0) by (nonlinear_arith)
                    requires
                        n3.y == 0,
                ;
                assert(d3.z * n3.z == 0) by (nonlinear_arith)
                    requires
                        n3.z == 0,
                ;
                assert(dot3(d3, n3) == 0);
                assert(normal_dot_direction(*self, *triangle) == 0);
                assert(false);
            }
        }
        let (bu, bv) = triangle.bary_scaled(&intersection_point);
        if bu > COORD_LIMIT as u128 || bv > COORD_LIMIT as u128 {
            return None;
        }
        let u = bu as i64;
        let v = bv as i64;
        let w = SCALE - u - v;

        Some(
            Intersection {
                distance: t,
                hit_point: intersection_point,
                hit_normal: triangle_normal,
                uv: Triple { x: u, y: v, z: w },
            },
        )
    }
}

} // verus!
