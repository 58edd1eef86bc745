use tracer_core::fixed::SCALE;
use tracer_core::ray::{Ray, RayType};
use tracer_core::triangle::Triangle;
use tracer_core::vector::Triple;
use tracer_core::vertex::Vertex;

fn t(x: i64, y: i64, z: i64) -> Triple {
    Triple { x, y, z }
}

fn vert(p: Triple) -> Vertex {
    Vertex { position: p, normal: t(0, 0, SCALE), uv: t(0, 0, 0) }
}

/// The triangle with vertices (0,0,0), (1,0,0), (0,1,0); its normal
/// points along +z.
fn unit_triangle() -> Triangle {
    Triangle::new(
        vert(t(0, 0, 0)),
        vert(t(SCALE, 0, 0)),
        vert(t(0, SCALE, 0)),
    )
}

#[test]
fn camera_ray_hits_front_face() {
    // Origin (0,0,1) looking down (0,0,-1): hit at distance 1, point
    // (0,0,0), with the triangle's own precomputed normal.
    let tri = unit_triangle();
    let ray = Ray::new(t(0, 0, SCALE), t(0, 0, -SCALE), RayType::CameraRay);
    let hit = ray.intersect_triangle(&tri).expect("must intersect");
    assert_eq!(hit.distance, SCALE);
    assert_eq!(hit.hit_point, t(0, 0, 0));
    assert_eq!(hit.hit_normal, *tri.triangle_normal());
}

#[test]
fn camera_ray_is_rejected_by_back_face_culling() {
    // The reversed direction (0,0,1) sees the back of the face: a
    // camera ray must be culled even where the plane is crossed.
    let tri = unit_triangle();
    let from_behind = Ray::new(t(0, 0, -SCALE), t(0, 0, SCALE), RayType::CameraRay);
    assert!(from_behind.intersect_triangle(&tri).is_none());
    let from_front = Ray::new(t(0, 0, SCALE), t(0, 0, SCALE), RayType::CameraRay);
    assert!(from_front.intersect_triangle(&tri).is_none());
}

#[test]
fn shadow_ray_may_hit_the_back_face() {
    // The same reversed configuration with a shadow ray: no culling,
    // so the back face is hit.
    let tri = unit_triangle();
    let ray = Ray::new(t(0, 0, -SCALE), t(0, 0, SCALE), RayType::ShadowRay);
    let hit = ray.intersect_triangle(&tri).expect("shadow rays are not culled");
    assert_eq!(hit.distance, SCALE);
    assert_eq!(hit.hit_point, t(0, 0, 0));
}

#[test]
fn parallel_ray_misses() {
    let tri = unit_triangle();
    let ray = Ray::new(t(0, 0, SCALE), t(SCALE, 0, 0), RayType::ShadowRay);
    assert!(ray.intersect_triangle(&tri).is_none());
}

#[test]
fn plane_behind_origin_misses() {
    let tri = unit_triangle();
    let ray = Ray::new(t(0, 0, SCALE), t(0, 0, SCALE), RayType::ShadowRay);
    assert!(ray.intersect_triangle(&tri).is_none());
}

#[test]
fn crossing_outside_the_triangle_misses() {
    let tri = unit_triangle();
    let ray = Ray::new(t(SCALE, SCALE, SCALE), t(0, 0, -SCALE), RayType::CameraRay);
    assert!(ray.intersect_triangle(&tri).is_none());
}

#[test]
fn interior_hit_carries_barycentric_coordinates() {
    let tri = unit_triangle();
    let ray = Ray::new(
        t(SCALE / 4, SCALE / 4, SCALE),
        t(0, 0, -SCALE),
        RayType::CameraRay,
    );
    let hit = ray.intersect_triangle(&tri).expect("must intersect");
    assert_eq!(hit.hit_point, t(SCALE / 4, SCALE / 4, 0));
    assert_eq!(hit.uv, t(250_000, 250_000, 500_000));
    assert_eq!(hit.uv.x + hit.uv.y + hit.uv.z, SCALE);
}
