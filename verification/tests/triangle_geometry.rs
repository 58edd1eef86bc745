use tracer_core::fixed::SCALE;
use tracer_core::triangle::Triangle;
use tracer_core::vector::Triple;
use tracer_core::vertex::Vertex;

fn t(x: i64, y: i64, z: i64) -> Triple {
    Triple { x, y, z }
}

fn vert(p: Triple) -> Vertex {
    Vertex { position: p, normal: t(0, 0, SCALE), uv: t(0, 0, 0) }
}

/// The triangle with vertices (0,0,0), (1,0,0), (0,1,0).
fn unit_triangle() -> Triangle {
    Triangle::new(
        vert(t(0, 0, 0)),
        vert(t(SCALE, 0, 0)),
        vert(t(0, SCALE, 0)),
    )
}

#[test]
fn normal_follows_winding_order() {
    let tri = unit_triangle();
    assert_eq!(*tri.triangle_normal(), t(0, 0, SCALE));
    assert_eq!(tri.calculate_triangle_normal(), t(0, 0, SCALE));
}

#[test]
fn area_is_half_the_normal_length() {
    let tri = unit_triangle();
    assert_eq!(tri.area(), SCALE / 2);
}

#[test]
fn interior_point_is_inside() {
    let tri = unit_triangle();
    assert!(tri.point_in_triangle(&t(SCALE / 4, SCALE / 4, 0)));
}

#[test]
fn exterior_point_is_outside() {
    let tri = unit_triangle();
    assert!(!tri.point_in_triangle(&t(SCALE, SCALE, 0)));
    assert!(!tri.point_in_triangle(&t(-SCALE / 4, SCALE / 4, 0)));
}

#[test]
fn vertices_are_classified_inside() {
    // The documented boundary convention: with exact arithmetic every
    // vertex of the triangle itself counts as inside.
    let tri = unit_triangle();
    assert!(tri.point_in_triangle(&t(0, 0, 0)));
    assert!(tri.point_in_triangle(&t(SCALE, 0, 0)));
    assert!(tri.point_in_triangle(&t(0, SCALE, 0)));
}

#[test]
fn barycentric_coordinates_of_interior_point() {
    let tri = unit_triangle();
    let bc = tri.get_barycentric_coordinates(&t(SCALE / 4, SCALE / 4, 0));
    assert_eq!(bc, t(250_000, 250_000, 500_000));
}

#[test]
fn barycentric_coordinates_sum_to_one() {
    let tri = unit_triangle();
    let bc = tri.get_barycentric_coordinates(&t(SCALE / 4, SCALE / 4, 0));
    assert_eq!(bc.x + bc.y + bc.z, SCALE);
    let bc2 = tri.get_barycentric_coordinates(&t(100_000, 700_000, 0));
    assert_eq!(bc2.x + bc2.y + bc2.z, SCALE);
}

#[test]
fn barycentric_coordinates_of_vertices() {
    let tri = unit_triangle();
    assert_eq!(tri.get_barycentric_coordinates(&t(0, 0, 0)), t(0, 0, SCALE));
    assert_eq!(tri.get_barycentric_coordinates(&t(SCALE, 0, 0)), t(SCALE, 0, 0));
    assert_eq!(tri.get_barycentric_coordinates(&t(0, SCALE, 0)), t(0, SCALE, 0));
}
