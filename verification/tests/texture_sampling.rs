use tracer_core::fixed::SCALE;
use tracer_core::texture::{
    interpolate_coordinates, AlbedoTexture, BitmapTexture, CheckerTexture, EdgeTexture,
};
use tracer_core::triangle::Triangle;
use tracer_core::vector::Triple;
use tracer_core::vertex::Vertex;

fn t(x: i64, y: i64, z: i64) -> Triple {
    Triple { x, y, z }
}

fn vert(p: Triple, uv: Triple) -> Vertex {
    Vertex { position: p, normal: t(0, 0, SCALE), uv }
}

/// The unit triangle with distinct texture coordinates per vertex.
fn uv_triangle() -> Triangle {
    Triangle::new(
        vert(t(0, 0, 0), t(0, 0, 0)),
        vert(t(SCALE, 0, 0), t(250_000, 0, 0)),
        vert(t(0, SCALE, 0), t(0, SCALE, 0)),
    )
}

#[test]
fn albedo_ignores_the_hit() {
    let tex = AlbedoTexture { name: String::from("flat"), albedo: t(100, 200, 300) };
    let tri = uv_triangle();
    assert_eq!(tex.get_color(&tri, &t(SCALE, 0, 0)), t(100, 200, 300));
    assert_eq!(tex.get_color(&tri, &t(0, 0, SCALE)), t(100, 200, 300));
}

#[test]
fn edge_texture_returns_the_edge_color_near_an_edge() {
    let tex = EdgeTexture {
        name: String::from("wire"),
        inner_color: t(SCALE, SCALE, SCALE),
        edge_color: t(0, 0, 0),
        width: 100_000,
    };
    let tri = uv_triangle();
    assert_eq!(tex.get_color(&tri, &t(50_000, 500_000, 450_000)), t(0, 0, 0));
    assert_eq!(tex.get_color(&tri, &t(400_000, 300_000, 300_000)), t(SCALE, SCALE, SCALE));
}

#[test]
fn interpolation_uses_the_offset_vertex_pairing() {
    // The weight in slot 0 multiplies the texture coordinate of
    // vertex 1, not vertex 0: full weight in slot 0 reproduces
    // v1's coordinate.
    let tri = uv_triangle();
    assert_eq!(interpolate_coordinates(&tri, &t(SCALE, 0, 0)), t(250_000, 0, 0));
    assert_eq!(interpolate_coordinates(&tri, &t(0, SCALE, 0)), t(0, SCALE, 0));
    assert_eq!(interpolate_coordinates(&tri, &t(0, 0, SCALE)), t(0, 0, 0));
}

#[test]
fn interpolation_is_invariant_under_joint_rotation() {
    // Rotating the weights together with the vertices keeps the
    // sample; the same weights against the fixed triangle do not.
    let tri = uv_triangle();
    let rotated = Triangle::new(
        vert(t(SCALE, 0, 0), t(250_000, 0, 0)),
        vert(t(0, SCALE, 0), t(0, SCALE, 0)),
        vert(t(0, 0, 0), t(0, 0, 0)),
    );
    let bc = t(600_000, 300_000, 100_000);
    let bc_rot = t(300_000, 100_000, 600_000);
    assert_eq!(
        interpolate_coordinates(&rotated, &bc_rot),
        interpolate_coordinates(&tri, &bc)
    );
    assert_ne!(
        interpolate_coordinates(&tri, &bc_rot),
        interpolate_coordinates(&tri, &bc)
    );
}

#[test]
fn checker_alternates_with_the_cell_parity() {
    let tex = CheckerTexture {
        first_color: t(SCALE, 0, 0),
        second_color: t(0, SCALE, 0),
        square_size: 250_000,
    };
    let tri = uv_triangle();
    // Full weight on slot 2 samples v0's coordinate (0, 0): cell
    // (0, 0), matching parity.
    assert_eq!(tex.get_color(&tri, &t(0, 0, SCALE)), t(SCALE, 0, 0));
    // Full weight on slot 0 samples v1's coordinate (0.25, 0): cell
    // (1, 0), differing parity.  Under the slot-identity pairing this
    // would sample v0 and flip the answer.
    assert_eq!(tex.get_color(&tri, &t(SCALE, 0, 0)), t(0, SCALE, 0));
    // Full weight on slot 1 samples v2's coordinate (0, 1): cell
    // (0, 4), matching parity.
    assert_eq!(tex.get_color(&tri, &t(0, SCALE, 0)), t(SCALE, 0, 0));
}

#[test]
fn bitmap_new_normalizes_the_byte_buffer() {
    let bytes: Vec<u8> = vec![
        255, 0, 0, /* pixel (0,0) */
        0, 255, 0, /* pixel (1,0) */
        0, 0, 255, /* pixel (0,1) */
        255, 255, 255, /* pixel (1,1) */
    ];
    let tex = BitmapTexture::new(String::from("img"), 2, 2, &bytes);
    assert_eq!(tex.width, 2);
    assert_eq!(tex.height, 2);
    assert_eq!(
        tex.buffer,
        vec![
            t(SCALE, 0, 0),
            t(0, SCALE, 0),
            t(0, 0, SCALE),
            t(SCALE, SCALE, SCALE),
        ]
    );
}

#[test]
fn bitmap_lookup_flips_v_and_clamps() {
    let bytes: Vec<u8> = vec![
        255, 0, 0,
        0, 255, 0,
        0, 0, 255,
        255, 255, 255,
    ];
    let tex = BitmapTexture::new(String::from("img"), 2, 2, &bytes);
    // v1 carries uv (0, 0): u = 0 gives column 0, v = 0 flips to the
    // bottom row, so the sample is pixel (0, 1).
    let tri = Triangle::new(
        vert(t(0, 0, 0), t(0, 0, 0)),
        vert(t(SCALE, 0, 0), t(0, 0, 0)),
        vert(t(0, SCALE, 0), t(500_000, SCALE, 0)),
    );
    assert_eq!(tex.get_color(&tri, &t(SCALE, 0, 0)), t(0, 0, SCALE));
    // v2 carries uv (0.5, 1): column 1, top row: pixel (1, 0).
    assert_eq!(tex.get_color(&tri, &t(0, SCALE, 0)), t(0, SCALE, 0));
}
