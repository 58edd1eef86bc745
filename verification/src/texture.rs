//! Texture sampling: pure functions from a triangle and barycentric
//! coordinates to a color.  Variants: constant albedo, edge
//! highlight, procedural checker, and pre-decoded bitmap lookup.

use vstd::prelude::*;
use vstd::arithmetic::div_mod::{
    lemma_div_is_ordered, lemma_div_pos_is_pos, lemma_fundamental_div_mod_converse,
};
use crate::fixed::{div_trunc, lemma_mul_mag, lemma_tdiv_mag, tdiv, SCALE};
use crate::triangle::Triangle;
use crate::vector::{
    add3, lemma_scale3_bounded, scale3, v3, vec_bounded, vec_in_range, Triple, Vec3,
};

verus! {

/// The texture coordinate interpolated at barycentric weights `bc`:
/// the weight in slot `i` multiplies the coordinate of vertex
/// `(i + 1) mod 3`.  This vertex-to-weight pairing is part of the
/// sampling contract; changing it changes the sampled color.
pub open spec fn interp_uv(t: Triangle, bc: Triple) -> Vec3 {
    add3(
        add3(scale3(v3(t.v1.uv), bc.x as int), scale3(v3(t.v2.uv), bc.y as int)),
        scale3(v3(t.v0.uv), bc.z as int),
    )
}

/// Interpolated texture coordinates of a well-formed triangle at
/// in-range weights stay within three times the product bound.
pub proof fn lemma_interp_bounded(t: Triangle, bc: Triple)
    requires
        t.wf(),
        vec_in_range(v3(bc)),
    ensures
        vec_bounded(interp_uv(t, bc), 3_000_000_000_000),
{
    lemma_scale3_bounded(v3(t.v1.uv), bc.x as int, 1_000_000_000, 1_000_000_000);
    lemma_scale3_bounded(v3(t.v2.uv), bc.y as int, 1_000_000_000, 1_000_000_000);
    lemma_scale3_bounded(v3(t.v0.uv), bc.z as int, 1_000_000_000, 1_000_000_000);
}

/// Interpolate the vertices' texture coordinates at the barycentric
/// weights, with the slot-to-vertex pairing of [`interp_uv`].
pub fn interpolate_coordinates(triangle: &Triangle, barycentric_coordinates: &Triple) -> (r:
    Triple)
    requires
        triangle.wf(),
        vec_in_range(v3(*barycentric_coordinates)),
    ensures
        v3(r) == interp_uv(*triangle, *barycentric_coordinates),
{
    proof {
        lemma_scale3_bounded(
            v3(triangle.v1.uv),
            barycentric_coordinates.x as int,
            1_000_000_000,
            1_000_000_000,
        );
        lemma_scale3_bounded(
            v3(triangle.v2.uv),
            barycentric_coordinates.y as int,
            1_000_000_000,
            1_000_000_000,
        );
        lemma_scale3_bounded(
            v3(triangle.v0.uv),
            barycentric_coordinates.z as int,
            1_000_000_000,
            1_000_000_000,
        );
    }
    let t1 = triangle.v1.uv.scale(barycentric_coordinates.x);
    let t2 = triangle.v2.uv.scale(barycentric_coordinates.y);
    let t0 = triangle.v0.uv.scale(barycentric_coordinates.z);
    t1.add(&t2).add(&t0)
}

/// Sampling follows the vertex-to-weight pairing, not the slot:
/// rotating the barycentric weights together with the triangle's
/// vertices leaves the interpolated texture coordinate, and so any
/// color sampled from it, unchanged.  Rotating the weights alone does
/// not.
pub proof fn lemma_interpolation_rotation_invariant(
    t1: Triangle,
    t2: Triangle,
    bc1: Triple,
    bc2: Triple,
)
    requires
        t2.v0 == t1.v1,
        t2.v1 == t1.v2,
        t2.v2 == t1.v0,
        bc2.x == bc1.y,
        bc2.y == bc1.z,
        bc2.z == bc1.x,
    ensures
        interp_uv(t2, bc2) == interp_uv(t1, bc1),
{
}

/// A constant-color texture: sampling ignores the hit entirely.
pub struct AlbedoTexture {
    pub name: String,
    pub albedo: Triple,
}

impl AlbedoTexture {
    /// The configured albedo, whatever the hit.
    pub fn get_color(&self, _triangle: &Triangle, _barycentric_coordinates: &Triple) -> (r: Triple)
        ensures
            r == self.albedo,
    {
        self.albedo
    }
}

/// An edge-highlight texture: one color near the triangle's border,
/// another in its interior.
pub struct EdgeTexture {
    pub name: String,
    pub inner_color: Triple,
    pub edge_color: Triple,
    pub width: i64,
}

impl EdgeTexture {
    /// The edge color wherever any barycentric weight falls below the
    /// configured width (the hit lies within the highlight band along
    /// an edge), the inner color elsewhere.
    pub fn get_color(&self, _triangle: &Triangle, barycentric_coordinates: &Triple) -> (r: Triple)
        ensures
            r == if barycentric_coordinates.x < self.width || barycentric_coordinates.y
                < self.width || barycentric_coordinates.z < self.width {
                self.edge_color
            } else {
                self.inner_color
            },
    {
        if barycentric_coordinates.x < self.width || barycentric_coordinates.y < self.width
            || barycentric_coordinates.z < self.width {
            return self.edge_color;
        }
        self.inner_color
    }
}

/// The checker cell index of one interpolated coordinate: the
/// truncated quotient by the square size, saturated to the 32-bit
/// index range.
pub open spec fn cell_index(v: int, size: int) -> int {
    let q = tdiv(v, size);
    if q < 0 {
        0
    } else if q > u32::MAX {
        u32::MAX as int
    } else {
        q
    }
}

/// A procedural checkerboard over the texture-coordinate plane.
pub struct CheckerTexture {
    pub first_color: Triple,
    pub second_color: Triple,
    pub square_size: i64,
}

impl CheckerTexture {
    /// The first color on cells whose x and y indices share parity,
    /// the second elsewhere, over the interpolated texture
    /// coordinates divided into squares of the configured size.
    pub fn get_color(&self, triangle: &Triangle, barycentric_coordinates: &Triple) -> (r: Triple)
        requires
            triangle.wf(),
            vec_in_range(v3(*barycentric_coordinates)),
            self.square_size >= 1,
        ensures
            r == if cell_index(
                interp_uv(*triangle, *barycentric_coordinates).x,
                self.square_size as int,
            ) % 2 == cell_index(
                interp_uv(*triangle, *barycentric_coordinates).y,
                self.square_size as int,
            ) % 2 {
                self.first_color
            } else {
                self.second_color
            },
    {
        let interp = interpolate_coordinates(triangle, barycentric_coordinates);
        proof {
            lemma_interp_bounded(*triangle, *barycentric_coordinates);
        }
        let qx = div_trunc(interp.x as i128, self.square_size as i128);
        let qy = div_trunc(interp.y as i128, self.square_size as i128);
        let x: u32 = if qx < 0 {
            0
        } else if qx > u32::MAX as i128 {
            u32::MAX
        } else {
            qx as u32
        };
        let y: u32 = if qy < 0 {
            0
        } else if qy > u32::MAX as i128 {
            u32::MAX
        } else {
            qy as u32
        };
        if x % 2 == y % 2 {
            self.first_color
        } else {
            self.second_color
        }
    }
}

/// One 8-bit channel normalized to fixed point: `b / 255` scaled.
pub open spec fn byte_fixed(b: u8) -> int {
    (b as int * SCALE) / 255
}

/// A normalized channel lies in the fixed-point [0, 1].
proof fn lemma_byte_fixed_bounds(b: u8)
    ensures
        0 <= byte_fixed(b) <= 1_000_000,
{
    lemma_div_pos_is_pos(b as int * SCALE, 255);
    lemma_div_is_ordered(b as int * SCALE, 255_000_000, 255);
    lemma_fundamental_div_mod_converse(255_000_000, 255, 1_000_000, 0);
}

/// The pixel column of an interpolated `u` coordinate: scaled by the
/// image width and clamped to the valid index range.
pub open spec fn pixel_x(u: int, w: int) -> int {
    let q = tdiv(u * w, SCALE as int);
    if q < 0 {
        0
    } else if q > w - 1 {
        w - 1
    } else {
        q
    }
}

/// The pixel row of an interpolated `v` coordinate: flipped
/// (`1 - v`), scaled by the image height and clamped to the valid
/// index range.
pub open spec fn pixel_y(vv: int, h: int) -> int {
    let q = tdiv((SCALE - vv) * h, SCALE as int);
    if q < 0 {
        0
    } else if q > h - 1 {
        h - 1
    } else {
        q
    }
}

/// The row-major buffer position sampled for a hit.
pub open spec fn bitmap_index(t: Triangle, bc: Triple, w: int, h: int) -> int {
    pixel_y(interp_uv(t, bc).y, h) * w + pixel_x(interp_uv(t, bc).x, w)
}

/// An image-backed texture: a pre-decoded row-major color buffer,
/// populated once from raw RGB bytes and never touched by I/O again.
pub struct BitmapTexture {
    pub name: String,
    pub width: u32,
    pub height: u32,
    pub buffer: Vec<Triple>,
}

impl BitmapTexture {
    /// The buffer holds one color per pixel of a non-empty image.
    pub open spec fn wf(&self) -> bool {
        1 <= self.width && 1 <= self.height && self.buffer.len() == (self.width as int) * (
        self.height as int)
    }

    /// Build from a decoded image: its dimensions and its row-major
    /// RGB bytes, three per pixel, top row first.  Each channel is
    /// normalized from 0..=255 to the fixed-point [0, 1] here, once.
    pub fn new(name: String, width: u32, height: u32, rgb: &[u8]) -> (r: Self)
        requires
            1 <= width,
            1 <= height,
            rgb@.len() == 3 * ((width as int) * (height as int)),
        ensures
            r.wf(),
            r.name == name,
            r.width == width,
            r.height == height,
            forall|k: int|
                0 <= k < (width as int) * (height as int) ==> #[trigger] r.buffer[k] == (Triple {
                    x: byte_fixed(rgb@[3 * k]) as i64,
                    y: byte_fixed(rgb@[3 * k + 1]) as i64,
                    z: byte_fixed(rgb@[3 * k + 2]) as i64,
                }),
    {
        proof {
            assert((width as int) * (height as int) >= 1) by (nonlinear_arith)
                requires
                    1 <= width as int,
                    1 <= height as int,
            ;
            assert((width as int) * (height as int) <= 0xFFFF_FFFF * 0xFFFF_FFFF)
                by (nonlinear_arith)
                requires
                    1 <= width as int <= 0xFFFF_FFFF,
                    1 <= height as int <= 0xFFFF_FFFF,
            ;
        }
        let rgb_len = rgb.len();
        let n: usize = (width as usize) * (height as usize);
        let mut buffer: Vec<Triple> = Vec::new();
        let mut k: usize = 0;
        while k < n
            invariant
                k <= n,
                n == (width as int) * (height as int),
                rgb@.len() == 3 * ((width as int) * (height as int)),
                rgb@.len() <= usize::MAX,
                buffer.len() == k,
                forall|q: int|
                    0 <= q < k ==> #[trigger] buffer[q] == (Triple {
                        x: byte_fixed(rgb@[3 * q]) as i64,
                        y: byte_fixed(rgb@[3 * q + 1]) as i64,
                        z: byte_fixed(rgb@[3 * q + 2]) as i64,
                    }),
            decreases n - k,
        {
            let base = 3 * k;
            proof {
                lemma_byte_fixed_bounds(rgb@[base as int]);
                lemma_byte_fixed_bounds(rgb@[base as int + 1]);
                lemma_byte_fixed_bounds(rgb@[base as int + 2]);
            }
            let cr = (rgb[base] as u64 * 1_000_000) / 255;
            let cg = (rgb[base + 1] as u64 * 1_000_000) / 255;
            let cb = (rgb[base + 2] as u64 * 1_000_000) / 255;
            buffer.push(Triple { x: cr as i64, y: cg as i64, z: cb as i64 });
            k = k + 1;
        }
        BitmapTexture { name, width, height, buffer }
    }

    /// Sample the pixel under the interpolated texture coordinates:
    /// `u` scaled by the width, `v` flipped and scaled by the height,
    /// both clamped to the valid index range of the row-major buffer.
    pub fn get_color(&self, triangle: &Triangle, barycentric_coordinates: &Triple) -> (r: Triple)
        requires
            self.wf(),
            triangle.wf(),
            vec_in_range(v3(*barycentric_coordinates)),
        ensures
            r == self.buffer[bitmap_index(
                *triangle,
                *barycentric_coordinates,
                self.width as int,
                self.height as int,
            )],
    {
        let interp = interpolate_coordinates(triangle, barycentric_coordinates);
        proof {
            lemma_interp_bounded(*triangle, *barycentric_coordinates);
            let iv = interp_uv(*triangle, *barycentric_coordinates);
            lemma_mul_mag(iv.x, self.width as int, 3_000_000_000_000, 0xFFFF_FFFF);
            lemma_tdiv_mag(
                iv.x * self.width as int,
                SCALE as int,
                100_000_000_000_000_000_000_000,
            );
            lemma_mul_mag(SCALE - iv.y, self.height as int, 4_000_000_000_000, 0xFFFF_FFFF);
            lemma_tdiv_mag(
                (SCALE - iv.y) * self.height as int,
                SCALE as int,
                100_000_000_000_000_000_000_000,
            );
        }
        let qx = div_trunc(interp.x as i128 * self.width as i128, SCALE as i128);
        let w1 = self.width - 1;
        let px: u32 = if qx < 0 {
            0
        } else if qx > w1 as i128 {
            w1
        } else {
            qx as u32
        };
        let sv = SCALE as i128 - interp.y as i128;
        let qy = div_trunc(sv * self.height as i128, SCALE as i128);
        let h1 = self.height - 1;
        let py: u32 = if qy < 0 {
            0
        } else if qy > h1 as i128 {
            h1
        } else {
            qy as u32
        };
        proof {
            let pxi = px as int;
            let pyi = py as int;
            let wi = self.width as int;
            let hi = self.height as int;
            assert(pyi * wi + pxi < wi * hi) by (nonlinear_arith)
                requires
                    0 <= pxi <= wi - 1,
                    0 <= pyi <= hi - 1,
                    1 <= wi,
                    1 <= hi,
            ;
        }
        let index = (py as usize) * (self.width as usize) + (px as usize);
        self.buffer[index]
    }
}

} // verus!
