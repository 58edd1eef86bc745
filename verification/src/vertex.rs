//! The atomic unit of mesh geometry: a position, a normal and a
//! texture coordinate.

use vstd::prelude::*;
use crate::vector::{v3, vec_in_range, Triple};

verus! {

/// A mesh vertex: a position (point), a normal (vector) and a texture
/// coordinate (a pair packed into a `Triple` whose third component is
/// padding).
#[derive(Clone, Copy, PartialEq, Eq, Structural, Debug)]
pub struct Vertex {
    pub position: Triple,
    pub normal: Triple,
    pub uv: Triple,
}

/// The components of a vertex that the geometry computes with lie in
/// the coordinate range of the library.
pub open spec fn vertex_in_range(v: Vertex) -> bool {
    vec_in_range(v3(v.position)) && vec_in_range(v3(v.uv))
}

impl Vertex {
    /// Build a vertex from its position, normal and texture coordinate.
    pub fn new(position: Triple, normal: Triple, uv: Triple) -> (r: Vertex)
        ensures
            r == (Vertex { position, normal, uv }),
    {
        Vertex { position, normal, uv }
    }
}

} // verus!
