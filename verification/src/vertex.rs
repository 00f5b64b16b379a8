//! The three kinds of vertex that the shaders take.

use crate::scalar::Scalar;
use vstd::prelude::*;

verus! {

/// A vertex that is a position and nothing else.
#[derive(Copy, Clone, Debug)]
pub struct VertexFlat {
    pub position: [Scalar; 3],
}

impl VertexFlat {
    pub fn new(x: Scalar, y: Scalar, z: Scalar) -> (r: VertexFlat)
        ensures
            r.position@ == seq![x, y, z],
    {
        let r = VertexFlat { position: [x, y, z] };
        assert(r.position@ =~= seq![x, y, z]);
        r
    }
}

/// A vertex with its place in a texture.
#[derive(Copy, Clone, Debug)]
pub struct VertexTex {
    pub position: [Scalar; 3],
    pub tex_coords: [Scalar; 2],
}

impl VertexTex {
    pub fn new(x: Scalar, y: Scalar, z: Scalar, tex_coords: [Scalar; 2]) -> (r: VertexTex)
        ensures
            r.position@ == seq![x, y, z],
            r.tex_coords == tex_coords,
    {
        let r = VertexTex { position: [x, y, z], tex_coords };
        assert(r.position@ =~= seq![x, y, z]);
        r
    }
}

/// A vertex with the normal of its surface and its place in a texture.
#[derive(Copy, Clone, Debug)]
pub struct VertexNorm {
    pub position: [Scalar; 3],
    pub normal: [Scalar; 3],
    pub tex_coords: [Scalar; 2],
}

/// The vertex that lit shapes are made of.
pub type Vertex = VertexNorm;

impl VertexNorm {
    pub fn new(x: Scalar, y: Scalar, z: Scalar, normal: [Scalar; 3], tex_coords: [Scalar; 2]) -> (r:
        VertexNorm)
        ensures
            r.position@ == seq![x, y, z],
            r.normal == normal,
            r.tex_coords == tex_coords,
    {
        let r = VertexNorm { position: [x, y, z], normal, tex_coords };
        assert(r.position@ =~= seq![x, y, z]);
        r
    }

    pub fn from(position: [Scalar; 3], normal: [Scalar; 3], tex_coords: [Scalar; 2]) -> (r:
        VertexNorm)
        ensures
            r.position == position,
            r.normal == normal,
            r.tex_coords == tex_coords,
    {
        VertexNorm { position, normal, tex_coords }
    }
}

} // verus!
