//! Vectors and matrices in the form in which lights and draw calls hold them.

use crate::math::Mat4;
use crate::math::Vec3;
use crate::scalar::Scalar;
use crate::uniform::UniformValue;
use vstd::prelude::*;

verus! {

/// A vector of three scalars that can be handed to a shader.
#[derive(Clone, Copy, Debug, PartialEq, Eq, Structural)]
pub struct GVec3 {
    pub data: Vec3,
}

impl GVec3 {
    pub fn new(x: Scalar, y: Scalar, z: Scalar) -> (r: GVec3)
        ensures
            r.data == (Vec3 { x, y, z }),
    {
        GVec3 { data: Vec3 { x, y, z } }
    }

    /// The vector as a shader input.
    pub fn as_uniform_value(&self) -> (r: UniformValue)
        ensures
            r == UniformValue::Vec3(self.data),
    {
        UniformValue::Vec3(self.data)
    }
}

/// A 4×4 matrix that can be handed to a shader.
#[derive(Clone, Copy, Debug, PartialEq, Eq, Structural)]
pub struct GMat4 {
    pub data: Mat4,
}

impl GMat4 {
    pub fn new(mat: Mat4) -> (r: GMat4)
        ensures
            r.data == mat,
    {
        GMat4 { data: mat }
    }

    /// The matrix as a shader input.
    pub fn as_uniform_value(&self) -> (r: UniformValue)
        ensures
            r == UniformValue::Mat4(self.data),
    {
        UniformValue::Mat4(self.data)
    }
}

} // verus!
