//! The two kinds of material and what each exports to a shader.

use crate::scalar::Scalar;
use crate::uniform::dotted;
use crate::uniform::field_name;
use crate::uniform::StructToUniform;
use crate::uniform::TextureHandle;
use crate::uniform::UniformStorage;
use crate::uniform::UniformValue;
use vstd::prelude::*;

verus! {

/// A surface lit by the Phong model: a diffuse and a specular texture, and
/// the exponent of the highlight.
#[derive(Clone, Copy, Debug, PartialEq, Eq, Structural)]
pub struct Material {
    pub diffuse: TextureHandle,
    pub specular: TextureHandle,
    pub shininess: Scalar,
}

impl Material {
    /// The material with the given textures. The highlight's exponent is
    /// stored as `shininess` times 128.
    pub fn new(diffuse: TextureHandle, specular: TextureHandle, shininess: Scalar) -> (r: Material)
        ensures
            r.diffuse == diffuse,
            r.specular == specular,
            r.shininess.is_times_128_of(shininess),
    {
        Material { diffuse, specular, shininess: shininess.times_128() }
    }
}

impl StructToUniform for Material {
    open spec fn uniforms(&self, struct_name: Seq<char>) -> Map<Seq<char>, UniformValue> {
        Map::<Seq<char>, UniformValue>::empty().insert(
            dotted(struct_name, "diffuse"@),
            UniformValue::Texture2d(self.diffuse),
        ).insert(dotted(struct_name, "specular"@), UniformValue::Texture2d(self.specular)).insert(
            dotted(struct_name, "shininess"@),
            UniformValue::Float(self.shininess),
        )
    }

    fn as_uniform(&self, struct_name: &str, storage: &mut UniformStorage) {
        storage.add(
            field_name(struct_name, "diffuse").as_str(),
            UniformValue::Texture2d(self.diffuse),
        );
        storage.add(
            field_name(struct_name, "specular").as_str(),
            UniformValue::Texture2d(self.specular),
        );
        storage.add(
            field_name(struct_name, "shininess").as_str(),
            UniformValue::Float(self.shininess),
        );
        assert(storage@ =~= old(storage)@.union_prefer_right(self.uniforms(struct_name@)));
    }
}

/// A surface given by three maps: colour, reflection and normals. It has no
/// highlight exponent, and goes with its own shader.
#[derive(Clone, Copy, Debug, PartialEq, Eq, Structural)]
pub struct PbrMaterial {
    pub color: TextureHandle,
    pub reflection: TextureHandle,
    pub normal: TextureHandle,
}

impl PbrMaterial {
    pub fn new(color: TextureHandle, reflection: TextureHandle, normal: TextureHandle) -> (r:
        PbrMaterial)
        ensures
            r == (PbrMaterial { color, reflection, normal }),
    {
        PbrMaterial { color, reflection, normal }
    }
}

impl StructToUniform for PbrMaterial {
    open spec fn uniforms(&self, struct_name: Seq<char>) -> Map<Seq<char>, UniformValue> {
        Map::<Seq<char>, UniformValue>::empty().insert(
            dotted(struct_name, "diffuse"@),
            UniformValue::Texture2d(self.color),
        ).insert(dotted(struct_name, "specular"@), UniformValue::Texture2d(self.reflection)).insert(
            dotted(struct_name, "normal"@),
            UniformValue::Texture2d(self.normal),
        )
    }

    fn as_uniform(&self, struct_name: &str, storage: &mut UniformStorage) {
        storage.add(field_name(struct_name, "diffuse").as_str(), UniformValue::Texture2d(self.color));
        storage.add(
            field_name(struct_name, "specular").as_str(),
            UniformValue::Texture2d(self.reflection),
        );
        storage.add(field_name(struct_name, "normal").as_str(), UniformValue::Texture2d(self.normal));
        assert(storage@ =~= old(storage)@.union_prefer_right(self.uniforms(struct_name@)));
    }
}

} // verus!
