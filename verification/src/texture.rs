//! What is decided about a texture before it is decoded: the format of its
//! file, and which of a model's maps serves as which map of a material.

use vstd::prelude::*;

verus! {

/// A format in which a texture file comes.
#[derive(Clone, Copy, Debug, PartialEq, Eq, Structural)]
pub enum ImageFormat {
    Jpeg,
    Tiff,
    Png,
}

/// The format that goes with a file extension in lower case, if any.
pub open spec fn spec_ext_to_image_type(ext: Seq<char>) -> Option<ImageFormat> {
    if ext == "jpg"@ || ext == "jpeg"@ {
        Some(ImageFormat::Jpeg)
    } else if ext == "tiff"@ || ext == "tif"@ {
        Some(ImageFormat::Tiff)
    } else if ext == "png"@ {
        Some(ImageFormat::Png)
    } else {
        None
    }
}

fn same(a: &String, b: &str) -> (r: bool)
    ensures
        r == (a@ == b@),
{
    let other: String = b.to_owned();
    *a == other
}

/// The format that goes with a file extension in lower case: JPEG for `jpg`
/// and `jpeg`, TIFF for `tiff` and `tif`, PNG for `png`, and none for any
/// other.
pub fn ext_to_image_type(ext: &str) -> (r: Option<ImageFormat>)
    ensures
        r == spec_ext_to_image_type(ext@),
{
    let ext: String = ext.to_owned();
    if same(&ext, "jpg") || same(&ext, "jpeg") {
        Some(ImageFormat::Jpeg)
    } else if same(&ext, "tiff") || same(&ext, "tif") {
        Some(ImageFormat::Tiff)
    } else if same(&ext, "png") {
        Some(ImageFormat::Png)
    } else {
        None
    }
}

/// A kind of map that a model's material may bring.
#[derive(Clone, Copy, Debug, PartialEq, Eq, Structural)]
pub enum TextureKind {
    BaseColor,
    Diffuse,
    Specular,
    Roughness,
    Shininess,
    Normals,
    Height,
    AmbientOcclusion,
    Displacement,
    LightMap,
    Metalness,
}

/// The kinds that can serve as the colour map, the best first.
pub open spec fn spec_color_sources() -> Seq<TextureKind> {
    seq![TextureKind::BaseColor, TextureKind::Diffuse]
}

/// The kinds that can serve as the normal map, the best first.
pub open spec fn spec_normal_sources() -> Seq<TextureKind> {
    seq![TextureKind::Normals, TextureKind::Height]
}

/// The kinds that can serve as the reflection map, the best first.
pub open spec fn spec_reflection_sources() -> Seq<TextureKind> {
    seq![
        TextureKind::Specular,
        TextureKind::Roughness,
        TextureKind::Shininess,
        TextureKind::LightMap,
    ]
}

/// The kinds that can serve as the colour map, the best first.
pub fn color_sources() -> (r: Vec<TextureKind>)
    ensures
        r@ == spec_color_sources(),
{
    let r = vec![TextureKind::BaseColor, TextureKind::Diffuse];
    assert(r@ =~= spec_color_sources());
    r
}

/// The kinds that can serve as the normal map, the best first.
pub fn normal_sources() -> (r: Vec<TextureKind>)
    ensures
        r@ == spec_normal_sources(),
{
    let r = vec![TextureKind::Normals, TextureKind::Height];
    assert(r@ =~= spec_normal_sources());
    r
}

/// The kinds that can serve as the reflection map, the best first.
pub fn reflection_sources() -> (r: Vec<TextureKind>)
    ensures
        r@ == spec_reflection_sources(),
{
    let r = vec![
        TextureKind::Specular,
        TextureKind::Roughness,
        TextureKind::Shininess,
        TextureKind::LightMap,
    ];
    assert(r@ =~= spec_reflection_sources());
    r
}

/// The first kind in `sources` that is among `loaded`: the map that serves.
/// `None` where the model has brought none of them.
pub fn pick_source(sources: &Vec<TextureKind>, loaded: &Vec<TextureKind>) -> (r: Option<
    TextureKind,
>)
    ensures
        match r {
            Some(kind) => exists|i: int|
                0 <= i < sources.len() && #[trigger] sources[i] == kind && loaded@.contains(kind)
                    && forall|k: int| 0 <= k < i ==> !loaded@.contains(#[trigger] sources[k]),
            None => forall|k: int| 0 <= k < sources.len() ==> !loaded@.contains(#[trigger] sources[k]),
        },
{
    let mut i: usize = 0;
    while i < sources.len()
        invariant
            i <= sources.len(),
            forall|k: int| 0 <= k < i ==> !loaded@.contains(#[trigger] sources[k]),
        decreases sources.len() - i,
    {
        let kind = sources[i];
        let mut j: usize = 0;
        let mut found = false;
        while j < loaded.len()
            invariant
                j <= loaded.len(),
                kind == sources[i as int],
                i < sources.len(),
                found ==> loaded@.contains(kind),
                !found ==> forall|k: int| 0 <= k < j ==> loaded[k] != kind,
            decreases loaded.len() - j,
        {
            if loaded[j] == kind {
                assert(loaded@[j as int] == kind);
                found = true;
            }
            j += 1;
        }
        if found {
            assert(sources[i as int] == kind);
            return Some(kind);
        }
        i += 1;
    }
    None
}

} // verus!
