//! The unit cube, unfolded over fourteen vertices so that each face has its
//! own patch of the texture.

use crate::scalar::Scalar;
use crate::vertex::VertexTex;
use vstd::prelude::*;

verus! {

/// The number of vertices of the unfolded cube.
pub const CUBE_VERTEX_COUNT: u16 = 14;

/// The triangles of the cube, three indices each, face by face.
pub open spec fn spec_cube_indexes() -> Seq<u16> {
    seq![
        0u16, 2, 1,
        1, 2, 3,
        4, 5, 6,
        5, 7, 6,
        6, 7, 8,
        7, 9, 8,
        1, 3, 4,
        3, 5, 4,
        1, 11, 10,
        1, 4, 11,
        3, 12, 5,
        5, 12, 13,
    ]
}

/// The triangles of the cube: twelve of them, each index that of one of the
/// fourteen vertices.
pub fn cube_indexes() -> (r: [u16; 36])
    ensures
        r@ == spec_cube_indexes(),
        forall|i: int| 0 <= i < 36 ==> #[trigger] r@[i] < CUBE_VERTEX_COUNT,
{
    let r: [u16; 36] = [
        0, 2, 1,
        1, 2, 3,
        4, 5, 6,
        5, 7, 6,
        6, 7, 8,
        7, 9, 8,
        1, 3, 4,
        3, 5, 4,
        1, 11, 10,
        1, 4, 11,
        3, 12, 5,
        5, 12, 13u16,
    ];
    assert(r@ =~= spec_cube_indexes());
    r
}

/// The bits of a third and of two thirds, each to two decimal places: the
/// borders between the three rows of the unfolded texture.
pub const ROW_1_BITS: u32 = 0x3ea8_f5c3;

pub const ROW_2_BITS: u32 = 0x3f28_f5c3;

/// The bits of a quarter, a half and three quarters: the borders between the
/// four columns of the unfolded texture.
pub const COLUMN_1_BITS: u32 = 0x3e80_0000;

pub const COLUMN_2_BITS: u32 = 0x3f00_0000;

pub const COLUMN_3_BITS: u32 = 0x3f40_0000;

/// The bits of one.
pub const ONE_BITS: u32 = 0x3f80_0000;

/// The corner of the unit cube and the place in the texture of each of the
/// fourteen vertices, as the bits of `(x, y, z, u, v)`.
pub open spec fn spec_cube_corners() -> Seq<(u32, u32, u32, u32, u32)> {
    seq![
        (0, ONE_BITS, 0, 0, ROW_2_BITS),
        (0, 0, 0, COLUMN_1_BITS, ROW_2_BITS),
        (ONE_BITS, ONE_BITS, 0, 0, ROW_1_BITS),
        (ONE_BITS, 0, 0, COLUMN_1_BITS, ROW_1_BITS),
        (0, 0, ONE_BITS, COLUMN_2_BITS, ROW_2_BITS),
        (ONE_BITS, 0, ONE_BITS, COLUMN_2_BITS, ROW_1_BITS),
        (0, ONE_BITS, ONE_BITS, COLUMN_3_BITS, ROW_2_BITS),
        (ONE_BITS, ONE_BITS, ONE_BITS, COLUMN_3_BITS, ROW_1_BITS),
        (0, ONE_BITS, 0, ONE_BITS, ROW_2_BITS),
        (ONE_BITS, ONE_BITS, 0, ONE_BITS, ROW_1_BITS),
        (0, ONE_BITS, 0, COLUMN_1_BITS, ONE_BITS),
        (0, ONE_BITS, ONE_BITS, COLUMN_2_BITS, ONE_BITS),
        (ONE_BITS, ONE_BITS, 0, COLUMN_1_BITS, 0),
        (ONE_BITS, ONE_BITS, ONE_BITS, COLUMN_2_BITS, 0),
    ]
}

/// Whether the vertex stands at the corner and the place in the texture that
/// the five patterns give.
pub open spec fn stands_at(vertex: VertexTex, corner: (u32, u32, u32, u32, u32)) -> bool {
    &&& vertex.position@[0].bits == corner.0
    &&& vertex.position@[1].bits == corner.1
    &&& vertex.position@[2].bits == corner.2
    &&& vertex.tex_coords@[0].bits == corner.3
    &&& vertex.tex_coords@[1].bits == corner.4
}

fn corner(x: u32, y: u32, z: u32, u: u32, v: u32) -> (r: VertexTex)
    ensures
        stands_at(r, (x, y, z, u, v)),
{
    VertexTex::new(
        Scalar::from_bits(x),
        Scalar::from_bits(y),
        Scalar::from_bits(z),
        [Scalar::from_bits(u), Scalar::from_bits(v)],
    )
}

/// The fourteen vertices of the unfolded cube: each a corner of the unit
/// cube, with its place in the texture.
pub fn cube_vertexes() -> (r: [VertexTex; 14])
    ensures
        forall|i: int| 0 <= i < 14 ==> stands_at(#[trigger] r@[i], spec_cube_corners()[i]),
{
    [
        corner(0, ONE_BITS, 0, 0, ROW_2_BITS),
        corner(0, 0, 0, COLUMN_1_BITS, ROW_2_BITS),
        corner(ONE_BITS, ONE_BITS, 0, 0, ROW_1_BITS),
        corner(ONE_BITS, 0, 0, COLUMN_1_BITS, ROW_1_BITS),
        corner(0, 0, ONE_BITS, COLUMN_2_BITS, ROW_2_BITS),
        corner(ONE_BITS, 0, ONE_BITS, COLUMN_2_BITS, ROW_1_BITS),
        corner(0, ONE_BITS, ONE_BITS, COLUMN_3_BITS, ROW_2_BITS),
        corner(ONE_BITS, ONE_BITS, ONE_BITS, COLUMN_3_BITS, ROW_1_BITS),
        corner(0, ONE_BITS, 0, ONE_BITS, ROW_2_BITS),
        corner(ONE_BITS, ONE_BITS, 0, ONE_BITS, ROW_1_BITS),
        corner(0, ONE_BITS, 0, COLUMN_1_BITS, ONE_BITS),
        corner(0, ONE_BITS, ONE_BITS, COLUMN_2_BITS, ONE_BITS),
        corner(ONE_BITS, ONE_BITS, 0, COLUMN_1_BITS, 0),
        corner(ONE_BITS, ONE_BITS, ONE_BITS, COLUMN_2_BITS, 0),
    ]
}

} // verus!
