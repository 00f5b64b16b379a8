//! Vectors, the 4×4 matrix, the transform that owns one, and the camera and
//! projection records.

use crate::scalar::Scalar;
use vstd::prelude::*;

verus! {

/// A vector of two scalars.
#[derive(Clone, Copy, Debug, PartialEq, Eq, Structural)]
pub struct Vec2 {
    pub x: Scalar,
    pub y: Scalar,
}

/// A vector of three scalars.
#[derive(Clone, Copy, Debug, PartialEq, Eq, Structural)]
pub struct Vec3 {
    pub x: Scalar,
    pub y: Scalar,
    pub z: Scalar,
}

/// A vector of four scalars.
#[derive(Clone, Copy, Debug, PartialEq, Eq, Structural)]
pub struct Vec4 {
    pub x: Scalar,
    pub y: Scalar,
    pub z: Scalar,
    pub w: Scalar,
}

/// A 4×4 matrix that acts on column vectors. The field `m23` is the entry in
/// row 2 and column 3, both counted from 1; the fourth column is the
/// translation.
#[derive(Clone, Copy, Debug, PartialEq, Eq, Structural)]
pub struct Mat4 {
    pub m11: Scalar,
    pub m12: Scalar,
    pub m13: Scalar,
    pub m14: Scalar,
    pub m21: Scalar,
    pub m22: Scalar,
    pub m23: Scalar,
    pub m24: Scalar,
    pub m31: Scalar,
    pub m32: Scalar,
    pub m33: Scalar,
    pub m34: Scalar,
    pub m41: Scalar,
    pub m42: Scalar,
    pub m43: Scalar,
    pub m44: Scalar,
}

/// A matrix as plain rows: `raw[r][c]` is the entry in row `r` and column
/// `c`, both counted from 0.
pub type RawMat4 = [[Scalar; 4]; 4];

/// The vector with the given parts.
pub fn vec3(x: Scalar, y: Scalar, z: Scalar) -> (r: Vec3)
    ensures
        r == (Vec3 { x, y, z }),
{
    Vec3 { x, y, z }
}

impl Mat4 {
    /// The identity matrix.
    pub open spec fn spec_identity() -> Mat4 {
        let o = Scalar { bits: 0 };
        let i = Scalar { bits: 0x3f80_0000 };
        Mat4 {
            m11: i,
            m12: o,
            m13: o,
            m14: o,
            m21: o,
            m22: i,
            m23: o,
            m24: o,
            m31: o,
            m32: o,
            m33: i,
            m34: o,
            m41: o,
            m42: o,
            m43: o,
            m44: i,
        }
    }

    /// The entry in row `row` and column `col`, both counted from 0.
    pub open spec fn at(self, row: int, col: int) -> Scalar {
        if row == 0 {
            if col == 0 {
                self.m11
            } else if col == 1 {
                self.m12
            } else if col == 2 {
                self.m13
            } else {
                self.m14
            }
        } else if row == 1 {
            if col == 0 {
                self.m21
            } else if col == 1 {
                self.m22
            } else if col == 2 {
                self.m23
            } else {
                self.m24
            }
        } else if row == 2 {
            if col == 0 {
                self.m31
            } else if col == 1 {
                self.m32
            } else if col == 2 {
                self.m33
            } else {
                self.m34
            }
        } else {
            if col == 0 {
                self.m41
            } else if col == 1 {
                self.m42
            } else if col == 2 {
                self.m43
            } else {
                self.m44
            }
        }
    }

    /// The 3×3 block that holds rotation and scale, row by row.
    pub open spec fn linear_block(self) -> Seq<Scalar> {
        seq![
            self.m11,
            self.m12,
            self.m13,
            self.m21,
            self.m22,
            self.m23,
            self.m31,
            self.m32,
            self.m33,
        ]
    }

    /// The translation column, from the top.
    pub open spec fn translation(self) -> Vec3 {
        Vec3 { x: self.m14, y: self.m24, z: self.m34 }
    }

    /// The identity matrix.
    pub fn identity() -> (r: Mat4)
        ensures
            r == Mat4::spec_identity(),
    {
        let o = Scalar::zero();
        let i = Scalar::one();
        Mat4 {
            m11: i,
            m12: o,
            m13: o,
            m14: o,
            m21: o,
            m22: i,
            m23: o,
            m24: o,
            m31: o,
            m32: o,
            m33: i,
            m34: o,
            m41: o,
            m42: o,
            m43: o,
            m44: i,
        }
    }

    /// The matrix with the given rows.
    pub fn from_raw(raw: &RawMat4) -> (r: Mat4)
        ensures
            forall|i: int, j: int| 0 <= i < 4 && 0 <= j < 4 ==> r.at(i, j) == #[trigger] raw@[i]@[j],
    {
        Mat4 {
            m11: raw[0][0],
            m12: raw[0][1],
            m13: raw[0][2],
            m14: raw[0][3],
            m21: raw[1][0],
            m22: raw[1][1],
            m23: raw[1][2],
            m24: raw[1][3],
            m31: raw[2][0],
            m32: raw[2][1],
            m33: raw[2][2],
            m34: raw[2][3],
            m41: raw[3][0],
            m42: raw[3][1],
            m43: raw[3][2],
            m44: raw[3][3],
        }
    }

    /// The matrix as plain rows.
    pub fn to_raw(&self) -> (raw: RawMat4)
        ensures
            forall|i: int, j: int| 0 <= i < 4 && 0 <= j < 4 ==> #[trigger] raw@[i]@[j] == self.at(i, j),
    {
        [
            [self.m11, self.m12, self.m13, self.m14],
            [self.m21, self.m22, self.m23, self.m24],
            [self.m31, self.m32, self.m33, self.m34],
            [self.m41, self.m42, self.m43, self.m44],
        ]
    }
}

/// An affine transform: one matrix, the identity at first.
pub struct Transform {
    transform: Mat4,
}

impl View for Transform {
    type V = Mat4;

    closed spec fn view(&self) -> Mat4 {
        self.transform
    }
}

impl Transform {
    /// The identity transform.
    pub fn new() -> (r: Transform)
        ensures
            r@ == Mat4::spec_identity(),
    {
        Transform { transform: Mat4::identity() }
    }

    /// Replaces the matrix: the way in for a product that the caller has
    /// computed from the matrix and an elementary one.
    pub fn set(&mut self, matrix: Mat4)
        ensures
            final(self)@ == matrix,
    {
        self.transform = matrix;
    }

    /// Overwrites the translation column with `(x, y, z)`. Every other
    /// entry stays, whatever scale and rotation went into it.
    pub fn move_to(&mut self, x: Scalar, y: Scalar, z: Scalar)
        ensures
            final(self)@ == (Mat4 { m14: x, m24: y, m34: z, ..old(self)@ }),
            final(self)@.translation() == (Vec3 { x, y, z }),
            final(self)@.linear_block() == old(self)@.linear_block(),
    {
        self.transform.m14 = x;
        self.transform.m24 = y;
        self.transform.m34 = z;
    }

    /// The matrix.
    pub fn get(&self) -> (r: &Mat4)
        ensures
            *r == self@,
    {
        &self.transform
    }

    /// A copy of the matrix as plain rows.
    pub fn get_raw(&self) -> (raw: RawMat4)
        ensures
            forall|i: int, j: int| 0 <= i < 4 && 0 <= j < 4 ==> #[trigger] raw@[i]@[j] == self@.at(i, j),
    {
        self.transform.to_raw()
    }
}

/// The bits of the largest pitch, a little under a right angle.
pub const PITCH_MAX_BITS: u32 = 0x3fc6_d3d8;

/// The bits of the narrowest field of view, one degree.
pub const FOV_MIN_BITS: u32 = 0x3c8e_fa39;

/// The bits of the widest field of view, an eighth of a turn.
pub const FOV_MAX_BITS: u32 = 0x3f49_0fd8;

/// The bits of the scroll step below which the wheel counts as at rest.
pub const SCROLL_REST_BITS: u32 = 0x3a83_126f;

/// The largest pitch.
pub open spec fn spec_pitch_max() -> Scalar {
    Scalar { bits: PITCH_MAX_BITS }
}

/// The narrowest field of view.
pub open spec fn spec_fov_min() -> Scalar {
    Scalar { bits: FOV_MIN_BITS }
}

/// The widest field of view.
pub open spec fn spec_fov_max() -> Scalar {
    Scalar { bits: FOV_MAX_BITS }
}

/// The pitch that the camera takes where mouse look asks for `pitch`.
pub open spec fn spec_clamp_pitch(pitch: Scalar) -> Scalar {
    if pitch.spec_gt(spec_pitch_max()) {
        spec_pitch_max()
    } else if pitch.spec_lt(spec_pitch_max().spec_neg()) {
        spec_pitch_max().spec_neg()
    } else {
        pitch
    }
}

/// Brings a pitch that mouse look asks for into the range from
/// `-PITCH_MAX` to `PITCH_MAX`: a pitch beyond a bound becomes that bound,
/// every other pitch stays.
pub fn clamp_pitch(pitch: Scalar) -> (r: Scalar)
    ensures
        r == spec_clamp_pitch(pitch),
        pitch.spec_gt(spec_pitch_max()) ==> r == spec_pitch_max(),
        pitch.spec_lt(spec_pitch_max().spec_neg()) ==> r == spec_pitch_max().spec_neg(),
        !pitch.spec_is_nan() ==> !r.spec_gt(spec_pitch_max()) && !r.spec_lt(
            spec_pitch_max().spec_neg(),
        ),
{
    let top = Scalar::from_bits(PITCH_MAX_BITS);
    let bottom = top.neg();
    if pitch.gt(top) {
        top
    } else if pitch.lt(bottom) {
        bottom
    } else {
        pitch
    }
}

/// However many looks follow each other, the pitch is never beyond a bound:
/// a clamped pitch lies within the bounds, and clamping it again leaves it
/// where it is.
pub proof fn lemma_pitch_clamp_holds(pitch: Scalar)
    ensures
        spec_clamp_pitch(spec_clamp_pitch(pitch)) == spec_clamp_pitch(pitch),
        !pitch.spec_is_nan() ==> {
            &&& !spec_clamp_pitch(pitch).spec_gt(spec_pitch_max())
            &&& !spec_clamp_pitch(pitch).spec_lt(spec_pitch_max().spec_neg())
        },
{
}

/// Whether a scroll step moves the field of view: it does unless it is
/// nearer to zero than a thousandth.
pub fn scroll_moves(step: Scalar) -> (r: bool)
    ensures
        r == !step.spec_abs().spec_lt(Scalar { bits: SCROLL_REST_BITS }),
{
    !step.abs().lt(Scalar::from_bits(SCROLL_REST_BITS))
}

/// A symmetric perspective projection: aspect ratio, vertical field of view
/// in radians, and the two clip distances.
#[derive(Clone, Copy, Debug, PartialEq, Eq, Structural)]
pub struct Perspective {
    pub aspect: Scalar,
    pub fov: Scalar,
    pub near: Scalar,
    pub far: Scalar,
}

impl Perspective {
    /// The projection that a scene starts with: 1024 by 768, a field of view
    /// of an eighth of a turn, clip distances 0.1 and 100.
    pub open spec fn spec_default() -> Perspective {
        Perspective {
            aspect: Scalar { bits: 0x3faa_aaab },
            fov: Scalar { bits: 0x3f49_0fdb },
            near: Scalar { bits: 0x3dcc_cccd },
            far: Scalar { bits: 0x42c8_0000 },
        }
    }

    /// Whether the clip distances are in order and the field of view lies
    /// between zero and half a turn.
    pub open spec fn well_formed(self) -> bool {
        &&& self.near.spec_lt(self.far)
        &&& (Scalar { bits: 0 }).spec_lt(self.fov)
        &&& self.fov.spec_lt(Scalar { bits: 0x4049_0fdb })
    }

    /// Sets the field of view to `fov` brought into the range from
    /// `FOV_MIN` to `FOV_MAX`: a field of view beyond a bound becomes that
    /// bound. Nothing else changes.
    pub fn zoom_to(&mut self, fov: Scalar)
        ensures
            final(self).fov == fov.spec_clamp(spec_fov_min(), spec_fov_max()),
            fov.spec_lt(spec_fov_min()) ==> final(self).fov == spec_fov_min(),
            fov.spec_gt(spec_fov_max()) ==> final(self).fov == spec_fov_max(),
            !fov.spec_is_nan() ==> !final(self).fov.spec_lt(spec_fov_min()),
            !fov.spec_is_nan() ==> !final(self).fov.spec_gt(spec_fov_max()),
            final(self).aspect == old(self).aspect,
            final(self).near == old(self).near,
            final(self).far == old(self).far,
            !fov.spec_is_nan() && old(self).well_formed() ==> final(self).well_formed(),
    {
        self.fov = fov.clamp(Scalar::from_bits(FOV_MIN_BITS), Scalar::from_bits(FOV_MAX_BITS));
    }
}

impl Default for Perspective {
    fn default() -> (r: Perspective)
        ensures
            r == Perspective::spec_default(),
            r.well_formed(),
    {
        Perspective {
            aspect: Scalar::from_bits(0x3faa_aaab),
            fov: Scalar::from_bits(0x3f49_0fdb),
            near: Scalar::from_bits(0x3dcc_cccd),
            far: Scalar::from_bits(0x42c8_0000),
        }
    }
}

/// Where the camera stands, where it looks, and which way is up.
#[derive(Clone, Copy, Debug, PartialEq, Eq, Structural)]
pub struct CameraSystem {
    pub pos: Vec3,
    pub front: Vec3,
    pub up: Vec3,
}

impl CameraSystem {
    /// The camera that a scene starts with: at `(4, 4, 2)`, looking back at
    /// the origin, with the y axis up.
    pub open spec fn spec_default() -> CameraSystem {
        CameraSystem {
            pos: Vec3 {
                x: Scalar { bits: 0x4080_0000 },
                y: Scalar { bits: 0x4080_0000 },
                z: Scalar { bits: 0x4000_0000 },
            },
            front: Vec3 {
                x: Scalar { bits: 0xc080_0000 },
                y: Scalar { bits: 0xc080_0000 },
                z: Scalar { bits: 0xc000_0000 },
            },
            up: Vec3 {
                x: Scalar { bits: 0 },
                y: Scalar { bits: 0x3f80_0000 },
                z: Scalar { bits: 0 },
            },
        }
    }
}

impl Default for CameraSystem {
    fn default() -> (r: CameraSystem)
        ensures
            r == CameraSystem::spec_default(),
            r.front.x == r.pos.x.spec_neg(),
            r.front.y == r.pos.y.spec_neg(),
            r.front.z == r.pos.z.spec_neg(),
    {
        let four = Scalar::from_bits(0x4080_0000);
        let two = Scalar::from_bits(0x4000_0000);
        CameraSystem {
            pos: vec3(four, four, two),
            front: vec3(four.neg(), four.neg(), two.neg()),
            up: vec3(Scalar::zero(), Scalar::one(), Scalar::zero()),
        }
    }
}

} // verus!
