//! Vectors and matrices of 32-bit words.
//!
//! Each word is the bit pattern of a single-precision number. A matrix is stored
//! by columns, `x` to `w`.

use vstd::prelude::*;

verus! {

/// The bit pattern of the number zero.
pub const ZERO: u32 = 0;

/// The bit pattern of the number one.
pub const ONE: u32 = 0x3F80_0000;

/// Three words.
#[derive(Clone, Copy, Debug, PartialEq, Eq)]
pub struct Vector3 {
    pub x: u32,
    pub y: u32,
    pub z: u32,
}

/// Four words.
#[derive(Clone, Copy, Debug, PartialEq, Eq)]
pub struct Vector4 {
    pub x: u32,
    pub y: u32,
    pub z: u32,
    pub w: u32,
}

/// A four by four matrix, one vector for each column.
#[derive(Clone, Copy, Debug, PartialEq, Eq)]
pub struct Matrix4 {
    pub x: Vector4,
    pub y: Vector4,
    pub z: Vector4,
    pub w: Vector4,
}

impl Vector3 {
    /// The vector of three zeros.
    pub open spec fn spec_origin() -> Vector3 {
        Vector3 { x: ZERO, y: ZERO, z: ZERO }
    }

    /// The vector of three zeros.
    pub fn origin() -> (v: Vector3)
        ensures
            v == Self::spec_origin(),
    {
        Vector3 { x: ZERO, y: ZERO, z: ZERO }
    }
}

impl Matrix4 {
    /// The matrix with ones on the diagonal and zeros elsewhere.
    pub open spec fn spec_identity() -> Matrix4 {
        Matrix4 {
            x: Vector4 { x: ONE, y: ZERO, z: ZERO, w: ZERO },
            y: Vector4 { x: ZERO, y: ONE, z: ZERO, w: ZERO },
            z: Vector4 { x: ZERO, y: ZERO, z: ONE, w: ZERO },
            w: Vector4 { x: ZERO, y: ZERO, z: ZERO, w: ONE },
        }
    }

    /// The matrix with ones on the diagonal and zeros elsewhere.
    pub fn identity() -> (m: Matrix4)
        ensures
            m == Self::spec_identity(),
    {
        Matrix4 {
            x: Vector4 { x: ONE, y: ZERO, z: ZERO, w: ZERO },
            y: Vector4 { x: ZERO, y: ONE, z: ZERO, w: ZERO },
            z: Vector4 { x: ZERO, y: ZERO, z: ONE, w: ZERO },
            w: Vector4 { x: ZERO, y: ZERO, z: ZERO, w: ONE },
        }
    }

    /// The first three words of the last column: where a transform puts the origin.
    pub open spec fn spec_translation(self) -> Vector3 {
        Vector3 { x: self.w.x, y: self.w.y, z: self.w.z }
    }

    /// The first three words of the last column: where a transform puts the origin.
    pub fn translation(&self) -> (v: Vector3)
        ensures
            v == self.spec_translation(),
    {
        Vector3 { x: self.w.x, y: self.w.y, z: self.w.z }
    }
}

/// A three-word vector widened to four words, the fourth being one.
pub open spec fn spec_pad(v: Vector3) -> Vector4 {
    Vector4 { x: v.x, y: v.y, z: v.z, w: ONE }
}

/// Widens a three-word vector to the four-word alignment of a GPU record; the
/// added word is one.
pub fn pad(v: Vector3) -> (p: Vector4)
    ensures
        p == spec_pad(v),
{
    Vector4 { x: v.x, y: v.y, z: v.z, w: ONE }
}

} // verus!
