//! Exact 4x4 matrices.
//!
//! A `Mat4` carries sixteen integer numerators over one positive common
//! denominator, so every matrix this crate builds is an exact rational
//! matrix: no rounding happens between construction and the contracts
//! stated about it. Row `r`, column `c` is the field `mRC`.

use vstd::prelude::*;

verus! {

use crate::math::lemma_abs_mul_le;

/// A 4x4 rational matrix: integer numerators over one common denominator.
#[derive(Clone, Copy, Debug, PartialEq, Eq, Structural)]
pub struct Mat4 {
    pub m00: i64, pub m01: i64, pub m02: i64, pub m03: i64,
    pub m10: i64, pub m11: i64, pub m12: i64, pub m13: i64,
    pub m20: i64, pub m21: i64, pub m22: i64, pub m23: i64,
    pub m30: i64, pub m31: i64, pub m32: i64, pub m33: i64,
    pub den: i64,
}

/// A 4-component vector of unbounded integers, for specifications.
pub struct Vec4S {
    pub x: int,
    pub y: int,
    pub z: int,
    pub w: int,
}

/// Bound on the left factor's numerators in `Mat4::mul`.
pub const MUL_LEFT_BOUND: i64 = 4000;

/// Bound on the right factor's numerators in `Mat4::mul`.
pub const MUL_RIGHT_BOUND: i64 = 50000000;

/// Bound on a denominator accepted by `Mat4::mul`.
pub const MUL_DEN_BOUND: i64 = 10000;

/// Bound on the numerators of a product returned by `Mat4::mul`.
pub const MUL_RESULT_BOUND: i64 = 4 * MUL_LEFT_BOUND * MUL_RIGHT_BOUND;

/// Bound on the numerators of a matrix accepted by `Mat4::transform`.
pub const TRANSFORM_MAT_BOUND: i64 = 1000000000000;

/// Bound on the components of a vector accepted by `Mat4::transform`.
pub const TRANSFORM_VEC_BOUND: i64 = 2000000;

impl Mat4 {
    /// All sixteen numerators have magnitude at most `b`.
    pub open spec fn bounded(self, b: int) -> bool {
        &&& -b <= self.m00 <= b && -b <= self.m01 <= b
        &&& -b <= self.m02 <= b && -b <= self.m03 <= b
        &&& -b <= self.m10 <= b && -b <= self.m11 <= b
        &&& -b <= self.m12 <= b && -b <= self.m13 <= b
        &&& -b <= self.m20 <= b && -b <= self.m21 <= b
        &&& -b <= self.m22 <= b && -b <= self.m23 <= b
        &&& -b <= self.m30 <= b && -b <= self.m31 <= b
        &&& -b <= self.m32 <= b && -b <= self.m33 <= b
    }

    /// The image of a homogeneous vector under this matrix, as exact
    /// integers still scaled by `self.den`: each component is the dot
    /// product of the matching row with `v`.
    pub open spec fn spec_transform(self, v: Vec4S) -> Vec4S {
        Vec4S {
            x: self.m00 * v.x + self.m01 * v.y + self.m02 * v.z + self.m03 * v.w,
            y: self.m10 * v.x + self.m11 * v.y + self.m12 * v.z + self.m13 * v.w,
            z: self.m20 * v.x + self.m21 * v.y + self.m22 * v.z + self.m23 * v.w,
            w: self.m30 * v.x + self.m31 * v.y + self.m32 * v.z + self.m33 * v.w,
        }
    }

    /// The matrix product `self * other`, with the product of the two
    /// denominators as the new denominator. Entry `r,c` of the result is
    /// the dot product of row `r` of `self` with column `c` of `other`.
    pub fn mul(&self, other: &Mat4) -> (r: Mat4)
        requires
            self.bounded(MUL_LEFT_BOUND as int),
            other.bounded(MUL_RIGHT_BOUND as int),
            0 < self.den <= MUL_DEN_BOUND,
            0 < other.den <= MUL_DEN_BOUND,
        ensures
            r.m00 == self.m00 * other.m00 + self.m01 * other.m10 + self.m02 * other.m20 + self.m03 * other.m30,
            r.m01 == self.m00 * other.m01 + self.m01 * other.m11 + self.m02 * other.m21 + self.m03 * other.m31,
            r.m02 == self.m00 * other.m02 + self.m01 * other.m12 + self.m02 * other.m22 + self.m03 * other.m32,
            r.m03 == self.m00 * other.m03 + self.m01 * other.m13 + self.m02 * other.m23 + self.m03 * other.m33,
            r.m10 == self.m10 * other.m00 + self.m11 * other.m10 + self.m12 * other.m20 + self.m13 * other.m30,
            r.m11 == self.m10 * other.m01 + self.m11 * other.m11 + self.m12 * other.m21 + self.m13 * other.m31,
            r.m12 == self.m10 * other.m02 + self.m11 * other.m12 + self.m12 * other.m22 + self.m13 * other.m32,
            r.m13 == self.m10 * other.m03 + self.m11 * other.m13 + self.m12 * other.m23 + self.m13 * other.m33,
            r.m20 == self.m20 * other.m00 + self.m21 * other.m10 + self.m22 * other.m20 + self.m23 * other.m30,
            r.m21 == self.m20 * other.m01 + self.m21 * other.m11 + self.m22 * other.m21 + self.m23 * other.m31,
            r.m22 == self.m20 * other.m02 + self.m21 * other.m12 + self.m22 * other.m22 + self.m23 * other.m32,
            r.m23 == self.m20 * other.m03 + self.m21 * other.m13 + self.m22 * other.m23 + self.m23 * other.m33,
            r.m30 == self.m30 * other.m00 + self.m31 * other.m10 + self.m32 * other.m20 + self.m33 * other.m30,
            r.m31 == self.m30 * other.m01 + self.m31 * other.m11 + self.m32 * other.m21 + self.m33 * other.m31,
            r.m32 == self.m30 * other.m02 + self.m31 * other.m12 + self.m32 * other.m22 + self.m33 * other.m32,
            r.m33 == self.m30 * other.m03 + self.m31 * other.m13 + self.m32 * other.m23 + self.m33 * other.m33,
            r.den == self.den * other.den,
            r.bounded(MUL_RESULT_BOUND as int),
            0 < r.den <= MUL_DEN_BOUND * MUL_DEN_BOUND,
    {
        proof {
            lemma_abs_mul_le(self.den as int, other.den as int, MUL_DEN_BOUND as int, MUL_DEN_BOUND as int);
            assert(0 < self.den * other.den) by (nonlinear_arith)
                requires
                    0 < self.den,
                    0 < other.den;
        }
        Mat4 {
            m00: row_dot(self.m00, self.m01, self.m02, self.m03, other.m00, other.m10, other.m20, other.m30),
            m01: row_dot(self.m00, self.m01, self.m02, self.m03, other.m01, other.m11, other.m21, other.m31),
            m02: row_dot(self.m00, self.m01, self.m02, self.m03, other.m02, other.m12, other.m22, other.m32),
            m03: row_dot(self.m00, self.m01, self.m02, self.m03, other.m03, other.m13, other.m23, other.m33),
            m10: row_dot(self.m10, self.m11, self.m12, self.m13, other.m00, other.m10, other.m20, other.m30),
            m11: row_dot(self.m10, self.m11, self.m12, self.m13, other.m01, other.m11, other.m21, other.m31),
            m12: row_dot(self.m10, self.m11, self.m12, self.m13, other.m02, other.m12, other.m22, other.m32),
            m13: row_dot(self.m10, self.m11, self.m12, self.m13, other.m03, other.m13, other.m23, other.m33),
            m20: row_dot(self.m20, self.m21, self.m22, self.m23, other.m00, other.m10, other.m20, other.m30),
            m21: row_dot(self.m20, self.m21, self.m22, self.m23, other.m01, other.m11, other.m21, other.m31),
            m22: row_dot(self.m20, self.m21, self.m22, self.m23, other.m02, other.m12, other.m22, other.m32),
            m23: row_dot(self.m20, self.m21, self.m22, self.m23, other.m03, other.m13, other.m23, other.m33),
            m30: row_dot(self.m30, self.m31, self.m32, self.m33, other.m00, other.m10, other.m20, other.m30),
            m31: row_dot(self.m30, self.m31, self.m32, self.m33, other.m01, other.m11, other.m21, other.m31),
            m32: row_dot(self.m30, self.m31, self.m32, self.m33, other.m02, other.m12, other.m22, other.m32),
            m33: row_dot(self.m30, self.m31, self.m32, self.m33, other.m03, other.m13, other.m23, other.m33),
            den: self.den * other.den,
        }
    }
}

/// Dot product of a matrix row with a matrix column, with the bounds
/// that `Mat4::mul` maintains.
fn row_dot(a0: i64, a1: i64, a2: i64, a3: i64, b0: i64, b1: i64, b2: i64, b3: i64) -> (r: i64)
    requires
        -MUL_LEFT_BOUND <= a0 <= MUL_LEFT_BOUND,
        -MUL_LEFT_BOUND <= a1 <= MUL_LEFT_BOUND,
        -MUL_LEFT_BOUND <= a2 <= MUL_LEFT_BOUND,
        -MUL_LEFT_BOUND <= a3 <= MUL_LEFT_BOUND,
        -MUL_RIGHT_BOUND <= b0 <= MUL_RIGHT_BOUND,
        -MUL_RIGHT_BOUND <= b1 <= MUL_RIGHT_BOUND,
        -MUL_RIGHT_BOUND <= b2 <= MUL_RIGHT_BOUND,
        -MUL_RIGHT_BOUND <= b3 <= MUL_RIGHT_BOUND,
    ensures
        r == a0 * b0 + a1 * b1 + a2 * b2 + a3 * b3,
        -MUL_RESULT_BOUND <= r <= MUL_RESULT_BOUND,
{
    proof {
        lemma_abs_mul_le(a0 as int, b0 as int, MUL_LEFT_BOUND as int, MUL_RIGHT_BOUND as int);
        lemma_abs_mul_le(a1 as int, b1 as int, MUL_LEFT_BOUND as int, MUL_RIGHT_BOUND as int);
        lemma_abs_mul_le(a2 as int, b2 as int, MUL_LEFT_BOUND as int, MUL_RIGHT_BOUND as int);
        lemma_abs_mul_le(a3 as int, b3 as int, MUL_LEFT_BOUND as int, MUL_RIGHT_BOUND as int);
    }
    a0 * b0 + a1 * b1 + a2 * b2 + a3 * b3
}

/// A 4-component vector of machine integers, for carrying exact
/// homogeneous points through a transform.
#[derive(Clone, Copy, Debug, PartialEq, Eq, Structural)]
pub struct Vec4 {
    pub x: i64,
    pub y: i64,
    pub z: i64,
    pub w: i64,
}

impl Vec4 {
    /// All four components have magnitude at most `b`.
    pub open spec fn bounded(self, b: int) -> bool {
        &&& -b <= self.x <= b
        &&& -b <= self.y <= b
        &&& -b <= self.z <= b
        &&& -b <= self.w <= b
    }

    /// The same components as unbounded integers.
    pub open spec fn as_spec(self) -> Vec4S {
        Vec4S { x: self.x as int, y: self.y as int, z: self.z as int, w: self.w as int }
    }
}

/// Dot product of a matrix row with a homogeneous point, with the
/// bounds that `Mat4::transform` maintains.
fn transform_dot(a0: i64, a1: i64, a2: i64, a3: i64, v: &Vec4) -> (r: i64)
    requires
        -TRANSFORM_MAT_BOUND <= a0 <= TRANSFORM_MAT_BOUND,
        -TRANSFORM_MAT_BOUND <= a1 <= TRANSFORM_MAT_BOUND,
        -TRANSFORM_MAT_BOUND <= a2 <= TRANSFORM_MAT_BOUND,
        -TRANSFORM_MAT_BOUND <= a3 <= TRANSFORM_MAT_BOUND,
        v.bounded(TRANSFORM_VEC_BOUND as int),
    ensures
        r == a0 * v.x + a1 * v.y + a2 * v.z + a3 * v.w,
{
    proof {
        lemma_abs_mul_le(a0 as int, v.x as int, TRANSFORM_MAT_BOUND as int, TRANSFORM_VEC_BOUND as int);
        lemma_abs_mul_le(a1 as int, v.y as int, TRANSFORM_MAT_BOUND as int, TRANSFORM_VEC_BOUND as int);
        lemma_abs_mul_le(a2 as int, v.z as int, TRANSFORM_MAT_BOUND as int, TRANSFORM_VEC_BOUND as int);
        lemma_abs_mul_le(a3 as int, v.w as int, TRANSFORM_MAT_BOUND as int, TRANSFORM_VEC_BOUND as int);
    }
    a0 * v.x + a1 * v.y + a2 * v.z + a3 * v.w
}

impl Mat4 {
    /// Applies the matrix to a homogeneous point; the result is still
    /// scaled by `self.den`.
    pub fn transform(&self, v: &Vec4) -> (r: Vec4)
        requires
            self.bounded(TRANSFORM_MAT_BOUND as int),
            v.bounded(TRANSFORM_VEC_BOUND as int),
        ensures
            r.as_spec() == self.spec_transform(v.as_spec()),
    {
        Vec4 {
            x: transform_dot(self.m00, self.m01, self.m02, self.m03, v),
            y: transform_dot(self.m10, self.m11, self.m12, self.m13, v),
            z: transform_dot(self.m20, self.m21, self.m22, self.m23, v),
            w: transform_dot(self.m30, self.m31, self.m32, self.m33, v),
        }
    }
}

} // verus!
