//! Per-draw instance placement: position, unit rotation quaternion and
//! non-uniform scale, and the exact model matrix uploaded per
//! instance.
//!
//! Quaternion components and scale factors are fixed-point milli
//! values; positions are whole world units. The model matrix is the
//! standard translation-rotation-scale composition, carried exactly
//! over the denominator `INSTANCE_DEN`.

use vstd::prelude::*;

verus! {

use crate::math::{Vec3, MILLI, lemma_abs_mul_le};
use crate::matrix::Mat4;

/// Magnitude bound on a quaternion component, in milli.
pub const QUAT_COMP_LIMIT: i64 = 2000;

/// Magnitude bound on a scale factor, in milli.
pub const SCALE_LIMIT_MILLI: i64 = 2000000;

/// Magnitude bound on an instance position component, in world units.
pub const INSTANCE_POS_LIMIT: i64 = 1000000;

/// The denominator of an instance matrix: the squared milli scale of
/// the rotation times the milli scale of the scale factors.
pub const INSTANCE_DEN: i64 = 1000000000;

/// A rotation quaternion in milli fixed point.
#[derive(Clone, Copy, Debug, PartialEq, Eq, Structural)]
pub struct Quaternion {
    pub w: i64,
    pub x: i64,
    pub y: i64,
    pub z: i64,
}

impl Quaternion {
    /// All components bounded by `b`.
    pub open spec fn bounded(self, b: int) -> bool {
        &&& -b <= self.w <= b
        &&& -b <= self.x <= b
        &&& -b <= self.y <= b
        &&& -b <= self.z <= b
    }

    /// A unit quaternion at the milli scale.
    pub open spec fn is_unit(self) -> bool {
        self.w * self.w + self.x * self.x + self.y * self.y + self.z * self.z == 1000000
    }

    /// The identity rotation.
    pub fn identity() -> (q: Quaternion)
        ensures
            q.w == MILLI && q.x == 0 && q.y == 0 && q.z == 0,
            q.is_unit(),
            q.bounded(QUAT_COMP_LIMIT as int),
    {
        proof {
            assert(1000i64 * 1000i64 == 1000000) by (nonlinear_arith);
        }
        Quaternion { w: MILLI, x: 0, y: 0, z: 0 }
    }
}

/// One placement of a shared mesh.
#[derive(Clone, Copy, Debug, PartialEq, Eq, Structural)]
pub struct Instance {
    pub position: Vec3,
    pub rotation: Quaternion,
    pub scale: Vec3,
}

impl Instance {
    /// Instance invariant: bounded position, rotation and scale.
    pub open spec fn wf(self) -> bool {
        &&& self.position.bounded(INSTANCE_POS_LIMIT as int)
        &&& self.rotation.bounded(QUAT_COMP_LIMIT as int)
        &&& self.scale.bounded(SCALE_LIMIT_MILLI as int)
    }
}

/// `m` is the model matrix of `inst`: the quaternion's rotation matrix
/// with each column scaled by the matching scale factor, the position
/// in the translation column, over the denominator `INSTANCE_DEN`.
pub open spec fn is_instance_matrix(m: Mat4, inst: Instance) -> bool {
    let w = inst.rotation.w;
    let x = inst.rotation.x;
    let y = inst.rotation.y;
    let z = inst.rotation.z;
    let r00 = 1000000 - 2 * (y * y + z * z);
    let r01 = 2 * (x * y - w * z);
    let r02 = 2 * (x * z + w * y);
    let r10 = 2 * (x * y + w * z);
    let r11 = 1000000 - 2 * (x * x + z * z);
    let r12 = 2 * (y * z - w * x);
    let r20 = 2 * (x * z - w * y);
    let r21 = 2 * (y * z + w * x);
    let r22 = 1000000 - 2 * (x * x + y * y);
    &&& m.m00 == r00 * inst.scale.x && m.m01 == r01 * inst.scale.y && m.m02 == r02 * inst.scale.z
    &&& m.m03 == inst.position.x * INSTANCE_DEN
    &&& m.m10 == r10 * inst.scale.x && m.m11 == r11 * inst.scale.y && m.m12 == r12 * inst.scale.z
    &&& m.m13 == inst.position.y * INSTANCE_DEN
    &&& m.m20 == r20 * inst.scale.x && m.m21 == r21 * inst.scale.y && m.m22 == r22 * inst.scale.z
    &&& m.m23 == inst.position.z * INSTANCE_DEN
    &&& m.m30 == 0 && m.m31 == 0 && m.m32 == 0 && m.m33 == INSTANCE_DEN
    &&& m.den == INSTANCE_DEN
}

impl Instance {
    /// The raw per-instance matrix uploaded to the instance buffer.
    pub fn to_raw(&self) -> (m: Mat4)
        requires
            self.wf(),
        ensures
            is_instance_matrix(m, *self),
    {
        let w: i64 = self.rotation.w;
        let x: i64 = self.rotation.x;
        let y: i64 = self.rotation.y;
        let z: i64 = self.rotation.z;
        proof {
            lemma_abs_mul_le(x as int, x as int, QUAT_COMP_LIMIT as int, QUAT_COMP_LIMIT as int);
            lemma_abs_mul_le(y as int, y as int, QUAT_COMP_LIMIT as int, QUAT_COMP_LIMIT as int);
            lemma_abs_mul_le(z as int, z as int, QUAT_COMP_LIMIT as int, QUAT_COMP_LIMIT as int);
            lemma_abs_mul_le(x as int, y as int, QUAT_COMP_LIMIT as int, QUAT_COMP_LIMIT as int);
            lemma_abs_mul_le(x as int, z as int, QUAT_COMP_LIMIT as int, QUAT_COMP_LIMIT as int);
            lemma_abs_mul_le(y as int, z as int, QUAT_COMP_LIMIT as int, QUAT_COMP_LIMIT as int);
            lemma_abs_mul_le(w as int, x as int, QUAT_COMP_LIMIT as int, QUAT_COMP_LIMIT as int);
            lemma_abs_mul_le(w as int, y as int, QUAT_COMP_LIMIT as int, QUAT_COMP_LIMIT as int);
            lemma_abs_mul_le(w as int, z as int, QUAT_COMP_LIMIT as int, QUAT_COMP_LIMIT as int);
        }
        let r00: i64 = 1000000 - 2 * (y * y + z * z);
        let r01: i64 = 2 * (x * y - w * z);
        let r02: i64 = 2 * (x * z + w * y);
        let r10: i64 = 2 * (x * y + w * z);
        let r11: i64 = 1000000 - 2 * (x * x + z * z);
        let r12: i64 = 2 * (y * z - w * x);
        let r20: i64 = 2 * (x * z - w * y);
        let r21: i64 = 2 * (y * z + w * x);
        let r22: i64 = 1000000 - 2 * (x * x + y * y);
        proof {
            lemma_abs_mul_le(r00 as int, self.scale.x as int, 17000000, SCALE_LIMIT_MILLI as int);
            lemma_abs_mul_le(r01 as int, self.scale.y as int, 17000000, SCALE_LIMIT_MILLI as int);
            lemma_abs_mul_le(r02 as int, self.scale.z as int, 17000000, SCALE_LIMIT_MILLI as int);
            lemma_abs_mul_le(r10 as int, self.scale.x as int, 17000000, SCALE_LIMIT_MILLI as int);
            lemma_abs_mul_le(r11 as int, self.scale.y as int, 17000000, SCALE_LIMIT_MILLI as int);
            lemma_abs_mul_le(r12 as int, self.scale.z as int, 17000000, SCALE_LIMIT_MILLI as int);
            lemma_abs_mul_le(r20 as int, self.scale.x as int, 17000000, SCALE_LIMIT_MILLI as int);
            lemma_abs_mul_le(r21 as int, self.scale.y as int, 17000000, SCALE_LIMIT_MILLI as int);
            lemma_abs_mul_le(r22 as int, self.scale.z as int, 17000000, SCALE_LIMIT_MILLI as int);
        }
        Mat4 {
            m00: r00 * self.scale.x, m01: r01 * self.scale.y, m02: r02 * self.scale.z,
            m03: self.position.x * INSTANCE_DEN,
            m10: r10 * self.scale.x, m11: r11 * self.scale.y, m12: r12 * self.scale.z,
            m13: self.position.y * INSTANCE_DEN,
            m20: r20 * self.scale.x, m21: r21 * self.scale.y, m22: r22 * self.scale.z,
            m23: self.position.z * INSTANCE_DEN,
            m30: 0, m31: 0, m32: 0, m33: INSTANCE_DEN,
            den: INSTANCE_DEN,
        }
    }
}

/// The matrix of an instance with the identity rotation and unit
/// scale is a pure translation: ones on the diagonal, the position in
/// the last column, at the matrix's own scale.
pub proof fn lemma_identity_instance_matrix(m: Mat4, inst: Instance)
    by (nonlinear_arith)
    requires
        is_instance_matrix(m, inst),
        inst.rotation.w == MILLI && inst.rotation.x == 0 && inst.rotation.y == 0 && inst.rotation.z == 0,
        inst.scale.x == MILLI && inst.scale.y == MILLI && inst.scale.z == MILLI,
    ensures
        m.m00 == INSTANCE_DEN && m.m01 == 0 && m.m02 == 0,
        m.m10 == 0 && m.m11 == INSTANCE_DEN && m.m12 == 0,
        m.m20 == 0 && m.m21 == 0 && m.m22 == INSTANCE_DEN,
        m.m03 == inst.position.x * INSTANCE_DEN,
        m.m13 == inst.position.y * INSTANCE_DEN,
        m.m23 == inst.position.z * INSTANCE_DEN,
        m.m33 == INSTANCE_DEN && m.den == INSTANCE_DEN,
{
}

} // verus!
