//! The shadow projector: the six cube-face view-projection matrices of
//! an omnidirectional point light.
//!
//! Each face uses a 90-degree field of view at 1:1 aspect, so the six
//! frusta tile the full sphere without gap or overlap, and the near and
//! far planes match the main camera's. The face convention, shared with
//! the shading pass that samples the cube, is the table in
//! `spec_face_dir` / `spec_face_up`: +X, -X, +Y, -Y, +Z, -Z in that
//! layer order, with +Y as the up vector except on the two Y faces,
//! which use +X and -X.
//!
//! Matrices follow the right-handed look-to convention: the view space
//! looks down its negative z axis, and the projection maps view depths
//! between the near and far planes into `[0, 1]` after the perspective
//! divide, which is what the depth attachment stores.

use vstd::prelude::*;

verus! {

use crate::math::{Vec3, cross, dot, lemma_abs_mul_le};
use crate::matrix::{Mat4, Vec4S, MUL_RIGHT_BOUND, MUL_RESULT_BOUND};
use crate::camera::{NEAR_PLANE, FAR_PLANE};

/// Number of cube faces, and of shadow matrices.
pub const FACE_COUNT: u32 = 6;

/// Magnitude bound on each light position component, in world units.
pub const LIGHT_POS_LIMIT: i64 = 1000000;

/// The common denominator of the shadow projection: the depth range.
pub const PROJ_DEN: i64 = FAR_PLANE - NEAR_PLANE;

/// The view direction of cube face `i`.
pub open spec fn spec_face_dir(i: int) -> Vec3 {
    if i == 0 {
        Vec3 { x: 1, y: 0, z: 0 }
    } else if i == 1 {
        Vec3 { x: -1i64, y: 0, z: 0 }
    } else if i == 2 {
        Vec3 { x: 0, y: 1, z: 0 }
    } else if i == 3 {
        Vec3 { x: 0, y: -1i64, z: 0 }
    } else if i == 4 {
        Vec3 { x: 0, y: 0, z: 1 }
    } else {
        Vec3 { x: 0, y: 0, z: -1i64 }
    }
}

/// The up vector of cube face `i`.
pub open spec fn spec_face_up(i: int) -> Vec3 {
    if i == 2 {
        Vec3 { x: 1, y: 0, z: 0 }
    } else if i == 3 {
        Vec3 { x: -1i64, y: 0, z: 0 }
    } else {
        Vec3 { x: 0, y: 1, z: 0 }
    }
}

/// The (direction, up) pair of one cube face.
#[derive(Clone, Copy, Debug, PartialEq, Eq, Structural)]
pub struct FaceBasis {
    pub dir: Vec3,
    pub up: Vec3,
}

/// The fixed lookup table of the six cube-face bases.
pub fn face_basis(i: u32) -> (b: FaceBasis)
    requires
        i < FACE_COUNT,
    ensures
        b.dir == spec_face_dir(i as int),
        b.up == spec_face_up(i as int),
{
    if i == 0 {
        FaceBasis { dir: Vec3 { x: 1, y: 0, z: 0 }, up: Vec3 { x: 0, y: 1, z: 0 } }
    } else if i == 1 {
        FaceBasis { dir: Vec3 { x: -1, y: 0, z: 0 }, up: Vec3 { x: 0, y: 1, z: 0 } }
    } else if i == 2 {
        FaceBasis { dir: Vec3 { x: 0, y: 1, z: 0 }, up: Vec3 { x: 1, y: 0, z: 0 } }
    } else if i == 3 {
        FaceBasis { dir: Vec3 { x: 0, y: -1, z: 0 }, up: Vec3 { x: -1, y: 0, z: 0 } }
    } else if i == 4 {
        FaceBasis { dir: Vec3 { x: 0, y: 0, z: 1 }, up: Vec3 { x: 0, y: 1, z: 0 } }
    } else {
        FaceBasis { dir: Vec3 { x: 0, y: 0, z: -1 }, up: Vec3 { x: 0, y: 1, z: 0 } }
    }
}

/// `m` is the right-handed look-to view matrix for an eye at `eye`
/// facing `dir` with up vector `up`: its rows are the side vector
/// `s = dir x up`, the true up `u = s x dir` and `-dir`, each with the
/// translation that moves `eye` to the origin.
pub open spec fn is_look_to(m: Mat4, eye: Vec3, dir: Vec3, up: Vec3) -> bool {
    let sx = dir.y * up.z - dir.z * up.y;
    let sy = dir.z * up.x - dir.x * up.z;
    let sz = dir.x * up.y - dir.y * up.x;
    let ux = sy * dir.z - sz * dir.y;
    let uy = sz * dir.x - sx * dir.z;
    let uz = sx * dir.y - sy * dir.x;
    &&& m.m00 == sx && m.m01 == sy && m.m02 == sz
    &&& m.m03 == -(sx * eye.x + sy * eye.y + sz * eye.z)
    &&& m.m10 == ux && m.m11 == uy && m.m12 == uz
    &&& m.m13 == -(ux * eye.x + uy * eye.y + uz * eye.z)
    &&& m.m20 == -dir.x && m.m21 == -dir.y && m.m22 == -dir.z
    &&& m.m23 == dir.x * eye.x + dir.y * eye.y + dir.z * eye.z
    &&& m.m30 == 0 && m.m31 == 0 && m.m32 == 0 && m.m33 == 1
    &&& m.den == 1
}

/// Builds the right-handed look-to view matrix from an axis-aligned
/// basis.
pub fn look_to(eye: Vec3, dir: Vec3, up: Vec3) -> (m: Mat4)
    requires
        dir.bounded(1),
        up.bounded(1),
        eye.bounded(LIGHT_POS_LIMIT as int),
    ensures
        is_look_to(m, eye, dir, up),
        m.bounded(MUL_RIGHT_BOUND as int),
{
    let s: Vec3 = cross(dir, up);
    proof {
        lemma_abs_mul_le(dir.y as int, up.z as int, 1, 1);
        lemma_abs_mul_le(dir.z as int, up.y as int, 1, 1);
        lemma_abs_mul_le(dir.z as int, up.x as int, 1, 1);
        lemma_abs_mul_le(dir.x as int, up.z as int, 1, 1);
        lemma_abs_mul_le(dir.x as int, up.y as int, 1, 1);
        lemma_abs_mul_le(dir.y as int, up.x as int, 1, 1);
        assert(s.bounded(2));
    }
    let u: Vec3 = cross(s, dir);
    proof {
        lemma_abs_mul_le(s.y as int, dir.z as int, 2, 1);
        lemma_abs_mul_le(s.z as int, dir.y as int, 2, 1);
        lemma_abs_mul_le(s.z as int, dir.x as int, 2, 1);
        lemma_abs_mul_le(s.x as int, dir.z as int, 2, 1);
        lemma_abs_mul_le(s.x as int, dir.y as int, 2, 1);
        lemma_abs_mul_le(s.y as int, dir.x as int, 2, 1);
        assert(u.bounded(4));
        lemma_abs_mul_le(s.x as int, eye.x as int, 2, LIGHT_POS_LIMIT as int);
        lemma_abs_mul_le(s.y as int, eye.y as int, 2, LIGHT_POS_LIMIT as int);
        lemma_abs_mul_le(s.z as int, eye.z as int, 2, LIGHT_POS_LIMIT as int);
        lemma_abs_mul_le(u.x as int, eye.x as int, 4, LIGHT_POS_LIMIT as int);
        lemma_abs_mul_le(u.y as int, eye.y as int, 4, LIGHT_POS_LIMIT as int);
        lemma_abs_mul_le(u.z as int, eye.z as int, 4, LIGHT_POS_LIMIT as int);
        lemma_abs_mul_le(dir.x as int, eye.x as int, 1, LIGHT_POS_LIMIT as int);
        lemma_abs_mul_le(dir.y as int, eye.y as int, 1, LIGHT_POS_LIMIT as int);
        lemma_abs_mul_le(dir.z as int, eye.z as int, 1, LIGHT_POS_LIMIT as int);
    }
    let st: i64 = dot(s, eye);
    let ut: i64 = dot(u, eye);
    let ft: i64 = dot(dir, eye);
    Mat4 {
        m00: s.x, m01: s.y, m02: s.z, m03: -st,
        m10: u.x, m11: u.y, m12: u.z, m13: -ut,
        m20: -dir.x, m21: -dir.y, m22: -dir.z, m23: ft,
        m30: 0, m31: 0, m32: 0, m33: 1,
        den: 1,
    }
}

/// `m` is the shadow projection: a 90-degree field of view at 1:1
/// aspect, with the crate's near and far planes, mapping view depth
/// onto `[0, 1]`. Over the denominator `PROJ_DEN` its rows are
/// `(1, 0, 0, 0)`, `(0, 1, 0, 0)`,
/// `(0, 0, far/(near-far), near*far/(near-far))` and `(0, 0, -1, 0)`.
pub open spec fn is_shadow_projection(m: Mat4) -> bool {
    &&& m.m00 == PROJ_DEN && m.m01 == 0 && m.m02 == 0 && m.m03 == 0
    &&& m.m10 == 0 && m.m11 == PROJ_DEN && m.m12 == 0 && m.m13 == 0
    &&& m.m20 == 0 && m.m21 == 0 && m.m22 == -FAR_PLANE && m.m23 == -(NEAR_PLANE * FAR_PLANE)
    &&& m.m30 == 0 && m.m31 == 0 && m.m32 == -PROJ_DEN && m.m33 == 0
    &&& m.den == PROJ_DEN
}

/// Builds the shadow projection matrix.
pub fn shadow_projection() -> (m: Mat4)
    ensures
        is_shadow_projection(m),
{
    Mat4 {
        m00: PROJ_DEN, m01: 0, m02: 0, m03: 0,
        m10: 0, m11: PROJ_DEN, m12: 0, m13: 0,
        m20: 0, m21: 0, m22: -FAR_PLANE, m23: -(NEAR_PLANE * FAR_PLANE),
        m30: 0, m31: 0, m32: -PROJ_DEN, m33: 0,
        den: PROJ_DEN,
    }
}

/// `m` is the view-projection matrix of cube face `i` for a light at
/// `eye`: the shadow projection composed with the face's look-to view.
/// The rows are written out over the denominator `PROJ_DEN`.
pub open spec fn is_face_matrix(m: Mat4, eye: Vec3, i: int) -> bool {
    let f = spec_face_dir(i);
    let up = spec_face_up(i);
    let sx = f.y * up.z - f.z * up.y;
    let sy = f.z * up.x - f.x * up.z;
    let sz = f.x * up.y - f.y * up.x;
    let ux = sy * f.z - sz * f.y;
    let uy = sz * f.x - sx * f.z;
    let uz = sx * f.y - sy * f.x;
    let se = sx * eye.x + sy * eye.y + sz * eye.z;
    let ue = ux * eye.x + uy * eye.y + uz * eye.z;
    let fe = f.x * eye.x + f.y * eye.y + f.z * eye.z;
    &&& m.m00 == PROJ_DEN * sx && m.m01 == PROJ_DEN * sy && m.m02 == PROJ_DEN * sz
    &&& m.m03 == -(PROJ_DEN * se)
    &&& m.m10 == PROJ_DEN * ux && m.m11 == PROJ_DEN * uy && m.m12 == PROJ_DEN * uz
    &&& m.m13 == -(PROJ_DEN * ue)
    &&& m.m20 == FAR_PLANE * f.x && m.m21 == FAR_PLANE * f.y && m.m22 == FAR_PLANE * f.z
    &&& m.m23 == -(FAR_PLANE * fe) - NEAR_PLANE * FAR_PLANE
    &&& m.m30 == PROJ_DEN * f.x && m.m31 == PROJ_DEN * f.y && m.m32 == PROJ_DEN * f.z
    &&& m.m33 == -(PROJ_DEN * fe)
    &&& m.den == PROJ_DEN
}

/// Computes the six face view-projection matrices for a light at
/// `eye`, in cube layer order: a pure function of the light position.
pub fn shadow_face_matrices(eye: Vec3) -> (ms: Vec<Mat4>)
    requires
        eye.bounded(LIGHT_POS_LIMIT as int),
    ensures
        ms.len() == FACE_COUNT,
        forall|i: int| 0 <= i < FACE_COUNT ==> is_face_matrix(#[trigger] ms[i], eye, i),
        forall|i: int| 0 <= i < FACE_COUNT ==> (#[trigger] ms[i]).bounded(MUL_RESULT_BOUND as int),
{
    let proj: Mat4 = shadow_projection();
    let mut ms: Vec<Mat4> = Vec::new();
    let mut i: u32 = 0;
    while i < FACE_COUNT
        invariant
            i <= FACE_COUNT,
            ms.len() == i,
            eye.bounded(LIGHT_POS_LIMIT as int),
            is_shadow_projection(proj),
            forall|j: int| 0 <= j < i ==> is_face_matrix(#[trigger] ms[j], eye, j),
            forall|j: int| 0 <= j < i ==> (#[trigger] ms[j]).bounded(MUL_RESULT_BOUND as int),
        decreases FACE_COUNT - i,
    {
        let basis: FaceBasis = face_basis(i);
        let view: Mat4 = look_to(eye, basis.dir, basis.up);
        let m: Mat4 = proj.mul(&view);
        proof {
            assert(is_face_matrix(m, eye, i as int));
        }
        ms.push(m);
        i = i + 1;
    }
    ms
}

/// A vector that is one of the six axis-aligned unit directions.
pub open spec fn is_unit_axis(v: Vec3) -> bool {
    ||| (v.x == 1 || v.x == -1) && v.y == 0 && v.z == 0
    ||| v.x == 0 && (v.y == 1 || v.y == -1) && v.z == 0
    ||| v.x == 0 && v.y == 0 && (v.z == 1 || v.z == -1)
}

/// The face directions cover the full sphere without gap or overlap:
/// every face's direction and up vector are unit axes, the six
/// directions are pairwise distinct, and every one of the six axis
/// directions is some face's direction.
pub proof fn lemma_face_bases_cover_sphere()
    ensures
        forall|i: int| 0 <= i < 6 ==> is_unit_axis(#[trigger] spec_face_dir(i)),
        forall|i: int| 0 <= i < 6 ==> is_unit_axis(#[trigger] spec_face_up(i)),
        forall|i: int, j: int| 0 <= i < j < 6 ==> spec_face_dir(i) != spec_face_dir(j),
        forall|v: Vec3| is_unit_axis(v) ==> exists|i: int| 0 <= i < 6 && #[trigger] spec_face_dir(i) == v,
{
    assert forall|v: Vec3| is_unit_axis(v) implies exists|i: int| 0 <= i < 6 && #[trigger] spec_face_dir(i) == v by {
        if v.x == 1 && v.y == 0 && v.z == 0 {
            assert(spec_face_dir(0) == v);
        } else if v.x == -1 && v.y == 0 && v.z == 0 {
            assert(spec_face_dir(1) == v);
        } else if v.x == 0 && v.y == 1 && v.z == 0 {
            assert(spec_face_dir(2) == v);
        } else if v.x == 0 && v.y == -1 && v.z == 0 {
            assert(spec_face_dir(3) == v);
        } else if v.x == 0 && v.y == 0 && v.z == 1 {
            assert(spec_face_dir(4) == v);
        } else {
            assert(spec_face_dir(5) == v);
        }
    }
}

/// The side vector `dir x up` of cube face `i`.
pub open spec fn spec_face_side(i: int) -> Vec3 {
    if i == 0 {
        Vec3 { x: 0, y: 0, z: 1 }
    } else if i == 4 {
        Vec3 { x: -1i64, y: 0, z: 0 }
    } else if i == 5 {
        Vec3 { x: 1, y: 0, z: 0 }
    } else {
        Vec3 { x: 0, y: 0, z: -1i64 }
    }
}

/// The true up vector `side x dir` of cube face `i`.
pub open spec fn spec_face_true_up(i: int) -> Vec3 {
    if i == 2 {
        Vec3 { x: 1, y: 0, z: 0 }
    } else if i == 3 {
        Vec3 { x: -1i64, y: 0, z: 0 }
    } else {
        Vec3 { x: 0, y: 1, z: 0 }
    }
}

/// Each face frustum is consistent with the others in handedness: for
/// every face, the side vector `s = dir x up` and the true up
/// `u = s x dir` complete the face direction to a pairwise orthogonal
/// triple of unit axes, and `dir = u x s` — equivalently
/// `s x u == -dir` for every face, the right-handed view convention
/// looking down the negative z axis.
pub proof fn lemma_face_triples_orthogonal(i: int)
    by (nonlinear_arith)
    requires
        0 <= i < 6,
    ensures
        ({
            let f = spec_face_dir(i);
            let up = spec_face_up(i);
            let s = spec_face_side(i);
            let u = spec_face_true_up(i);
            &&& s.is_cross_of(f, up)
            &&& u.is_cross_of(s, f)
            &&& f.is_cross_of(u, s)
            &&& is_unit_axis(s)
            &&& is_unit_axis(u)
            &&& f.spec_dot(up) == 0
            &&& s.spec_dot(u) == 0
            &&& s.spec_dot(f) == 0
            &&& u.spec_dot(f) == 0
        }),
{
}

/// Depth correctness of the shadow frusta: for any light position and
/// any face, a point directly in front of that face at a distance `d`
/// between the near and far planes projects to a homogeneous depth
/// `z / w` inside `[0, 1]`, with a positive `w`.
pub proof fn lemma_face_depth_in_unit_range(m: Mat4, eye: Vec3, i: int, d: int)
    by (nonlinear_arith)
    requires
        eye.bounded(LIGHT_POS_LIMIT as int),
        0 <= i < 6,
        is_face_matrix(m, eye, i),
        NEAR_PLANE <= d <= FAR_PLANE,
    ensures
        ({
            let f = spec_face_dir(i);
            let p = Vec4S {
                x: eye.x + d * f.x,
                y: eye.y + d * f.y,
                z: eye.z + d * f.z,
                w: 1,
            };
            let q = m.spec_transform(p);
            q.w > 0 && 0 <= q.z <= q.w
        }),
{
}

} // verus!
