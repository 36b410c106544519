//! Scenario tests for the shadow projector: face conventions, the
//! projection's depth range, and the light animation.

use cubeshadow::light::LightUniform;
use cubeshadow::math::Vec3;
use cubeshadow::matrix::{Mat4, Vec4};
use cubeshadow::shadow::{face_basis, look_to, shadow_face_matrices, shadow_projection};

#[test]
fn face_table_matches_convention() {
    let b0 = face_basis(0);
    assert_eq!(b0.dir, Vec3 { x: 1, y: 0, z: 0 });
    assert_eq!(b0.up, Vec3 { x: 0, y: 1, z: 0 });
    let b1 = face_basis(1);
    assert_eq!(b1.dir, Vec3 { x: -1, y: 0, z: 0 });
    assert_eq!(b1.up, Vec3 { x: 0, y: 1, z: 0 });
    let b2 = face_basis(2);
    assert_eq!(b2.dir, Vec3 { x: 0, y: 1, z: 0 });
    assert_eq!(b2.up, Vec3 { x: 1, y: 0, z: 0 });
    let b3 = face_basis(3);
    assert_eq!(b3.dir, Vec3 { x: 0, y: -1, z: 0 });
    assert_eq!(b3.up, Vec3 { x: -1, y: 0, z: 0 });
    let b4 = face_basis(4);
    assert_eq!(b4.dir, Vec3 { x: 0, y: 0, z: 1 });
    assert_eq!(b4.up, Vec3 { x: 0, y: 1, z: 0 });
    let b5 = face_basis(5);
    assert_eq!(b5.dir, Vec3 { x: 0, y: 0, z: -1 });
    assert_eq!(b5.up, Vec3 { x: 0, y: 1, z: 0 });
}

#[test]
fn projection_maps_near_to_zero_and_far_to_one() {
    let p = shadow_projection();
    // A view-space point at depth d sits at (0, 0, -d). The projected
    // depth is z / w of the transformed point.
    let near = p.transform(&Vec4 { x: 0, y: 0, z: -1, w: 1 });
    assert_eq!(near.z, 0);
    assert_eq!(near.w, 2999);
    let far = p.transform(&Vec4 { x: 0, y: 0, z: -3000, w: 1 });
    assert_eq!(far.z, far.w);
    let mid = p.transform(&Vec4 { x: 0, y: 0, z: -1500, w: 1 });
    // z = far * (d - near) = 3000 * 1499; w = (far - near) * d = 2999 * 1500.
    assert_eq!(mid.z, 4497000);
    assert_eq!(mid.w, 4498500);
    assert!(0 < mid.z && mid.z < mid.w);
}

#[test]
fn look_to_positive_x_face() {
    let eye = Vec3 { x: 1, y: 2, z: 3 };
    let m = look_to(eye, Vec3 { x: 1, y: 0, z: 0 }, Vec3 { x: 0, y: 1, z: 0 });
    // s = dir x up = (0, 0, 1), u = s x dir = (0, 1, 0), forward row is -dir.
    assert_eq!((m.m00, m.m01, m.m02, m.m03), (0, 0, 1, -3));
    assert_eq!((m.m10, m.m11, m.m12, m.m13), (0, 1, 0, -2));
    assert_eq!((m.m20, m.m21, m.m22, m.m23), (-1, 0, 0, 1));
    assert_eq!((m.m30, m.m31, m.m32, m.m33), (0, 0, 0, 1));
    assert_eq!(m.den, 1);
}

#[test]
fn face_matrices_put_depth_in_unit_range() {
    let eye = Vec3 { x: 123, y: -456, z: 789 };
    let ms = shadow_face_matrices(eye);
    assert_eq!(ms.len(), 6);
    for i in 0..6u32 {
        let b = face_basis(i);
        for d in [1i64, 2, 500, 1500, 2999, 3000] {
            let p = Vec4 {
                x: eye.x + d * b.dir.x,
                y: eye.y + d * b.dir.y,
                z: eye.z + d * b.dir.z,
                w: 1,
            };
            let q = ms[i as usize].transform(&p);
            assert!(q.w > 0);
            assert!(0 <= q.z && q.z <= q.w);
        }
    }
}

#[test]
fn light_at_rest_position_and_positive_y_face_depth_order() {
    let mut light = LightUniform::new(Vec3 { x: 0, y: 0, z: 0 }, 1000, 1000, 1000, 250000000);
    light.animate(0);
    // At elapsed time zero every oscillator is at its zero crossing.
    assert_eq!(light.position, Vec3 { x: 0, y: 250, z: 0 });
    // Matrix 2 is the +Y face (view direction (0,1,0), up (1,0,0) in
    // this crate's convention): a point further along +Y projects to a
    // greater depth.
    let m2: Mat4 = light.matrices[2];
    let close = m2.transform(&Vec4 { x: 0, y: 350, z: 0, w: 1 });
    let further = m2.transform(&Vec4 { x: 0, y: 450, z: 0, w: 1 });
    assert!(close.w > 0 && further.w > 0);
    assert!(0 <= close.z && close.z <= close.w);
    assert!(0 <= further.z && further.z <= further.w);
    // Compare z/w as exact cross products.
    assert!(close.z * further.w < further.z * close.w);
}

#[test]
fn face_matrix_is_projection_times_view() {
    let eye = Vec3 { x: 10, y: 20, z: 30 };
    let ms = shadow_face_matrices(eye);
    for i in 0..6u32 {
        let b = face_basis(i);
        let view = look_to(eye, b.dir, b.up);
        let expect = shadow_projection().mul(&view);
        assert_eq!(ms[i as usize], expect);
    }
}
