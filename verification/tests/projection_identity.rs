//! The floating-point reconstruction invariant the fog pass relies
//! on: for a valid camera state, `inverse(proj * view) * (proj * view)`
//! is the identity within 1e-4. The matrices are floating point, so
//! the library models their parameters and this test checks the
//! numeric property over them.

use cubeshadow::camera::Camera;
use cubeshadow::math::Vec3;

type M4 = [[f64; 4]; 4];

fn mat_mul(a: &M4, b: &M4) -> M4 {
    let mut r = [[0.0f64; 4]; 4];
    for i in 0..4 {
        for j in 0..4 {
            let mut s = 0.0f64;
            for k in 0..4 {
                s += a[i][k] * b[k][j];
            }
            r[i][j] = s;
        }
    }
    r
}

fn invert(m: &M4) -> M4 {
    // Gauss-Jordan elimination with partial pivoting on [m | I].
    let mut a = *m;
    let mut inv = [[0.0f64; 4]; 4];
    for i in 0..4 {
        inv[i][i] = 1.0;
    }
    for col in 0..4 {
        let mut pivot = col;
        for row in col + 1..4 {
            if a[row][col].abs() > a[pivot][col].abs() {
                pivot = row;
            }
        }
        assert!(a[pivot][col].abs() > 1e-12, "matrix is singular");
        a.swap(col, pivot);
        inv.swap(col, pivot);
        let d = a[col][col];
        for j in 0..4 {
            a[col][j] /= d;
            inv[col][j] /= d;
        }
        for row in 0..4 {
            if row != col {
                let f = a[row][col];
                for j in 0..4 {
                    a[row][j] -= f * a[col][j];
                    inv[row][j] -= f * inv[col][j];
                }
            }
        }
    }
    inv
}

/// The right-handed look-to view matrix of the camera's modelled
/// orientation, rebuilt in floating point as the platform layer does.
fn view_matrix(cam: &Camera) -> M4 {
    let yaw = (cam.yaw_mdeg as f64) / 1000.0 * std::f64::consts::PI / 180.0;
    let pitch = (cam.pitch_mdeg as f64) / 1000.0 * std::f64::consts::PI / 180.0;
    let fwd = [pitch.cos() * yaw.cos(), pitch.sin(), pitch.cos() * yaw.sin()];
    let right = [-yaw.sin(), 0.0, yaw.cos()];
    let up = [
        right[1] * fwd[2] - right[2] * fwd[1],
        right[2] * fwd[0] - right[0] * fwd[2],
        right[0] * fwd[1] - right[1] * fwd[0],
    ];
    let eye = [
        (cam.position.x as f64) / 1000.0,
        (cam.position.y as f64) / 1000.0,
        (cam.position.z as f64) / 1000.0,
    ];
    let dot = |a: [f64; 3], b: [f64; 3]| a[0] * b[0] + a[1] * b[1] + a[2] * b[2];
    [
        [right[0], right[1], right[2], -dot(right, eye)],
        [up[0], up[1], up[2], -dot(up, eye)],
        [-fwd[0], -fwd[1], -fwd[2], dot(fwd, eye)],
        [0.0, 0.0, 0.0, 1.0],
    ]
}

/// The perspective matrix of the camera's modelled projection
/// parameters, depth mapped onto [0, 1].
fn proj_matrix(cam: &Camera) -> M4 {
    let fovy = (cam.projection.fovy_mdeg as f64) / 1000.0 * std::f64::consts::PI / 180.0;
    let aspect = cam.projection.width as f64 / cam.projection.height as f64;
    let near = cam.projection.znear as f64;
    let far = cam.projection.zfar as f64;
    let f = 1.0 / (fovy / 2.0).tan();
    [
        [f / aspect, 0.0, 0.0, 0.0],
        [0.0, f, 0.0, 0.0],
        [0.0, 0.0, far / (near - far), near * far / (near - far)],
        [0.0, 0.0, -1.0, 0.0],
    ]
}

#[test]
fn inverse_view_projection_reconstructs_identity() {
    for (pos, pitch, yaw) in [
        (Vec3 { x: -500000, y: 150000, z: 0 }, 0i64, 0i64),
        (Vec3 { x: 1000, y: -2000, z: 3000 }, 45000, 123000),
        (Vec3 { x: 0, y: 0, z: 0 }, -89000, 359000),
    ] {
        let cam = Camera::new(pos, pitch, yaw, 55000, 1280, 720);
        let vp = mat_mul(&proj_matrix(&cam), &view_matrix(&cam));
        let id = mat_mul(&invert(&vp), &vp);
        for i in 0..4 {
            for j in 0..4 {
                let expect = if i == j { 1.0 } else { 0.0 };
                assert!(
                    (id[i][j] - expect).abs() < 1e-4,
                    "entry ({}, {}) is {}",
                    i,
                    j,
                    id[i][j]
                );
            }
        }
    }
}
