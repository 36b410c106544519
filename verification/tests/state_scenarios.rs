//! Scenario tests for the frame orchestrator: the per-frame protocol,
//! resize behavior, the command script's ordering, and the surface
//! error policy.

use cubeshadow::camera::{CameraBasis, InputEvent, MoveDirection};
use cubeshadow::math::Vec3;
use cubeshadow::model::{Material, Mesh, Model};
use cubeshadow::state::{
    surface_error_policy, ColorAttachmentOp, DepthAttachmentOp, FrameDecision, RenderCmd,
    SceneModel, State, SurfaceError,
};
use cubeshadow::texture::{DepthTarget, DepthTargetError, CompareFunction};

fn tiny_model(name: &str) -> Model {
    Model {
        meshes: vec![Mesh { name: name.to_string(), num_elements: 36, material: 0 }],
        materials: vec![Material::new(name.to_string(), 1000, 500)],
    }
}

fn fresh_state(shadows: bool) -> State {
    State::new(1280, 720, tiny_model("geom"), tiny_model("fog"), tiny_model("light"), shadows)
}

fn still_basis() -> CameraBasis {
    CameraBasis {
        forward: Vec3 { x: 1000, y: 0, z: 0 },
        right: Vec3 { x: 0, y: 0, z: 1000 },
        up: Vec3 { x: 0, y: 1000, z: 0 },
    }
}

#[test]
fn camera_does_not_move_without_input() {
    let mut state = fresh_state(true);
    assert_eq!(state.camera.position, Vec3 { x: -500000, y: 150000, z: 0 });
    state.update(16, 0, &still_basis());
    // With all controller deltas at zero the homogeneous position is
    // exactly the starting point.
    assert_eq!(state.camera_uniform.position, Vec3 { x: -500000, y: 150000, z: 0 });
    assert_eq!(state.camera_uniform.position_w, 1000);
    assert_eq!(state.camera_uniform.width, 1280);
    assert_eq!(state.camera_uniform.height, 720);
    // And the light has moved to its elapsed-time-zero position.
    assert_eq!(state.light_uniform.position, Vec3 { x: 0, y: 250, z: 0 });
}

#[test]
fn render_twice_produces_identical_scripts() {
    let mut state = fresh_state(true);
    state.update(16, 0, &still_basis());
    let first = state.render();
    let second = state.render();
    assert_eq!(first, second);
    assert_eq!(*first.last().unwrap(), RenderCmd::PresentFrame);
    let presents = first.iter().filter(|c| matches!(c, RenderCmd::PresentFrame)).count();
    assert_eq!(presents, 1);
    let acquires = first.iter().filter(|c| matches!(c, RenderCmd::AcquireSurface)).count();
    assert_eq!(acquires, 1);
}

#[test]
fn script_orders_shadow_faces_before_geometry() {
    let mut state = fresh_state(true);
    let script = state.render();
    assert_eq!(script.len(), 34);
    for i in 0..6u32 {
        let base = (4 * i) as usize;
        match script[base] {
            RenderCmd::UploadGlobals { face_index, shadows_enabled, .. } => {
                assert_eq!(face_index, i);
                assert!(shadows_enabled);
            }
            _ => panic!("expected a uniform write at {}", base),
        }
        match script[base + 1] {
            RenderCmd::BeginShadowPass { face, depth } => {
                assert_eq!(face, i);
                assert_eq!(depth, DepthAttachmentOp::ClearToFar);
            }
            _ => panic!("expected a shadow pass at {}", base + 1),
        }
        assert_eq!(script[base + 3], RenderCmd::SubmitCommands);
    }
    assert_eq!(script[24], RenderCmd::AcquireSurface);
    assert_eq!(
        script[25],
        RenderCmd::BeginGeometryPass {
            color: ColorAttachmentOp::ClearToBlack,
            depth: DepthAttachmentOp::ClearToFar,
        }
    );
    assert_eq!(
        script[27],
        RenderCmd::BeginLightDebugPass {
            color: ColorAttachmentOp::Load,
            depth: DepthAttachmentOp::Load,
        }
    );
    assert_eq!(script[29], RenderCmd::SubmitCommands);
    assert_eq!(
        script[30],
        RenderCmd::BeginFogPass {
            color: ColorAttachmentOp::Load,
            depth: DepthAttachmentOp::ReadOnly,
        }
    );
    assert_eq!(
        script[31],
        RenderCmd::DrawScene { model: SceneModel::FogVolume, instance_count: 1, bind_material: false }
    );
    assert_eq!(script[33], RenderCmd::PresentFrame);
}

#[test]
fn constrained_backend_skips_fog() {
    let mut state = fresh_state(false);
    let script = state.render();
    assert_eq!(script.len(), 31);
    assert!(script.iter().all(|c| !matches!(c, RenderCmd::BeginFogPass { .. })));
    assert_eq!(script[30], RenderCmd::PresentFrame);
    match script[0] {
        RenderCmd::UploadGlobals { shadows_enabled, .. } => assert!(!shadows_enabled),
        _ => panic!("expected a uniform write first"),
    }
}

#[test]
fn resize_round_trip_restores_depth_target() {
    let mut state = fresh_state(true);
    let original = state.geometry_depth_texture;
    state.resize(800, 600);
    assert_eq!(state.geometry_depth_texture.width, 800);
    assert_eq!(state.geometry_depth_texture.height, 600);
    assert_eq!(state.geometry_depth_bind_group.width, 800);
    assert_eq!(state.geometry_depth_bind_group.height, 600);
    state.resize(1280, 720);
    assert_eq!(state.geometry_depth_texture, original);
    assert_eq!(state.geometry_depth_bind_group.width, 1280);
    assert_eq!(state.geometry_depth_bind_group.height, 720);
}

#[test]
fn zero_resize_is_ignored() {
    let mut state = fresh_state(true);
    state.resize(0, 600);
    assert_eq!(state.width, 1280);
    assert_eq!(state.height, 720);
    state.resize(800, 0);
    assert_eq!(state.width, 1280);
    // The shadow cube never resizes.
    state.resize(640, 480);
    assert_eq!(state.light_depth_texture.width, 2048);
    assert_eq!(state.light_depth_texture.height, 2048);
    assert_eq!(state.light_depth_texture.layers, 6);
}

#[test]
fn depth_target_creation_errors() {
    assert_eq!(
        DepthTarget::create(0, 100, 1, None, true),
        Err(DepthTargetError::ZeroSize)
    );
    assert_eq!(
        DepthTarget::create(100, 9000, 1, None, true),
        Err(DepthTargetError::TooLarge)
    );
    assert_eq!(
        DepthTarget::create(100, 100, 3, None, true),
        Err(DepthTargetError::BadLayerCount)
    );
    let t = DepthTarget::create(2048, 2048, 6, Some(CompareFunction::LessEqual), true).unwrap();
    assert_eq!(t.width, 2048);
    assert_eq!(t.layers, 6);
    assert_eq!(t.compare, Some(CompareFunction::LessEqual));
    // The device limit itself is still acceptable.
    let largest = DepthTarget::create(8192, 8192, 1, None, false).unwrap();
    assert_eq!((largest.width, largest.height), (8192, 8192));
    assert_eq!(
        DepthTarget::create(8193, 8192, 1, None, false),
        Err(DepthTargetError::TooLarge)
    );
}

#[test]
fn surface_errors_map_to_loop_decisions() {
    assert_eq!(surface_error_policy(SurfaceError::Lost), FrameDecision::RecoverResize);
    assert_eq!(surface_error_policy(SurfaceError::OutOfMemory), FrameDecision::Fatal);
    assert_eq!(surface_error_policy(SurfaceError::Timeout), FrameDecision::RetryNextFrame);
    assert_eq!(surface_error_policy(SurfaceError::Outdated), FrameDecision::RetryNextFrame);
}

#[test]
fn input_forwards_to_controller() {
    let mut state = fresh_state(true);
    assert!(state.input(&InputEvent::Move { dir: MoveDirection::Forward, pressed: true }));
    assert_eq!(state.camera_controller.move_forward, 1000);
    assert!(!state.input(&InputEvent::Other));
}

#[test]
fn update_clears_mouse_deltas_but_keeps_keys() {
    let mut state = fresh_state(true);
    state.input(&InputEvent::Move { dir: MoveDirection::Forward, pressed: true });
    state.input(&InputEvent::MouseDelta { dx: 10, dy: 10 });
    state.update(16, 100, &still_basis());
    assert_eq!(state.camera_controller.deltax, 0);
    assert_eq!(state.camera_controller.deltay, 0);
    assert_eq!(state.camera_controller.move_forward, 1000);
}
