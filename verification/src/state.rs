//! The frame orchestrator: the one object owning every render
//! resource, advancing the simulation once per tick, and producing the
//! ordered per-frame command script — shadow pass over the six cube
//! faces, geometry pass, light-debug pass, fog pass, present.
//!
//! The script is data: the platform layer executes it against the GPU
//! queue in order, which is what makes the ordering contracts below
//! meaningful — the shadow cube is complete before the geometry pass
//! samples it, the geometry depth is complete before the fog pass
//! reads it, and the overlay passes load rather than clear.

use vstd::prelude::*;

verus! {

use crate::camera::{
    Camera, CameraBasis, CameraController, CameraUniform, InputEvent, is_processed_controller,
    is_moved_position, spec_pitch_delta_mdeg, spec_yaw_delta_mdeg, DT_LIMIT_MS,
    MOUSE_EVENT_LIMIT, NEAR_PLANE, FAR_PLANE, PITCH_LIMIT_MDEG,
};
use crate::light::{LightUniform, is_animated_position, is_animated_color, TIME_LIMIT_MS};
use crate::math::{Vec3, MILLI, spec_clamp, spec_wrap_mdeg};
use crate::model::Model;
use crate::pass::{RenderPass, ShaderProgram, Face, is_pipeline_config};
use crate::texture::{
    DepthTarget, CompareFunction, DEPTH_MAX_DIM, SHADOW_MAP_SIZE, SHADOW_MAP_LAYERS, create_sampler,
};
use crate::instance::{Instance, Quaternion};

/// The per-draw global uniform: elapsed time, the cube face being
/// rendered, and the capability flag for shadow sampling.
#[derive(Clone, Copy, Debug, PartialEq, Eq, Structural)]
pub struct GlobalUniforms {
    pub time_ms: u64,
    pub light_matrix_index: u32,
    pub use_shadowmaps: bool,
}

/// The bind group that samples the on-screen depth buffer. It records
/// the extent of the depth target view it was built from: it is stale
/// exactly when that extent no longer matches the target's.
#[derive(Clone, Copy, Debug, PartialEq, Eq, Structural)]
pub struct GeometryDepthBindGroup {
    pub width: u32,
    pub height: u32,
}

/// The models a draw command refers to.
#[derive(Clone, Copy, Debug, PartialEq, Eq, Structural)]
pub enum SceneModel {
    Geometry,
    FogVolume,
    LightMarker,
}

/// How a pass treats its color attachment on load.
#[derive(Clone, Copy, Debug, PartialEq, Eq, Structural)]
pub enum ColorAttachmentOp {
    ClearToBlack,
    Load,
}

/// How a pass treats its depth attachment on load: cleared to the far
/// plane, loaded and writable, or loaded read-only.
#[derive(Clone, Copy, Debug, PartialEq, Eq, Structural)]
pub enum DepthAttachmentOp {
    ClearToFar,
    Load,
    ReadOnly,
}

/// One step of the per-frame command script, executed in order against
/// the GPU queue.
#[derive(Clone, Copy, Debug, PartialEq, Eq, Structural)]
pub enum RenderCmd {
    /// Write the per-draw global uniform and flush it, so the draws
    /// recorded after it see this face index.
    UploadGlobals { face_index: u32, shadows_enabled: bool, time_ms: u64 },
    /// Begin the depth-only shadow pass into one cube face layer.
    BeginShadowPass { face: u32, depth: DepthAttachmentOp },
    /// Begin the geometry pass onto the acquired surface image.
    BeginGeometryPass { color: ColorAttachmentOp, depth: DepthAttachmentOp },
    /// Begin the light-marker overlay pass.
    BeginLightDebugPass { color: ColorAttachmentOp, depth: DepthAttachmentOp },
    /// Begin the fog compositing pass.
    BeginFogPass { color: ColorAttachmentOp, depth: DepthAttachmentOp },
    /// Draw a scene model, instanced, in the current pass.
    DrawScene { model: SceneModel, instance_count: u32, bind_material: bool },
    /// Submit everything recorded since the previous submission.
    SubmitCommands,
    /// Acquire the next presentable surface image.
    AcquireSurface,
    /// Present the acquired surface image.
    PresentFrame,
}

/// Why acquiring the surface image failed, as the presentation layer
/// reports it.
#[derive(Clone, Copy, Debug, PartialEq, Eq, Structural)]
pub enum SurfaceError {
    Timeout,
    Outdated,
    Lost,
    OutOfMemory,
}

/// What the frame loop does about a failed acquisition.
#[derive(Clone, Copy, Debug, PartialEq, Eq, Structural)]
pub enum FrameDecision {
    /// Re-run the resize procedure at the current size, skip this
    /// frame's present, continue.
    RecoverResize,
    /// Terminate the application.
    Fatal,
    /// Drop this frame's work and try again next tick.
    RetryNextFrame,
}

/// The loop-control decision for each surface error: a lost surface is
/// rebuilt, memory exhaustion is fatal, anything else is retried next
/// tick.
pub fn surface_error_policy(e: SurfaceError) -> (d: FrameDecision)
    ensures
        d == (match e {
            SurfaceError::Lost => FrameDecision::RecoverResize,
            SurfaceError::OutOfMemory => FrameDecision::Fatal,
            SurfaceError::Timeout => FrameDecision::RetryNextFrame,
            SurfaceError::Outdated => FrameDecision::RetryNextFrame,
        }),
{
    match e {
        SurfaceError::Lost => FrameDecision::RecoverResize,
        SurfaceError::OutOfMemory => FrameDecision::Fatal,
        SurfaceError::Timeout => FrameDecision::RetryNextFrame,
        SurfaceError::Outdated => FrameDecision::RetryNextFrame,
    }
}

/// The renderer state: every resource the frame loop owns.
pub struct State {
    pub width: u32,
    pub height: u32,
    pub camera: Camera,
    pub camera_uniform: CameraUniform,
    pub camera_controller: CameraController,
    pub light_uniform: LightUniform,
    pub global_uniforms: GlobalUniforms,
    pub geometry_depth_texture: DepthTarget,
    pub geometry_depth_bind_group: GeometryDepthBindGroup,
    pub light_depth_texture: DepthTarget,
    pub geometry_pass: RenderPass,
    pub light_debug_pass: RenderPass,
    pub light_depth_pass: RenderPass,
    pub fog_pass: RenderPass,
    pub geom_model: Model,
    pub fog_model: Model,
    pub light_model: Model,
    pub geom_instances: Vec<Instance>,
    pub fog_instances: Vec<Instance>,
    pub fog_enabled: bool,
}

impl State {
    /// The renderer invariant.
    ///
    /// The on-screen depth target always matches the viewport and its
    /// bind group always matches the target, so the bind group is
    /// never stale after any resize sequence. The shadow cube is
    /// fixed-resolution and never resizes. The four pipelines carry
    /// exactly the configurations the scene requires, and the shadow
    /// sampling flag equals the fog capability flag: both come from
    /// the one capability decision made at startup.
    pub open spec fn wf(self) -> bool {
        &&& 0 < self.width <= DEPTH_MAX_DIM
        &&& 0 < self.height <= DEPTH_MAX_DIM
        &&& self.camera.wf()
        &&& self.camera.projection.width == self.width
        &&& self.camera.projection.height == self.height
        &&& self.camera_controller.wf()
        &&& self.light_uniform.wf()
        &&& self.geometry_depth_texture.wf()
        &&& self.geometry_depth_texture.layers == 1
        &&& self.geometry_depth_texture.width == self.width
        &&& self.geometry_depth_texture.height == self.height
        &&& self.geometry_depth_texture.compare is None
        &&& self.geometry_depth_texture.filterable
        &&& self.geometry_depth_bind_group.width == self.geometry_depth_texture.width
        &&& self.geometry_depth_bind_group.height == self.geometry_depth_texture.height
        &&& self.light_depth_texture.wf()
        &&& self.light_depth_texture.width == SHADOW_MAP_SIZE
        &&& self.light_depth_texture.height == SHADOW_MAP_SIZE
        &&& self.light_depth_texture.layers == SHADOW_MAP_LAYERS
        &&& self.light_depth_texture.compare == Some(CompareFunction::LessEqual)
        &&& self.light_depth_texture.filterable
        &&& is_pipeline_config(self.light_depth_pass.pipeline, ShaderProgram::Depth,
            false, true, true, true, false, true, Some(Face::Back))
        &&& is_pipeline_config(self.geometry_pass.pipeline, ShaderProgram::Pbr,
            true, true, true, false, true, true, Some(Face::Back))
        &&& is_pipeline_config(self.light_debug_pass.pipeline, ShaderProgram::LightDebug,
            true, true, false, false, false, true, Some(Face::Back))
        &&& is_pipeline_config(self.fog_pass.pipeline, ShaderProgram::Fog,
            true, true, true, false, true, false, Some(Face::Back))
        &&& self.geom_model.wf()
        &&& self.fog_model.wf()
        &&& self.light_model.wf()
        &&& self.geom_instances.len() == 1
        &&& self.fog_instances.len() == 1
        &&& self.global_uniforms.light_matrix_index < SHADOW_MAP_LAYERS
        &&& self.global_uniforms.use_shadowmaps == self.fog_enabled
    }

    /// Builds the renderer around the three loaded models: camera at
    /// `(-500, 150, 0)` looking along yaw 0, the light uniform white
    /// at the origin, the four pipelines, the viewport depth target
    /// and the fixed shadow cube. A zero window extent is clamped to
    /// one, an oversized one to the device limit. The one capability
    /// decision, `shadows_supported`, enables both shadow sampling
    /// and the fog pass.
    pub fn new(width: u32, height: u32, geom_model: Model, fog_model: Model, light_model: Model, shadows_supported: bool) -> (s: State)
        requires
            geom_model.wf(),
            fog_model.wf(),
            light_model.wf(),
        ensures
            s.wf(),
            s.width == spec_clamp(width as int, 1, DEPTH_MAX_DIM as int),
            s.height == spec_clamp(height as int, 1, DEPTH_MAX_DIM as int),
            s.camera.position == (Vec3 { x: -500000i64, y: 150000, z: 0 }),
            s.camera.pitch_mdeg == 0,
            s.camera.yaw_mdeg == 0,
            s.camera.projection.fovy_mdeg == 55000,
            s.camera_uniform.position == s.camera.position,
            s.camera_controller.deltax == 0 && s.camera_controller.deltay == 0,
            s.camera_controller.move_forward == 0 && s.camera_controller.move_backward == 0,
            s.camera_controller.move_left == 0 && s.camera_controller.move_right == 0,
            s.camera_controller.move_up == 0 && s.camera_controller.move_down == 0,
            s.camera_controller.speed_milli == 400000,
            s.camera_controller.sensitivity_milli == 2000,
            s.light_uniform.position == (Vec3 { x: 0, y: 0, z: 0 }),
            s.light_uniform.color_r_milli == MILLI,
            s.light_uniform.color_g_milli == MILLI,
            s.light_uniform.color_b_milli == MILLI,
            s.light_uniform.intensity_milli == 250000000,
            s.global_uniforms == (GlobalUniforms { time_ms: 0, light_matrix_index: 0, use_shadowmaps: shadows_supported }),
            s.fog_enabled == shadows_supported,
            s.geom_model == geom_model,
            s.fog_model == fog_model,
            s.light_model == light_model,
            s.geom_instances@.len() == 1,
            s.geom_instances@[0] == (Instance {
                position: Vec3 { x: 60, y: 0, z: 35 },
                rotation: Quaternion { w: MILLI, x: 0, y: 0, z: 0 },
                scale: Vec3 { x: MILLI, y: MILLI, z: MILLI },
            }),
            s.fog_instances@.len() == 1,
            s.fog_instances@[0] == (Instance {
                position: Vec3 { x: 0, y: 30, z: 0 },
                rotation: Quaternion { w: MILLI, x: 0, y: 0, z: 0 },
                scale: Vec3 { x: 1360000, y: 30000, z: 600000 },
            }),
    {
        let width: u32 = if width == 0 { 1 } else if width > DEPTH_MAX_DIM { DEPTH_MAX_DIM } else { width };
        let height: u32 = if height == 0 { 1 } else if height > DEPTH_MAX_DIM { DEPTH_MAX_DIM } else { height };
        let camera = Camera::new(Vec3 { x: -500000, y: 150000, z: 0 }, 0, 0, 55000, width, height);
        let mut camera_uniform = CameraUniform::new();
        camera_uniform.update(&camera, width, height);
        let camera_controller = CameraController::new(400000, 2000);
        let light_uniform = LightUniform::new(Vec3 { x: 0, y: 0, z: 0 }, MILLI, MILLI, MILLI, 250000000);
        let geometry_depth_texture = Self::create_geometry_depth_texture(width, height);
        let geometry_depth_bind_group = Self::create_geometry_depth_bind_group(&geometry_depth_texture);
        let light_depth_texture = DepthTarget {
            width: SHADOW_MAP_SIZE,
            height: SHADOW_MAP_SIZE,
            layers: SHADOW_MAP_LAYERS,
            compare: Some(CompareFunction::LessEqual),
            filterable: true,
            sampler: create_sampler(Some(CompareFunction::LessEqual), true),
        };
        let mut geom_instances: Vec<Instance> = Vec::new();
        geom_instances.push(Instance {
            position: Vec3 { x: 60, y: 0, z: 35 },
            rotation: Quaternion::identity(),
            scale: Vec3 { x: MILLI, y: MILLI, z: MILLI },
        });
        let mut fog_instances: Vec<Instance> = Vec::new();
        fog_instances.push(Instance {
            position: Vec3 { x: 0, y: 30, z: 0 },
            rotation: Quaternion::identity(),
            scale: Vec3 { x: 1360000, y: 30000, z: 600000 },
        });
        State {
            width,
            height,
            camera,
            camera_uniform,
            camera_controller,
            light_uniform,
            global_uniforms: GlobalUniforms {
                time_ms: 0,
                light_matrix_index: 0,
                use_shadowmaps: shadows_supported,
            },
            geometry_depth_texture,
            geometry_depth_bind_group,
            light_depth_texture,
            geometry_pass: crate::pass::geometry_pass(),
            light_debug_pass: crate::pass::light_debug_pass(),
            light_depth_pass: crate::pass::light_depth_pass(),
            fog_pass: crate::pass::fog_pass(),
            geom_model,
            fog_model,
            light_model,
            geom_instances,
            fog_instances,
            fog_enabled: shadows_supported,
        }
    }

    /// The single-layer viewport depth target for the given extent.
    pub fn create_geometry_depth_texture(width: u32, height: u32) -> (t: DepthTarget)
        requires
            0 < width <= DEPTH_MAX_DIM,
            0 < height <= DEPTH_MAX_DIM,
        ensures
            t.wf(),
            t.width == width && t.height == height && t.layers == 1,
            t.compare is None && t.filterable,
    {
        DepthTarget {
            width,
            height,
            layers: 1,
            compare: None,
            filterable: true,
            sampler: create_sampler(None, true),
        }
    }

    /// A fresh bind group over the given depth target's view: never
    /// stale at the moment it is built.
    pub fn create_geometry_depth_bind_group(t: &DepthTarget) -> (g: GeometryDepthBindGroup)
        ensures
            g.width == t.width,
            g.height == t.height,
    {
        GeometryDepthBindGroup { width: t.width, height: t.height }
    }

    /// Adopts a new viewport extent: the depth target is recreated and
    /// its bind group rebuilt against the new view, while the shadow
    /// cube and its bind group are untouched. A zero or oversized
    /// extent is ignored and the state is unchanged.
    pub fn resize(&mut self, width: u32, height: u32)
        requires
            old(self).wf(),
        ensures
            final(self).wf(),
            (0 < width <= DEPTH_MAX_DIM && 0 < height <= DEPTH_MAX_DIM)
                ==> is_resized_state(*final(self), *old(self), width, height),
            !(0 < width <= DEPTH_MAX_DIM && 0 < height <= DEPTH_MAX_DIM) ==> *final(self) == *old(self),
    {
        if 0 < width && width <= DEPTH_MAX_DIM && 0 < height && height <= DEPTH_MAX_DIM {
            self.width = width;
            self.height = height;
            self.camera.projection.resize(width, height);
            self.geometry_depth_texture = Self::create_geometry_depth_texture(width, height);
            self.geometry_depth_bind_group = Self::create_geometry_depth_bind_group(&self.geometry_depth_texture);
        }
    }

    /// Forwards a translated input event to the camera controller;
    /// nothing else changes.
    pub fn input(&mut self, ev: &InputEvent) -> (handled: bool)
        requires
            old(self).wf(),
            *ev matches InputEvent::MouseDelta { dx, dy } ==>
                -MOUSE_EVENT_LIMIT <= dx <= MOUSE_EVENT_LIMIT
                && -MOUSE_EVENT_LIMIT <= dy <= MOUSE_EVENT_LIMIT,
        ensures
            final(self).wf(),
            handled == !(*ev is Other),
            is_processed_controller(final(self).camera_controller, old(self).camera_controller, *ev),
            *final(self) == (State { camera_controller: final(self).camera_controller, ..*old(self) }),
    {
        self.camera_controller.process_events(ev)
    }

    /// One simulation tick, as the per-frame protocol runs it before
    /// rendering: the camera advances by the controller state and the
    /// supplied movement frame, the one-shot mouse deltas are cleared
    /// while held keys persist, the camera uniform is snapshotted for
    /// the current viewport, and the light follows its periodic
    /// functions of the elapsed time, its six shadow matrices
    /// recomputed for the new position.
    pub fn update(&mut self, dt_ms: u64, time_ms: u64, basis: &CameraBasis)
        requires
            old(self).wf(),
            basis.wf(),
            dt_ms <= DT_LIMIT_MS,
            time_ms <= TIME_LIMIT_MS,
        ensures
            final(self).wf(),
            final(self).camera.pitch_mdeg == spec_clamp(
                old(self).camera.pitch_mdeg - spec_pitch_delta_mdeg(old(self).camera_controller),
                -PITCH_LIMIT_MDEG as int,
                PITCH_LIMIT_MDEG as int,
            ),
            final(self).camera.yaw_mdeg == spec_wrap_mdeg(
                old(self).camera.yaw_mdeg + spec_yaw_delta_mdeg(old(self).camera_controller)),
            is_moved_position(final(self).camera.position, old(self).camera.position,
                dt_ms as int, old(self).camera_controller, *basis),
            final(self).camera.projection == old(self).camera.projection,
            final(self).camera_controller == (CameraController {
                deltax: 0,
                deltay: 0,
                ..old(self).camera_controller
            }),
            final(self).camera_uniform.position == final(self).camera.position,
            final(self).camera_uniform.position_w == MILLI,
            final(self).camera_uniform.near_milli == NEAR_PLANE * MILLI,
            final(self).camera_uniform.far_milli == FAR_PLANE * MILLI,
            final(self).camera_uniform.width == old(self).width,
            final(self).camera_uniform.height == old(self).height,
            is_animated_position(final(self).light_uniform.position, time_ms as int),
            is_animated_color(
                final(self).light_uniform.color_r_milli as int,
                final(self).light_uniform.color_g_milli as int,
                final(self).light_uniform.color_b_milli as int,
                time_ms as int,
            ),
            final(self).light_uniform.intensity_milli == old(self).light_uniform.intensity_milli,
            final(self).global_uniforms == (GlobalUniforms { time_ms, ..old(self).global_uniforms }),
            *final(self) == (State {
                camera: final(self).camera,
                camera_controller: final(self).camera_controller,
                camera_uniform: final(self).camera_uniform,
                light_uniform: final(self).light_uniform,
                global_uniforms: final(self).global_uniforms,
                ..*old(self)
            }),
    {
        self.camera.update(dt_ms, &self.camera_controller, basis);
        self.camera_controller.reset(false);
        self.camera_uniform.update(&self.camera, self.width, self.height);
        self.light_uniform.animate(time_ms);
        self.global_uniforms.time_ms = time_ms;
    }
}

/// `s1` is `s0` after adopting the viewport extent `width` by
/// `height`: the viewport, the projection's aspect pair, the depth
/// target and its bind group carry the new extent, and everything
/// else — the shadow cube included — is untouched.
pub open spec fn is_resized_state(s1: State, s0: State, width: u32, height: u32) -> bool {
    s1 == (State {
        width,
        height,
        camera: Camera {
            projection: crate::camera::PerspectiveProjection {
                width,
                height,
                ..s0.camera.projection
            },
            ..s0.camera
        },
        geometry_depth_texture: crate::texture::DepthTarget {
            width,
            height,
            ..s0.geometry_depth_texture
        },
        geometry_depth_bind_group: GeometryDepthBindGroup { width, height },
        ..s0
    })
}

/// Resizing is a round trip at the renderer level: resizing to any
/// other acceptable extent and back restores the original depth
/// target and its bind group — which, by the renderer invariant,
/// matches the target after every step, so it is never stale.
pub proof fn lemma_resize_state_round_trip(s0: State, s1: State, s2: State, w2: u32, h2: u32)
    requires
        s0.wf(),
        is_resized_state(s1, s0, w2, h2),
        is_resized_state(s2, s1, s0.width, s0.height),
    ensures
        s2 == s0,
        s2.geometry_depth_texture == s0.geometry_depth_texture,
        s2.geometry_depth_bind_group.width == s2.geometry_depth_texture.width,
        s2.geometry_depth_bind_group.height == s2.geometry_depth_texture.height,
{
}

/// The four commands of one shadow face: the uniform write naming the
/// face, the depth-only pass into that face's layer, the instanced
/// geometry draw, and the submission.
pub open spec fn spec_shadow_group(i: int, time_ms: u64, shadows: bool, geom_instances: u32) -> Seq<RenderCmd> {
    seq![
        RenderCmd::UploadGlobals { face_index: i as u32, shadows_enabled: shadows, time_ms },
        RenderCmd::BeginShadowPass { face: i as u32, depth: DepthAttachmentOp::ClearToFar },
        RenderCmd::DrawScene { model: SceneModel::Geometry, instance_count: geom_instances, bind_material: false },
        RenderCmd::SubmitCommands,
    ]
}

/// The shadow groups of faces `0` through `n - 1`, in face order.
pub open spec fn spec_shadow_section(n: int, time_ms: u64, shadows: bool, geom_instances: u32) -> Seq<RenderCmd>
    decreases n,
{
    if n <= 0 {
        Seq::empty()
    } else {
        spec_shadow_section(n - 1, time_ms, shadows, geom_instances)
            + spec_shadow_group(n - 1, time_ms, shadows, geom_instances)
    }
}

/// The commands after the shadow section: acquire the surface image,
/// the geometry pass clearing color and depth, the light-debug
/// overlay loading both, one submission, the fog pass when enabled —
/// loading color and referencing depth read-only — and the present.
pub open spec fn spec_main_section(fog: bool, geom_instances: u32, fog_instances: u32) -> Seq<RenderCmd> {
    seq![
        RenderCmd::AcquireSurface,
        RenderCmd::BeginGeometryPass { color: ColorAttachmentOp::ClearToBlack, depth: DepthAttachmentOp::ClearToFar },
        RenderCmd::DrawScene { model: SceneModel::Geometry, instance_count: geom_instances, bind_material: true },
        RenderCmd::BeginLightDebugPass { color: ColorAttachmentOp::Load, depth: DepthAttachmentOp::Load },
        RenderCmd::DrawScene { model: SceneModel::LightMarker, instance_count: 1, bind_material: false },
        RenderCmd::SubmitCommands,
    ] + (if fog {
        seq![
            RenderCmd::BeginFogPass { color: ColorAttachmentOp::Load, depth: DepthAttachmentOp::ReadOnly },
            RenderCmd::DrawScene { model: SceneModel::FogVolume, instance_count: fog_instances, bind_material: false },
            RenderCmd::SubmitCommands,
        ]
    } else {
        Seq::empty()
    }) + seq![RenderCmd::PresentFrame]
}

/// The whole frame script.
pub open spec fn spec_frame_script(time_ms: u64, shadows: bool, fog: bool, geom_instances: u32, fog_instances: u32) -> Seq<RenderCmd> {
    spec_shadow_section(SHADOW_MAP_LAYERS as int, time_ms, shadows, geom_instances)
        + spec_main_section(fog, geom_instances, fog_instances)
}

/// `s1` and `cmds` are the outcome of one `render` call on `s0`: the
/// state is unchanged except that the per-draw uniform ends on the
/// last face index, and the commands are the frame script of `s0`.
pub open spec fn is_rendered(s1: State, s0: State, cmds: Seq<RenderCmd>) -> bool {
    &&& s1 == (State {
        global_uniforms: GlobalUniforms {
            light_matrix_index: (SHADOW_MAP_LAYERS - 1) as u32,
            ..s0.global_uniforms
        },
        ..s0
    })
    &&& cmds == spec_frame_script(
        s0.global_uniforms.time_ms,
        s0.global_uniforms.use_shadowmaps,
        s0.fog_enabled,
        s0.geom_instances.len() as u32,
        s0.fog_instances.len() as u32,
    )
}

impl State {
    /// Records one frame: the six shadow faces — each preceded by its
    /// uniform write and followed by its own submission — then the
    /// geometry, light-debug and fog passes onto the acquired surface
    /// image, and the present. The scene state is left as it was, so
    /// rendering can be repeated without an intervening update.
    pub fn render(&mut self) -> (cmds: Vec<RenderCmd>)
        requires
            old(self).wf(),
        ensures
            final(self).wf(),
            is_rendered(*final(self), *old(self), cmds@),
    {
        let mut cmds: Vec<RenderCmd> = Vec::new();
        let time_ms: u64 = self.global_uniforms.time_ms;
        let shadows: bool = self.global_uniforms.use_shadowmaps;
        let gc: u32 = self.geom_instances.len() as u32;
        let fc: u32 = self.fog_instances.len() as u32;
        let mut i: u32 = 0;
        while i < SHADOW_MAP_LAYERS
            invariant
                i <= SHADOW_MAP_LAYERS,
                old(self).wf(),
                time_ms == old(self).global_uniforms.time_ms,
                shadows == old(self).global_uniforms.use_shadowmaps,
                gc == old(self).geom_instances.len(),
                fc == old(self).fog_instances.len(),
                cmds@ == spec_shadow_section(i as int, time_ms, shadows, gc),
                *self == (State {
                    global_uniforms: GlobalUniforms {
                        light_matrix_index: self.global_uniforms.light_matrix_index,
                        ..old(self).global_uniforms
                    },
                    ..*old(self)
                }),
                i == 0 ==> self.global_uniforms.light_matrix_index == old(self).global_uniforms.light_matrix_index,
                i > 0 ==> self.global_uniforms.light_matrix_index == i - 1,
            decreases SHADOW_MAP_LAYERS - i,
        {
            self.global_uniforms.light_matrix_index = i;
            cmds.push(RenderCmd::UploadGlobals { face_index: i, shadows_enabled: shadows, time_ms });
            cmds.push(RenderCmd::BeginShadowPass { face: i, depth: DepthAttachmentOp::ClearToFar });
            cmds.push(RenderCmd::DrawScene { model: SceneModel::Geometry, instance_count: gc, bind_material: false });
            cmds.push(RenderCmd::SubmitCommands);
            proof {
                assert(cmds@ =~= spec_shadow_section(i + 1 as int, time_ms, shadows, gc));
            }
            i = i + 1;
        }
        cmds.push(RenderCmd::AcquireSurface);
        cmds.push(RenderCmd::BeginGeometryPass {
            color: ColorAttachmentOp::ClearToBlack,
            depth: DepthAttachmentOp::ClearToFar,
        });
        cmds.push(RenderCmd::DrawScene { model: SceneModel::Geometry, instance_count: gc, bind_material: true });
        cmds.push(RenderCmd::BeginLightDebugPass {
            color: ColorAttachmentOp::Load,
            depth: DepthAttachmentOp::Load,
        });
        cmds.push(RenderCmd::DrawScene { model: SceneModel::LightMarker, instance_count: 1, bind_material: false });
        cmds.push(RenderCmd::SubmitCommands);
        if self.fog_enabled {
            cmds.push(RenderCmd::BeginFogPass {
                color: ColorAttachmentOp::Load,
                depth: DepthAttachmentOp::ReadOnly,
            });
            cmds.push(RenderCmd::DrawScene { model: SceneModel::FogVolume, instance_count: fc, bind_material: false });
            cmds.push(RenderCmd::SubmitCommands);
        }
        cmds.push(RenderCmd::PresentFrame);
        proof {
            assert(cmds@ =~= spec_frame_script(time_ms, shadows, old(self).fog_enabled, gc, fc));
        }
        cmds
    }
}

/// The shadow section of `n` faces holds exactly `4 * n` commands.
pub proof fn lemma_shadow_section_len(n: int, time_ms: u64, shadows: bool, gc: u32)
    requires
        n >= 0,
    ensures
        spec_shadow_section(n, time_ms, shadows, gc).len() == 4 * n,
    decreases n,
{
    if n > 0 {
        lemma_shadow_section_len(n - 1, time_ms, shadows, gc);
    }
}

/// Within the shadow section, face `i` occupies the four commands
/// starting at `4 * i`, its uniform write first.
pub proof fn lemma_shadow_section_index(n: int, i: int, time_ms: u64, shadows: bool, gc: u32)
    requires
        0 <= i < n,
    ensures
        spec_shadow_section(n, time_ms, shadows, gc).len() == 4 * n,
        spec_shadow_section(n, time_ms, shadows, gc)[4 * i]
            == (RenderCmd::UploadGlobals { face_index: i as u32, shadows_enabled: shadows, time_ms }),
        spec_shadow_section(n, time_ms, shadows, gc)[4 * i + 1]
            == (RenderCmd::BeginShadowPass { face: i as u32, depth: DepthAttachmentOp::ClearToFar }),
        spec_shadow_section(n, time_ms, shadows, gc)[4 * i + 2]
            == (RenderCmd::DrawScene { model: SceneModel::Geometry, instance_count: gc, bind_material: false }),
        spec_shadow_section(n, time_ms, shadows, gc)[4 * i + 3] == RenderCmd::SubmitCommands,
    decreases n,
{
    lemma_shadow_section_len(n, time_ms, shadows, gc);
    lemma_shadow_section_len(n - 1, time_ms, shadows, gc);
    if i < n - 1 {
        lemma_shadow_section_index(n - 1, i, time_ms, shadows, gc);
    }
}

/// Every command of the shadow section belongs to a shadow group: a
/// uniform write, a shadow pass, a draw or a submission.
pub proof fn lemma_shadow_section_kinds(n: int, time_ms: u64, shadows: bool, gc: u32)
    requires
        n >= 0,
    ensures
        forall|k: int| 0 <= k < spec_shadow_section(n, time_ms, shadows, gc).len()
            ==> {
                let c = #[trigger] spec_shadow_section(n, time_ms, shadows, gc)[k];
                c is UploadGlobals || c is BeginShadowPass || c is DrawScene || c is SubmitCommands
            },
    decreases n,
{
    if n > 0 {
        lemma_shadow_section_kinds(n - 1, time_ms, shadows, gc);
    }
}

/// The ordering contract of one frame script.
///
/// Every uniform write naming a face stands immediately before that
/// face's shadow pass, and each face is submitted before the next
/// begins; every shadow-pass submission precedes the surface
/// acquisition, so the cube is complete — on the in-order queue —
/// before the geometry pass samples it; the geometry pass clears
/// color and depth while the light-debug and fog passes load them;
/// the fog pass begins only after the geometry work is submitted and
/// references depth read-only; and exactly one present ends the
/// frame.
pub proof fn lemma_frame_script_order(time_ms: u64, shadows: bool, fog: bool, gc: u32, fc: u32)
    ensures
        ({
            let script = spec_frame_script(time_ms, shadows, fog, gc, fc);
            let n = script.len();
            &&& n == (if fog { 34int } else { 31int })
            &&& forall|i: int| 0 <= i < 6 ==> #[trigger] script[4 * i]
                == (RenderCmd::UploadGlobals { face_index: i as u32, shadows_enabled: shadows, time_ms })
            &&& forall|i: int| 0 <= i < 6 ==> #[trigger] script[4 * i + 1]
                == (RenderCmd::BeginShadowPass { face: i as u32, depth: DepthAttachmentOp::ClearToFar })
            &&& forall|i: int| 0 <= i < 6 ==> #[trigger] script[4 * i + 3] == RenderCmd::SubmitCommands
            &&& forall|k: int| 0 <= k < n && (#[trigger] script[k]) is BeginShadowPass ==> k < 24
            &&& script[24] == RenderCmd::AcquireSurface
            &&& forall|k: int| 0 <= k < n && (#[trigger] script[k]) is AcquireSurface ==> k == 24
            &&& script[25] == (RenderCmd::BeginGeometryPass {
                color: ColorAttachmentOp::ClearToBlack, depth: DepthAttachmentOp::ClearToFar })
            &&& script[26] == (RenderCmd::DrawScene {
                model: SceneModel::Geometry, instance_count: gc, bind_material: true })
            &&& script[27] == (RenderCmd::BeginLightDebugPass {
                color: ColorAttachmentOp::Load, depth: DepthAttachmentOp::Load })
            &&& script[28] == (RenderCmd::DrawScene {
                model: SceneModel::LightMarker, instance_count: 1, bind_material: false })
            &&& script[29] == RenderCmd::SubmitCommands
            &&& fog ==> script[30] == (RenderCmd::BeginFogPass {
                color: ColorAttachmentOp::Load, depth: DepthAttachmentOp::ReadOnly })
            &&& fog ==> script[31] == (RenderCmd::DrawScene {
                model: SceneModel::FogVolume, instance_count: fc, bind_material: false })
            &&& fog ==> script[32] == RenderCmd::SubmitCommands
            &&& !fog ==> script[30] == RenderCmd::PresentFrame
            &&& script[n - 1] == RenderCmd::PresentFrame
            &&& forall|k: int| 0 <= k < n - 1 ==> !((#[trigger] script[k]) is PresentFrame)
        }),
{
    let script = spec_frame_script(time_ms, shadows, fog, gc, fc);
    let n = script.len();
    lemma_shadow_section_len(6, time_ms, shadows, gc);
    lemma_shadow_section_kinds(6, time_ms, shadows, gc);
    assert forall|i: int| 0 <= i < 6 implies #[trigger] script[4 * i]
        == (RenderCmd::UploadGlobals { face_index: i as u32, shadows_enabled: shadows, time_ms }) by {
        lemma_shadow_section_index(6, i, time_ms, shadows, gc);
    }
    assert forall|i: int| 0 <= i < 6 implies #[trigger] script[4 * i + 1]
        == (RenderCmd::BeginShadowPass { face: i as u32, depth: DepthAttachmentOp::ClearToFar }) by {
        lemma_shadow_section_index(6, i, time_ms, shadows, gc);
    }
    assert forall|i: int| 0 <= i < 6 implies #[trigger] script[4 * i + 3] == RenderCmd::SubmitCommands by {
        lemma_shadow_section_index(6, i, time_ms, shadows, gc);
    }
    assert forall|k: int| 0 <= k < n && (#[trigger] script[k]) is BeginShadowPass implies k < 24 by {
        if k >= 24 {
            assert(script[k] == spec_main_section(fog, gc, fc)[k - 24]);
        }
    }
    assert forall|k: int| 0 <= k < n && (#[trigger] script[k]) is AcquireSurface implies k == 24 by {
        if k >= 24 {
            assert(script[k] == spec_main_section(fog, gc, fc)[k - 24]);
        }
    }
    assert forall|k: int| 0 <= k < n - 1 implies !((#[trigger] script[k]) is PresentFrame) by {
        if k >= 24 {
            assert(script[k] == spec_main_section(fog, gc, fc)[k - 24]);
        }
    }
}

/// Rendering is repeatable: a second `render` from the state the
/// first one left behind — with no update in between — emits the
/// identical command script, and each of the two scripts presents
/// exactly one surface image at its end.
pub proof fn lemma_render_twice(s0: State, s1: State, s2: State, r1: Seq<RenderCmd>, r2: Seq<RenderCmd>)
    requires
        is_rendered(s1, s0, r1),
        is_rendered(s2, s1, r2),
    ensures
        r2 == r1,
        s2 == s1,
        r1[r1.len() - 1] == RenderCmd::PresentFrame,
        forall|k: int| 0 <= k < r1.len() - 1 ==> !((#[trigger] r1[k]) is PresentFrame),
{
    lemma_frame_script_order(
        s0.global_uniforms.time_ms,
        s0.global_uniforms.use_shadowmaps,
        s0.fog_enabled,
        s0.geom_instances.len() as u32,
        s0.fog_instances.len() as u32,
    );
}

} // verus!
