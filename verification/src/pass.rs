//! Render pipeline configuration: the fixed-function state bound to
//! each named shader program, and the bind group layouts the pipelines
//! share.
//!
//! The rules the scene relies on are stated as contracts: a shadow
//! pass compares less-or-equal and applies a depth bias so comparison
//! sampling at exactly-equal depth does not produce acne, every other
//! pass compares strictly less with no bias; transparency selects
//! straight-alpha blending, opacity selects replacement.

use vstd::prelude::*;

verus! {

use crate::texture::CompareFunction;

/// The shader programs of the four scene passes, selected by name.
#[derive(Clone, Copy, Debug, PartialEq, Eq, Structural)]
pub enum ShaderProgram {
    Depth,
    Pbr,
    LightDebug,
    Fog,
}

impl ShaderProgram {
    /// The source file the program is compiled from.
    pub fn file_name(&self) -> (r: &'static str)
        ensures
            r@ == self.spec_file_name(),
    {
        match self {
            ShaderProgram::Depth => "depth.wgsl",
            ShaderProgram::Pbr => "pbr.wgsl",
            ShaderProgram::LightDebug => "light_debug.wgsl",
            ShaderProgram::Fog => "fog.wgsl",
        }
    }

    /// The source file name as a character sequence.
    pub open spec fn spec_file_name(self) -> Seq<char> {
        match self {
            ShaderProgram::Depth => "depth.wgsl"@,
            ShaderProgram::Pbr => "pbr.wgsl"@,
            ShaderProgram::LightDebug => "light_debug.wgsl"@,
            ShaderProgram::Fog => "fog.wgsl"@,
        }
    }
}

/// How a color target combines fragment output with its contents.
#[derive(Clone, Copy, Debug, PartialEq, Eq, Structural)]
pub enum BlendMode {
    Replace,
    AlphaOver,
}

/// Which triangle faces are culled.
#[derive(Clone, Copy, Debug, PartialEq, Eq, Structural)]
pub enum Face {
    Front,
    Back,
}

/// Depth bias applied while rasterizing, the slope factor in milli.
#[derive(Clone, Copy, Debug, PartialEq, Eq, Structural)]
pub struct DepthBiasState {
    pub constant: i32,
    pub slope_scale_milli: i64,
    pub clamp_milli: i64,
}

/// The bias of shadow-casting passes: a constant of 2 with a slope
/// scale of 2, tuned against shadow acne, adjustable without touching
/// the pipeline rules.
pub open spec fn spec_shadow_bias() -> DepthBiasState {
    DepthBiasState { constant: 2, slope_scale_milli: 2000, clamp_milli: 0 }
}

/// No bias.
pub open spec fn spec_zero_bias() -> DepthBiasState {
    DepthBiasState { constant: 0, slope_scale_milli: 0, clamp_milli: 0 }
}

/// A compiled pipeline's fixed-function configuration.
#[derive(Clone, Copy, Debug, PartialEq, Eq, Structural)]
pub struct PipelineDesc {
    pub shader: ShaderProgram,
    pub has_color_target: bool,
    pub has_depth: bool,
    pub instanced: bool,
    pub blend: BlendMode,
    pub cull: Option<Face>,
    pub write_depth: bool,
    pub depth_compare: CompareFunction,
    pub bias: DepthBiasState,
}

/// A render pass object: a shader program bound to its fixed-function
/// configuration. Construction is synchronous; a malformed program
/// aborts startup in the platform layer, there is no recompilation
/// recovery path.
#[derive(Clone, Copy, Debug, PartialEq, Eq, Structural)]
pub struct RenderPass {
    pub pipeline: PipelineDesc,
}

/// The configuration `RenderPass::new` derives from its flags.
pub open spec fn is_pipeline_config(
    p: PipelineDesc,
    shader: ShaderProgram,
    has_color_target: bool,
    has_depth: bool,
    instanced: bool,
    is_shadow: bool,
    has_transparency: bool,
    write_depth: bool,
    cull: Option<Face>,
) -> bool {
    &&& p.shader == shader
    &&& p.has_color_target == has_color_target
    &&& p.has_depth == has_depth
    &&& p.instanced == instanced
    &&& p.blend == (if has_transparency { BlendMode::AlphaOver } else { BlendMode::Replace })
    &&& p.cull == cull
    &&& p.write_depth == write_depth
    &&& p.depth_compare == (if is_shadow { CompareFunction::LessEqual } else { CompareFunction::Less })
    &&& p.bias == (if is_shadow { spec_shadow_bias() } else { spec_zero_bias() })
}

impl RenderPass {
    /// Binds a shader program to the fixed-function state the flags
    /// select: shadow passes get the less-or-equal compare and the
    /// depth bias, transparency gets straight-alpha blending.
    pub fn new(
        shader: ShaderProgram,
        has_color_target: bool,
        has_depth: bool,
        instanced: bool,
        is_shadow: bool,
        has_transparency: bool,
        write_depth: bool,
        cull: Option<Face>,
    ) -> (r: RenderPass)
        ensures
            is_pipeline_config(r.pipeline, shader, has_color_target, has_depth, instanced,
                is_shadow, has_transparency, write_depth, cull),
    {
        RenderPass {
            pipeline: PipelineDesc {
                shader,
                has_color_target,
                has_depth,
                instanced,
                blend: if has_transparency { BlendMode::AlphaOver } else { BlendMode::Replace },
                cull,
                write_depth,
                depth_compare: if is_shadow { CompareFunction::LessEqual } else { CompareFunction::Less },
                bias: if is_shadow {
                    DepthBiasState { constant: 2, slope_scale_milli: 2000, clamp_milli: 0 }
                } else {
                    DepthBiasState { constant: 0, slope_scale_milli: 0, clamp_milli: 0 }
                },
            },
        }
    }
}

/// The shadow-depth pipeline: no color target, depth written with the
/// less-or-equal compare and the shadow bias, back faces culled.
pub fn light_depth_pass() -> (r: RenderPass)
    ensures
        is_pipeline_config(r.pipeline, ShaderProgram::Depth, false, true, true,
            true, false, true, Some(Face::Back)),
{
    RenderPass::new(ShaderProgram::Depth, false, true, true, true, false, true, Some(Face::Back))
}

/// The geometry pipeline: color and depth targets, alpha blending for
/// the material set, strict depth compare, depth writes on, back faces
/// culled.
pub fn geometry_pass() -> (r: RenderPass)
    ensures
        is_pipeline_config(r.pipeline, ShaderProgram::Pbr, true, true, true,
            false, true, true, Some(Face::Back)),
{
    RenderPass::new(ShaderProgram::Pbr, true, true, true, false, true, true, Some(Face::Back))
}

/// The light-debug pipeline: color and depth targets, opaque, depth
/// writes on, not instanced.
pub fn light_debug_pass() -> (r: RenderPass)
    ensures
        is_pipeline_config(r.pipeline, ShaderProgram::LightDebug, true, true, false,
            false, false, true, Some(Face::Back)),
{
    RenderPass::new(ShaderProgram::LightDebug, true, true, false, false, false, true, Some(Face::Back))
}

/// The fog pipeline: alpha blended over the scene and never writing
/// depth, so fog cannot occlude opaque geometry drawn after it.
pub fn fog_pass() -> (r: RenderPass)
    ensures
        is_pipeline_config(r.pipeline, ShaderProgram::Fog, true, true, true,
            false, true, false, Some(Face::Back)),
        !r.pipeline.write_depth,
{
    RenderPass::new(ShaderProgram::Fog, true, true, true, false, true, false, Some(Face::Back))
}

/// GPU byte size of the camera uniform: three 4x4 matrices, the
/// homogeneous position and the planes quad.
pub const CAMERA_UNIFORM_BYTES: u64 = 224;

/// GPU byte size of the light uniform: position and padding, color,
/// and six 4x4 matrices.
pub const LIGHT_UNIFORM_BYTES: u64 = 416;

/// GPU byte size of the per-draw global uniform.
pub const GLOBAL_UNIFORM_BYTES: u64 = 16;

/// GPU byte size of the material factor uniform.
pub const MATERIAL_UNIFORM_BYTES: u64 = 16;

/// What a bind group slot holds.
#[derive(Clone, Copy, Debug, PartialEq, Eq, Structural)]
pub enum BindingKind {
    UniformBuffer { min_size: u64 },
    DepthTexture { d2_array: bool },
    ComparisonSampler,
    FilteringSampler,
    FloatTexture,
}

/// One slot of a bind group layout: its binding index, the shader
/// stages that see it, and what it holds.
#[derive(Clone, Copy, Debug, PartialEq, Eq, Structural)]
pub struct BindGroupLayoutEntry {
    pub binding: u32,
    pub visible_vertex: bool,
    pub visible_fragment: bool,
    pub kind: BindingKind,
}

/// The bindings of a layout are consecutive from zero.
pub open spec fn spec_bindings_consecutive(entries: Seq<BindGroupLayoutEntry>) -> bool {
    forall|i: int| 0 <= i < entries.len() ==> #[trigger] entries[i].binding == i
}

/// The global bind group layout: camera, light and per-draw uniforms,
/// visible to both stages.
pub fn global_bind_group_layout() -> (r: Vec<BindGroupLayoutEntry>)
    ensures
        r@.len() == 3,
        r@[0] == (BindGroupLayoutEntry { binding: 0, visible_vertex: true, visible_fragment: true,
            kind: BindingKind::UniformBuffer { min_size: CAMERA_UNIFORM_BYTES } }),
        r@[1] == (BindGroupLayoutEntry { binding: 1, visible_vertex: true, visible_fragment: true,
            kind: BindingKind::UniformBuffer { min_size: LIGHT_UNIFORM_BYTES } }),
        r@[2] == (BindGroupLayoutEntry { binding: 2, visible_vertex: true, visible_fragment: true,
            kind: BindingKind::UniformBuffer { min_size: GLOBAL_UNIFORM_BYTES } }),
        spec_bindings_consecutive(r@),
{
    let mut entries: Vec<BindGroupLayoutEntry> = Vec::new();
    entries.push(BindGroupLayoutEntry { binding: 0, visible_vertex: true, visible_fragment: true,
        kind: BindingKind::UniformBuffer { min_size: CAMERA_UNIFORM_BYTES } });
    entries.push(BindGroupLayoutEntry { binding: 1, visible_vertex: true, visible_fragment: true,
        kind: BindingKind::UniformBuffer { min_size: LIGHT_UNIFORM_BYTES } });
    entries.push(BindGroupLayoutEntry { binding: 2, visible_vertex: true, visible_fragment: true,
        kind: BindingKind::UniformBuffer { min_size: GLOBAL_UNIFORM_BYTES } });
    entries
}

/// The shadow-cube sampling layout: the depth array texture and its
/// comparison sampler, fragment-visible.
pub fn light_depth_bind_group_layout() -> (r: Vec<BindGroupLayoutEntry>)
    ensures
        r@.len() == 2,
        r@[0] == (BindGroupLayoutEntry { binding: 0, visible_vertex: false, visible_fragment: true,
            kind: BindingKind::DepthTexture { d2_array: true } }),
        r@[1] == (BindGroupLayoutEntry { binding: 1, visible_vertex: false, visible_fragment: true,
            kind: BindingKind::ComparisonSampler }),
        spec_bindings_consecutive(r@),
{
    let mut entries: Vec<BindGroupLayoutEntry> = Vec::new();
    entries.push(BindGroupLayoutEntry { binding: 0, visible_vertex: false, visible_fragment: true,
        kind: BindingKind::DepthTexture { d2_array: true } });
    entries.push(BindGroupLayoutEntry { binding: 1, visible_vertex: false, visible_fragment: true,
        kind: BindingKind::ComparisonSampler });
    entries
}

/// The on-screen depth sampling layout used by the fog pass: the depth
/// texture and a filtering sampler, fragment-visible.
pub fn geometry_depth_bind_group_layout() -> (r: Vec<BindGroupLayoutEntry>)
    ensures
        r@.len() == 2,
        r@[0] == (BindGroupLayoutEntry { binding: 0, visible_vertex: false, visible_fragment: true,
            kind: BindingKind::DepthTexture { d2_array: false } }),
        r@[1] == (BindGroupLayoutEntry { binding: 1, visible_vertex: false, visible_fragment: true,
            kind: BindingKind::FilteringSampler }),
        spec_bindings_consecutive(r@),
{
    let mut entries: Vec<BindGroupLayoutEntry> = Vec::new();
    entries.push(BindGroupLayoutEntry { binding: 0, visible_vertex: false, visible_fragment: true,
        kind: BindingKind::DepthTexture { d2_array: false } });
    entries.push(BindGroupLayoutEntry { binding: 1, visible_vertex: false, visible_fragment: true,
        kind: BindingKind::FilteringSampler });
    entries
}

/// The per-material texture layout: three texture-sampler pairs —
/// albedo, normal, metallic-roughness — and the factor uniform, all
/// fragment-visible.
pub fn texture_bind_group_layout() -> (r: Vec<BindGroupLayoutEntry>)
    ensures
        r@.len() == 7,
        r@[0] == (BindGroupLayoutEntry { binding: 0, visible_vertex: false, visible_fragment: true,
            kind: BindingKind::FloatTexture }),
        r@[1] == (BindGroupLayoutEntry { binding: 1, visible_vertex: false, visible_fragment: true,
            kind: BindingKind::FilteringSampler }),
        r@[2] == (BindGroupLayoutEntry { binding: 2, visible_vertex: false, visible_fragment: true,
            kind: BindingKind::FloatTexture }),
        r@[3] == (BindGroupLayoutEntry { binding: 3, visible_vertex: false, visible_fragment: true,
            kind: BindingKind::FilteringSampler }),
        r@[4] == (BindGroupLayoutEntry { binding: 4, visible_vertex: false, visible_fragment: true,
            kind: BindingKind::FloatTexture }),
        r@[5] == (BindGroupLayoutEntry { binding: 5, visible_vertex: false, visible_fragment: true,
            kind: BindingKind::FilteringSampler }),
        r@[6] == (BindGroupLayoutEntry { binding: 6, visible_vertex: false, visible_fragment: true,
            kind: BindingKind::UniformBuffer { min_size: MATERIAL_UNIFORM_BYTES } }),
        spec_bindings_consecutive(r@),
{
    let mut entries: Vec<BindGroupLayoutEntry> = Vec::new();
    entries.push(BindGroupLayoutEntry { binding: 0, visible_vertex: false, visible_fragment: true,
        kind: BindingKind::FloatTexture });
    entries.push(BindGroupLayoutEntry { binding: 1, visible_vertex: false, visible_fragment: true,
        kind: BindingKind::FilteringSampler });
    entries.push(BindGroupLayoutEntry { binding: 2, visible_vertex: false, visible_fragment: true,
        kind: BindingKind::FloatTexture });
    entries.push(BindGroupLayoutEntry { binding: 3, visible_vertex: false, visible_fragment: true,
        kind: BindingKind::FilteringSampler });
    entries.push(BindGroupLayoutEntry { binding: 4, visible_vertex: false, visible_fragment: true,
        kind: BindingKind::FloatTexture });
    entries.push(BindGroupLayoutEntry { binding: 5, visible_vertex: false, visible_fragment: true,
        kind: BindingKind::FilteringSampler });
    entries.push(BindGroupLayoutEntry { binding: 6, visible_vertex: false, visible_fragment: true,
        kind: BindingKind::UniformBuffer { min_size: MATERIAL_UNIFORM_BYTES } });
    entries
}

} // verus!
