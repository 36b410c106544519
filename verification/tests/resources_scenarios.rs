//! Scenario tests for asset lookup, pixel widening, the pipeline
//! tables and the instance matrix.

use cubeshadow::instance::{Instance, Quaternion};
use cubeshadow::math::Vec3;
use cubeshadow::model::{model_vertex_layout, draw_model_instanced, BindGroupRef, DrawCmd, Material, Mesh, Model};
use cubeshadow::pass::{fog_pass, geometry_pass, light_debug_pass, light_depth_pass, BlendMode, ShaderProgram};
use cubeshadow::resources::{
    gltf_image_format_stride, gltf_image_format_to_wgpu, gltf_pixels_to_wgpu, load_string,
    try_load_string, AssetTable, PixelFormat, TextureFormat,
};
use cubeshadow::texture::CompareFunction;

#[test]
fn asset_table_round_trip() {
    let mut assets = AssetTable::new();
    assert!(assets.insert("shaders/pbr.wgsl".to_string(), "fn fs_main() {}".to_string()));
    assert!(assets.insert("shaders/fog.wgsl".to_string(), "fog".to_string()));
    // A duplicate name is refused.
    assert!(!assets.insert("shaders/pbr.wgsl".to_string(), "other".to_string()));
    let loaded = load_string(&assets, "shaders/pbr.wgsl");
    assert_eq!(loaded, "fn fs_main() {}");
    assert_eq!(try_load_string(&assets, "shaders/fog.wgsl").unwrap(), "fog");
    assert!(try_load_string(&assets, "missing.wgsl").is_none());
}

#[test]
fn rgb8_pixels_gain_alpha() {
    let out = gltf_pixels_to_wgpu(vec![1, 2, 3, 4, 5, 6], PixelFormat::Rgb8);
    assert_eq!(out, vec![1, 2, 3, 255, 4, 5, 6, 255]);
    // A trailing partial pixel is dropped.
    let ragged = gltf_pixels_to_wgpu(vec![1, 2, 3, 4], PixelFormat::Rgb8);
    assert_eq!(ragged, vec![1, 2, 3, 255]);
}

#[test]
fn rgb16_pixels_gain_two_alpha_bytes() {
    let out = gltf_pixels_to_wgpu(vec![1, 2, 3, 4, 5, 6], PixelFormat::Rgb16);
    assert_eq!(out, vec![1, 2, 3, 4, 5, 6, 255, 255]);
}

#[test]
fn four_channel_pixels_pass_through() {
    let out = gltf_pixels_to_wgpu(vec![9, 8, 7, 6], PixelFormat::Rgba8);
    assert_eq!(out, vec![9, 8, 7, 6]);
    let empty = gltf_pixels_to_wgpu(Vec::new(), PixelFormat::Rgb8);
    assert_eq!(empty, Vec::<u8>::new());
}

#[test]
fn format_and_stride_tables() {
    assert_eq!(gltf_image_format_stride(PixelFormat::R8), 1);
    assert_eq!(gltf_image_format_stride(PixelFormat::Rgb8), 4);
    assert_eq!(gltf_image_format_stride(PixelFormat::Rgb16), 8);
    assert_eq!(gltf_image_format_stride(PixelFormat::Rgba32Float), 16);
    assert_eq!(
        gltf_image_format_to_wgpu(PixelFormat::Rgb8, true),
        Some(TextureFormat::Rgba8UnormSrgb)
    );
    assert_eq!(
        gltf_image_format_to_wgpu(PixelFormat::Rgb8, false),
        Some(TextureFormat::Rgba8Unorm)
    );
    assert_eq!(gltf_image_format_to_wgpu(PixelFormat::R16, true), None);
}

#[test]
fn vertex_layout_offsets() {
    let attrs = model_vertex_layout();
    let offsets: Vec<u64> = attrs.iter().map(|a| a.offset).collect();
    assert_eq!(offsets, vec![0, 12, 20, 32, 44]);
    let locations: Vec<u32> = attrs.iter().map(|a| a.shader_location).collect();
    assert_eq!(locations, vec![0, 1, 2, 3, 4]);
}

#[test]
fn pipeline_rules() {
    let shadow = light_depth_pass().pipeline;
    assert_eq!(shadow.shader, ShaderProgram::Depth);
    assert!(!shadow.has_color_target);
    assert_eq!(shadow.depth_compare, CompareFunction::LessEqual);
    assert_eq!(shadow.bias.constant, 2);
    assert_eq!(shadow.bias.slope_scale_milli, 2000);
    let geom = geometry_pass().pipeline;
    assert_eq!(geom.depth_compare, CompareFunction::Less);
    assert!(geom.write_depth);
    assert_eq!(geom.blend, BlendMode::AlphaOver);
    let debug = light_debug_pass().pipeline;
    assert_eq!(debug.blend, BlendMode::Replace);
    assert_eq!(debug.bias.constant, 0);
    let fog = fog_pass().pipeline;
    assert!(!fog.write_depth);
    assert_eq!(fog.blend, BlendMode::AlphaOver);
    assert_eq!(fog.shader.file_name(), "fog.wgsl");
    assert_eq!(ShaderProgram::Pbr.file_name(), "pbr.wgsl");
}

#[test]
fn model_draw_swaps_material_per_mesh() {
    let model = Model {
        meshes: vec![
            Mesh { name: "a".to_string(), num_elements: 12, material: 1 },
            Mesh { name: "b".to_string(), num_elements: 30, material: 0 },
        ],
        materials: vec![
            Material::new("m0".to_string(), 0, 1000),
            Material::new("m1".to_string(), 1000, 0),
        ],
    };
    let cmds = draw_model_instanced(&model, 1, 2, true);
    let expect = vec![
        DrawCmd::SetVertexBuffer { mesh: 0 },
        DrawCmd::SetIndexBuffer { mesh: 0 },
        DrawCmd::SetBindGroup { slot: 0, group: BindGroupRef::Shared { index: 0 } },
        DrawCmd::SetBindGroup { slot: 1, group: BindGroupRef::Shared { index: 1 } },
        DrawCmd::SetBindGroup { slot: 2, group: BindGroupRef::MeshMaterial { index: 1 } },
        DrawCmd::DrawIndexed { index_count: 12, instance_count: 1 },
        DrawCmd::SetVertexBuffer { mesh: 1 },
        DrawCmd::SetIndexBuffer { mesh: 1 },
        DrawCmd::SetBindGroup { slot: 0, group: BindGroupRef::Shared { index: 0 } },
        DrawCmd::SetBindGroup { slot: 1, group: BindGroupRef::Shared { index: 1 } },
        DrawCmd::SetBindGroup { slot: 2, group: BindGroupRef::MeshMaterial { index: 0 } },
        DrawCmd::DrawIndexed { index_count: 30, instance_count: 1 },
    ];
    assert_eq!(cmds, expect);
}

#[test]
fn shadow_draw_skips_texture_binds() {
    let model = Model {
        meshes: vec![Mesh { name: "a".to_string(), num_elements: 3, material: 0 }],
        materials: vec![Material::new("m".to_string(), 0, 0)],
    };
    let cmds = draw_model_instanced(&model, 5, 1, false);
    assert_eq!(
        cmds,
        vec![
            DrawCmd::SetVertexBuffer { mesh: 0 },
            DrawCmd::SetIndexBuffer { mesh: 0 },
            DrawCmd::SetBindGroup { slot: 0, group: BindGroupRef::Shared { index: 0 } },
            DrawCmd::DrawIndexed { index_count: 3, instance_count: 5 },
        ]
    );
}

#[test]
fn identity_instance_is_pure_translation() {
    let inst = Instance {
        position: Vec3 { x: 60, y: 0, z: 35 },
        rotation: Quaternion::identity(),
        scale: Vec3 { x: 1000, y: 1000, z: 1000 },
    };
    let m = inst.to_raw();
    assert_eq!(m.den, 1000000000);
    assert_eq!((m.m00, m.m11, m.m22, m.m33), (m.den, m.den, m.den, m.den));
    assert_eq!((m.m01, m.m02, m.m10, m.m12, m.m20, m.m21), (0, 0, 0, 0, 0, 0));
    assert_eq!(m.m03, 60 * m.den);
    assert_eq!(m.m13, 0);
    assert_eq!(m.m23, 35 * m.den);
}

#[test]
fn scaled_instance_keeps_axis_scales() {
    let inst = Instance {
        position: Vec3 { x: 0, y: 30, z: 0 },
        rotation: Quaternion::identity(),
        scale: Vec3 { x: 1360000, y: 30000, z: 600000 },
    };
    let m = inst.to_raw();
    // Columns carry the per-axis scale factors: 1360, 30 and 600
    // whole units at the matrix's scale.
    assert_eq!(m.m00, 1000000 * 1360000);
    assert_eq!(m.m11, 1000000 * 30000);
    assert_eq!(m.m22, 1000000 * 600000);
    assert_eq!(m.m13, 30 * m.den);
}
