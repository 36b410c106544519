//! Models: ordered meshes referencing materials by index, the vertex
//! layout their buffers use, and the ordered draw commands a render
//! pass records for them.
//!
//! A model is loaded once at startup and immutable afterwards; every
//! mesh's material index stays inside the model's material list, and
//! the draw expansion below only ever emits material references that
//! honor that bound.

use vstd::prelude::*;

verus! {

/// One mesh: its element count and the material it references. The
/// vertex and index buffers live with the platform layer under the
/// same mesh index.
#[derive(Clone, Debug)]
pub struct Mesh {
    pub name: String,
    pub num_elements: u32,
    pub material: usize,
}

/// One material: its scalar factors in milli. The texture triplet and
/// the GPU binding handle live with the platform layer under the same
/// material index.
#[derive(Clone, Debug)]
pub struct Material {
    pub name: String,
    pub metallic_milli: i64,
    pub roughness_milli: i64,
}

impl Material {
    /// A material with the given factors.
    pub fn new(name: String, metallic_milli: i64, roughness_milli: i64) -> (m: Material)
        ensures
            m.name == name,
            m.metallic_milli == metallic_milli,
            m.roughness_milli == roughness_milli,
    {
        Material { name, metallic_milli, roughness_milli }
    }
}

/// An ordered list of meshes and the materials they reference.
#[derive(Clone, Debug)]
pub struct Model {
    pub meshes: Vec<Mesh>,
    pub materials: Vec<Material>,
}

impl Model {
    /// Model invariant: every mesh references an existing material.
    pub open spec fn wf(self) -> bool {
        forall|i: int| 0 <= i < self.meshes.len()
            ==> (#[trigger] self.meshes[i]).material < self.materials.len()
    }
}

/// The component formats a model vertex uses.
#[derive(Clone, Copy, Debug, PartialEq, Eq, Structural)]
pub enum VertexFormat {
    Float32x2,
    Float32x3,
}

/// One attribute of the vertex layout.
#[derive(Clone, Copy, Debug, PartialEq, Eq, Structural)]
pub struct VertexAttribute {
    pub offset: u64,
    pub shader_location: u32,
    pub format: VertexFormat,
}

/// Byte stride of one model vertex: position, texture coordinates,
/// normal, tangent and bitangent, all 32-bit floats on the GPU.
pub const MODEL_VERTEX_BYTES: u64 = 56;

/// The vertex buffer layout of a model vertex: position at offset 0,
/// texture coordinates at 12, normal at 20, tangent at 32 and
/// bitangent at 44, in shader locations 0 through 4.
pub fn model_vertex_layout() -> (r: Vec<VertexAttribute>)
    ensures
        r@.len() == 5,
        r@[0] == (VertexAttribute { offset: 0, shader_location: 0, format: VertexFormat::Float32x3 }),
        r@[1] == (VertexAttribute { offset: 12, shader_location: 1, format: VertexFormat::Float32x2 }),
        r@[2] == (VertexAttribute { offset: 20, shader_location: 2, format: VertexFormat::Float32x3 }),
        r@[3] == (VertexAttribute { offset: 32, shader_location: 3, format: VertexFormat::Float32x3 }),
        r@[4] == (VertexAttribute { offset: 44, shader_location: 4, format: VertexFormat::Float32x3 }),
{
    let mut attrs: Vec<VertexAttribute> = Vec::new();
    attrs.push(VertexAttribute { offset: 0, shader_location: 0, format: VertexFormat::Float32x3 });
    attrs.push(VertexAttribute { offset: 12, shader_location: 1, format: VertexFormat::Float32x2 });
    attrs.push(VertexAttribute { offset: 20, shader_location: 2, format: VertexFormat::Float32x3 });
    attrs.push(VertexAttribute { offset: 32, shader_location: 3, format: VertexFormat::Float32x3 });
    attrs.push(VertexAttribute { offset: 44, shader_location: 4, format: VertexFormat::Float32x3 });
    attrs
}

/// A bind group referenced while drawing: one of the shared groups
/// bound for the whole pass, or the texture group of a material.
#[derive(Clone, Copy, Debug, PartialEq, Eq, Structural)]
pub enum BindGroupRef {
    Shared { index: usize },
    MeshMaterial { index: usize },
}

/// One command a render pass records while drawing a model.
#[derive(Clone, Copy, Debug, PartialEq, Eq, Structural)]
pub enum DrawCmd {
    SetVertexBuffer { mesh: usize },
    SetIndexBuffer { mesh: usize },
    SetBindGroup { slot: u32, group: BindGroupRef },
    DrawIndexed { index_count: u32, instance_count: u32 },
}

/// The commands binding the shared groups 0 through `n - 1`, each at
/// the slot matching its index.
pub open spec fn spec_shared_binds(n: int) -> Seq<DrawCmd>
    decreases n,
{
    if n <= 0 {
        Seq::empty()
    } else {
        spec_shared_binds(n - 1).push(DrawCmd::SetBindGroup {
            slot: (n - 1) as u32,
            group: BindGroupRef::Shared { index: (n - 1) as usize },
        })
    }
}

/// The commands drawing one mesh: its buffers, the shared bind
/// groups, the mesh's material group after them if texture binds are
/// requested, and the indexed draw over all instances.
pub open spec fn spec_mesh_draw(mesh_index: int, mesh: Mesh, shared_count: int, add_texture_binds: bool, instance_count: u32) -> Seq<DrawCmd> {
    seq![
        DrawCmd::SetVertexBuffer { mesh: mesh_index as usize },
        DrawCmd::SetIndexBuffer { mesh: mesh_index as usize },
    ] + spec_shared_binds(shared_count)
        + (if add_texture_binds {
            seq![DrawCmd::SetBindGroup {
                slot: shared_count as u32,
                group: BindGroupRef::MeshMaterial { index: mesh.material },
            }]
        } else {
            Seq::empty()
        })
        + seq![DrawCmd::DrawIndexed { index_count: mesh.num_elements, instance_count }]
}

/// The commands drawing a whole model: each mesh in order.
pub open spec fn spec_model_draw(meshes: Seq<Mesh>, shared_count: int, add_texture_binds: bool, instance_count: u32) -> Seq<DrawCmd>
    decreases meshes.len(),
{
    if meshes.len() == 0 {
        Seq::empty()
    } else {
        spec_model_draw(meshes.drop_last(), shared_count, add_texture_binds, instance_count)
            + spec_mesh_draw(meshes.len() - 1, meshes.last(), shared_count, add_texture_binds, instance_count)
    }
}

/// Records the commands that draw every mesh of `model` instanced,
/// with `shared_count` shared bind groups and, when requested, each
/// mesh's material group swapped in per mesh.
pub fn draw_model_instanced(model: &Model, instance_count: u32, shared_count: u32, add_texture_binds: bool) -> (cmds: Vec<DrawCmd>)
    requires
        shared_count <= 8,
    ensures
        cmds@ == spec_model_draw(model.meshes@, shared_count as int, add_texture_binds, instance_count),
{
    let mut cmds: Vec<DrawCmd> = Vec::new();
    let mut i: usize = 0;
    while i < model.meshes.len()
        invariant
            i <= model.meshes.len(),
            shared_count <= 8,
            cmds@ == spec_model_draw(model.meshes@.take(i as int), shared_count as int, add_texture_binds, instance_count),
        decreases model.meshes.len() - i,
    {
        let ghost prefix = cmds@;
        let mesh = &model.meshes[i];
        cmds.push(DrawCmd::SetVertexBuffer { mesh: i });
        cmds.push(DrawCmd::SetIndexBuffer { mesh: i });
        let mut slot: u32 = 0;
        while slot < shared_count
            invariant
                slot <= shared_count,
                shared_count <= 8,
                cmds@ == prefix + seq![
                    DrawCmd::SetVertexBuffer { mesh: i as usize },
                    DrawCmd::SetIndexBuffer { mesh: i as usize },
                ] + spec_shared_binds(slot as int),
            decreases shared_count - slot,
        {
            cmds.push(DrawCmd::SetBindGroup { slot, group: BindGroupRef::Shared { index: slot as usize } });
            slot = slot + 1;
        }
        if add_texture_binds {
            cmds.push(DrawCmd::SetBindGroup {
                slot: shared_count,
                group: BindGroupRef::MeshMaterial { index: mesh.material },
            });
        }
        cmds.push(DrawCmd::DrawIndexed { index_count: mesh.num_elements, instance_count });
        proof {
            assert(model.meshes@.take(i + 1 as int).drop_last() =~= model.meshes@.take(i as int));
            assert(model.meshes@.take(i + 1 as int).last() == model.meshes@[i as int]);
            assert(cmds@ =~= spec_model_draw(model.meshes@.take(i + 1 as int), shared_count as int, add_texture_binds, instance_count));
        }
        i = i + 1;
    }
    proof {
        assert(model.meshes@.take(model.meshes@.len() as int) =~= model.meshes@);
    }
    cmds
}

/// Records the commands of the light-debug draw: the model with only
/// the global bind group and no per-material textures, one instance.
pub fn draw_light_model(model: &Model) -> (cmds: Vec<DrawCmd>)
    ensures
        cmds@ == spec_model_draw(model.meshes@, 1, false, 1),
{
    draw_model_instanced(model, 1, 1, false)
}

/// Every material reference the draw expansion emits is an existing
/// material of the model: the per-mesh bound carries over to the
/// whole command list.
pub proof fn lemma_draw_materials_valid(meshes: Seq<Mesh>, materials_len: int, shared_count: int, add_texture_binds: bool, instance_count: u32)
    requires
        forall|i: int| 0 <= i < meshes.len() ==> (#[trigger] meshes[i]).material < materials_len,
        0 <= shared_count,
    ensures
        forall|k: int| 0 <= k < spec_model_draw(meshes, shared_count, add_texture_binds, instance_count).len()
            ==> (#[trigger] spec_model_draw(meshes, shared_count, add_texture_binds, instance_count)[k]
                matches DrawCmd::SetBindGroup { group: BindGroupRef::MeshMaterial { index }, .. }
                ==> index < materials_len),
    decreases meshes.len(),
{
    if meshes.len() > 0 {
        lemma_draw_materials_valid(meshes.drop_last(), materials_len, shared_count, add_texture_binds, instance_count);
        lemma_shared_binds_no_material(shared_count);
    }
}

/// The shared bind commands never reference a material.
proof fn lemma_shared_binds_no_material(n: int)
    ensures
        forall|k: int| 0 <= k < spec_shared_binds(n).len()
            ==> !((#[trigger] spec_shared_binds(n)[k])
                matches DrawCmd::SetBindGroup { group: BindGroupRef::MeshMaterial { .. }, .. }),
    decreases n,
{
    if n > 0 {
        lemma_shared_binds_no_material(n - 1);
    }
}

} // verus!
