//! The descriptor plans built once at startup. Each plan is plain data that
//! the graphics layer turns into one GPU object; the `id` fields name those
//! objects, so that a plan that refers to another does so unambiguously.

use vstd::prelude::*;

verus! {

use crate::config::TextureFormatId;
use crate::uniforms::{Uniforms, uniform_bytes};
use crate::bits::le4_bytes;

/// A buffer to create, together with its initial contents and usage.
pub struct BufferPlan {
    pub id: u32,
    pub contents: Vec<u8>,
    pub usage_uniform: bool,
    pub usage_copy_dst: bool,
}

/// The one binding kind the viewer uses.
#[derive(Clone, Copy, PartialEq, Eq, Structural, Debug)]
pub enum BindingKind {
    UniformBuffer,
}

/// One slot of a bind group layout.
#[derive(Clone, Copy, PartialEq, Eq, Structural, Debug)]
pub struct BindGroupLayoutEntryPlan {
    pub binding: u32,
    pub visible_to_vertex: bool,
    pub visible_to_fragment: bool,
    pub kind: BindingKind,
    pub has_dynamic_offset: bool,
}

/// A bind group layout to create.
pub struct BindGroupLayoutPlan {
    pub id: u32,
    pub entries: Vec<BindGroupLayoutEntryPlan>,
}

/// One slot of a bind group: which buffer fills which binding.
#[derive(Clone, Copy, PartialEq, Eq, Structural, Debug)]
pub struct BindGroupEntryPlan {
    pub binding: u32,
    pub buffer_id: u32,
}

/// A bind group to create against a layout.
pub struct BindGroupPlan {
    pub id: u32,
    pub layout_id: u32,
    pub entries: Vec<BindGroupEntryPlan>,
}

/// A pipeline layout to create: its bind group layouts, and how many push
/// constant ranges it declares.
pub struct PipelineLayoutPlan {
    pub id: u32,
    pub bind_group_layout_ids: Vec<u32>,
    pub push_constant_range_count: usize,
}

/// The shader's two entry points.
#[derive(Clone, Copy, PartialEq, Eq, Structural, Debug)]
pub enum ShaderEntry {
    VsMain,
    FsMain,
}

impl ShaderEntry {
    /// The entry point's name as the shader source spells it.
    pub fn as_str(&self) -> (r: &'static str)
        ensures
            *self is VsMain ==> r@ == "vs_main"@,
            *self is FsMain ==> r@ == "fs_main"@,
    {
        match self {
            ShaderEntry::VsMain => "vs_main",
            ShaderEntry::FsMain => "fs_main",
        }
    }
}

/// How vertices are assembled. The viewer keeps the default, a triangle
/// list.
#[derive(Clone, Copy, PartialEq, Eq, Structural, Debug)]
pub enum PrimitiveTopology {
    PointList,
    LineList,
    LineStrip,
    TriangleList,
    TriangleStrip,
}

/// A render pipeline to create.
#[derive(Clone, Copy, PartialEq, Eq, Structural, Debug)]
pub struct RenderPipelinePlan {
    pub id: u32,
    pub layout_id: u32,
    pub vertex_entry: ShaderEntry,
    pub vertex_buffer_count: usize,
    pub fragment_entry: ShaderEntry,
    pub fragment_target_format: TextureFormatId,
    pub topology: PrimitiveTopology,
    pub depth_stencil: bool,
    pub sample_count: u32,
    pub multiview: bool,
}

/// The uniform buffer: initialized with the uniform record's bytes, usable
/// as a uniform and as a copy destination.
pub fn plan_uniform_buffer(id: u32, uniforms: &Uniforms) -> (r: BufferPlan)
    ensures
        r.id == id,
        r.usage_uniform,
        r.usage_copy_dst,
        r.contents@ == le4_bytes(uniforms.width_bits as nat) + le4_bytes(
            uniforms.height_bits as nat,
        ),
        forall|w: u32, h: u32|
            uniforms.encodes(w, h) ==> r.contents@ == uniform_bytes(w as nat, h as nat),
{
    BufferPlan { id, contents: uniforms.to_bytes(), usage_uniform: true, usage_copy_dst: true }
}

/// The single-binding layout and the bind group that fills it: binding 0, a
/// plain uniform buffer visible only to the fragment stage, bound to the
/// buffer named by `buffer_id`.
pub fn plan_bind_group(layout_id: u32, group_id: u32, buffer_id: u32) -> (r: (
    BindGroupLayoutPlan,
    BindGroupPlan,
))
    ensures
        r.0.id == layout_id,
        r.0.entries@ == seq![
            BindGroupLayoutEntryPlan {
                binding: 0,
                visible_to_vertex: false,
                visible_to_fragment: true,
                kind: BindingKind::UniformBuffer,
                has_dynamic_offset: false,
            },
        ],
        r.1.id == group_id,
        r.1.layout_id == layout_id,
        r.1.entries@ == seq![BindGroupEntryPlan { binding: 0, buffer_id }],
{
    let mut layout_entries: Vec<BindGroupLayoutEntryPlan> = Vec::new();
    layout_entries.push(
        BindGroupLayoutEntryPlan {
            binding: 0,
            visible_to_vertex: false,
            visible_to_fragment: true,
            kind: BindingKind::UniformBuffer,
            has_dynamic_offset: false,
        },
    );
    let mut group_entries: Vec<BindGroupEntryPlan> = Vec::new();
    group_entries.push(BindGroupEntryPlan { binding: 0, buffer_id });
    proof {
        assert(layout_entries@ =~= seq![
            BindGroupLayoutEntryPlan {
                binding: 0,
                visible_to_vertex: false,
                visible_to_fragment: true,
                kind: BindingKind::UniformBuffer,
                has_dynamic_offset: false,
            },
        ]);
        assert(group_entries@ =~= seq![BindGroupEntryPlan { binding: 0, buffer_id }]);
    }
    (
        BindGroupLayoutPlan { id: layout_id, entries: layout_entries },
        BindGroupPlan { id: group_id, layout_id, entries: group_entries },
    )
}

/// The pipeline layout: exactly the one bind group layout, no push
/// constants.
pub fn plan_pipeline_layout(id: u32, bind_group_layout_id: u32) -> (r: PipelineLayoutPlan)
    ensures
        r.id == id,
        r.bind_group_layout_ids@ == seq![bind_group_layout_id],
        r.push_constant_range_count == 0,
{
    let mut ids: Vec<u32> = Vec::new();
    ids.push(bind_group_layout_id);
    proof {
        assert(ids@ =~= seq![bind_group_layout_id]);
    }
    PipelineLayoutPlan { id, bind_group_layout_ids: ids, push_constant_range_count: 0 }
}

/// The fixed render pipeline: `vs_main` with no vertex buffers (the quad is
/// synthesized from the vertex index), `fs_main` targeting the negotiated
/// swapchain format, default triangle-list topology, no depth/stencil, no
/// multisampling, single view.
pub fn plan_render_pipeline(id: u32, layout_id: u32, target_format: TextureFormatId) -> (r:
    RenderPipelinePlan)
    ensures
        r == (RenderPipelinePlan {
            id,
            layout_id,
            vertex_entry: ShaderEntry::VsMain,
            vertex_buffer_count: 0,
            fragment_entry: ShaderEntry::FsMain,
            fragment_target_format: target_format,
            topology: PrimitiveTopology::TriangleList,
            depth_stencil: false,
            sample_count: 1,
            multiview: false,
        }),
{
    RenderPipelinePlan {
        id,
        layout_id,
        vertex_entry: ShaderEntry::VsMain,
        vertex_buffer_count: 0,
        fragment_entry: ShaderEntry::FsMain,
        fragment_target_format: target_format,
        topology: PrimitiveTopology::TriangleList,
        depth_stencil: false,
        sample_count: 1,
        multiview: false,
    }
}

} // verus!
