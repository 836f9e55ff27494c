//! The two pipelines of a session as plain data: which shader files they
//! are built from, the entry point of every stage, and the bind groups that
//! each expects, slot by slot.

use crate::frame::{
    compute_pass, layout_of, render_pass, Access, BindGroupId, BufferId, PipelineId, Stage,
};
use vstd::prelude::*;

verus! {

/// The shader modules of a session.
#[derive(Clone, Copy, Debug, PartialEq, Eq, Structural)]
pub enum ShaderId {
    ComputeVoxel,
    VoxelVertex,
    VoxelFragment,
}

/// Path of the file that holds a shader, relative to the working directory.
pub open spec fn path_of(shader: ShaderId) -> Seq<char> {
    match shader {
        ShaderId::ComputeVoxel => "shaders/compute_voxel.wgsl"@,
        ShaderId::VoxelVertex => "shaders/voxel_vertex.wgsl"@,
        ShaderId::VoxelFragment => "shaders/voxel_fragment.wgsl"@,
    }
}

/// Label under which a shader module is created.
pub open spec fn label_of(shader: ShaderId) -> Seq<char> {
    match shader {
        ShaderId::ComputeVoxel => "Compute Shader"@,
        ShaderId::VoxelVertex => "Voxel Vertex Shader"@,
        ShaderId::VoxelFragment => "Voxel Fragment Shader"@,
    }
}

/// The bind groups that a pipeline expects, in the order of their slots.
pub open spec fn groups_of(pipeline: PipelineId) -> Seq<BindGroupId> {
    match pipeline {
        PipelineId::Compute => seq![BindGroupId::VoxelCompute],
        PipelineId::Voxel => seq![BindGroupId::Camera, BindGroupId::VoxelRender],
    }
}

/// Path of the file that holds a shader.
pub fn shader_path(shader: ShaderId) -> (path: &'static str)
    ensures
        path@ == path_of(shader),
{
    match shader {
        ShaderId::ComputeVoxel => "shaders/compute_voxel.wgsl",
        ShaderId::VoxelVertex => "shaders/voxel_vertex.wgsl",
        ShaderId::VoxelFragment => "shaders/voxel_fragment.wgsl",
    }
}

/// Label under which a shader module is created.
pub fn shader_label(shader: ShaderId) -> (label: &'static str)
    ensures
        label@ == label_of(shader),
{
    match shader {
        ShaderId::ComputeVoxel => "Compute Shader",
        ShaderId::VoxelVertex => "Voxel Vertex Shader",
        ShaderId::VoxelFragment => "Voxel Fragment Shader",
    }
}

/// Name of the entry point of every shader stage.
pub fn entry_point() -> (name: &'static str)
    ensures
        name@ == "main"@,
{
    "main"
}

/// How the vertices of a draw call are assembled into primitives.
#[derive(Clone, Copy, Debug, PartialEq, Eq, Structural)]
pub enum Topology {
    /// Every vertex is a point of its own.
    PointList,
    /// Every three vertices are a triangle.
    TriangleList,
}

/// What the compute pipeline is built from.
#[derive(Clone, Debug, PartialEq, Eq)]
pub struct ComputePipelineSpec {
    pub shader: ShaderId,
    /// Name of the function at which the compute stage enters the shader.
    pub entry_point: &'static str,
    /// The bind groups that the pipeline expects, slot by slot.
    pub bind_groups: Vec<BindGroupId>,
}

/// What the voxel render pipeline is built from.
#[derive(Clone, Debug, PartialEq, Eq)]
pub struct VoxelPipelineSpec {
    pub vertex_shader: ShaderId,
    /// Name of the function at which the vertex stage enters its shader.
    pub vertex_entry_point: &'static str,
    pub fragment_shader: ShaderId,
    /// Name of the function at which the fragment stage enters its shader.
    pub fragment_entry_point: &'static str,
    /// The bind groups that the pipeline expects, slot by slot.
    pub bind_groups: Vec<BindGroupId>,
    /// Number of vertex buffers that the vertex stage reads.
    pub vertex_buffers: usize,
    pub topology: Topology,
    /// Number of colour targets, each of the format of the surface.
    pub color_targets: usize,
}

/// Whether `spec` is the compute pipeline: the voxel compute shader entered
/// at `main`, over the writable voxel buffer.
pub open spec fn is_compute_pipeline(spec: ComputePipelineSpec) -> bool {
    &&& spec.shader == ShaderId::ComputeVoxel
    &&& spec.entry_point@ == "main"@
    &&& spec.bind_groups@ == groups_of(PipelineId::Compute)
}

/// Whether `spec` is the voxel render pipeline: the two voxel shaders, each
/// entered at `main`; the camera in slot 0 and the read-only voxel buffer in
/// slot 1; no vertex buffer, since every vertex is looked up in the voxel
/// buffer; a list of points; one colour target.
pub open spec fn is_voxel_pipeline(spec: VoxelPipelineSpec) -> bool {
    &&& spec.vertex_shader == ShaderId::VoxelVertex
    &&& spec.vertex_entry_point@ == "main"@
    &&& spec.fragment_shader == ShaderId::VoxelFragment
    &&& spec.fragment_entry_point@ == "main"@
    &&& spec.bind_groups@ == groups_of(PipelineId::Voxel)
    &&& spec.vertex_buffers == 0
    &&& spec.topology == Topology::PointList
    &&& spec.color_targets == 1
}

/// The compute pipeline: the voxel compute shader over the writable voxel
/// buffer.
pub fn create_compute_pipeline() -> (spec: ComputePipelineSpec)
    ensures
        is_compute_pipeline(spec),
{
    let mut bind_groups: Vec<BindGroupId> = Vec::new();
    bind_groups.push(BindGroupId::VoxelCompute);
    assert(bind_groups@ =~= groups_of(PipelineId::Compute));
    ComputePipelineSpec { shader: ShaderId::ComputeVoxel, entry_point: entry_point(), bind_groups }
}

/// The voxel render pipeline: the camera in slot 0, the read-only voxel
/// buffer in slot 1, one point per vertex, drawn into one colour target.
pub fn create_voxel_pipeline() -> (spec: VoxelPipelineSpec)
    ensures
        is_voxel_pipeline(spec),
{
    let mut bind_groups: Vec<BindGroupId> = Vec::new();
    bind_groups.push(BindGroupId::Camera);
    bind_groups.push(BindGroupId::VoxelRender);
    assert(bind_groups@ =~= groups_of(PipelineId::Voxel));
    VoxelPipelineSpec {
        vertex_shader: ShaderId::VoxelVertex,
        vertex_entry_point: entry_point(),
        fragment_shader: ShaderId::VoxelFragment,
        fragment_entry_point: entry_point(),
        bind_groups,
        vertex_buffers: 0,
        topology: Topology::PointList,
        color_targets: 1,
    }
}

/// Both pipelines, the compute pipeline first.
pub fn create_pipelines() -> (specs: (ComputePipelineSpec, VoxelPipelineSpec))
    ensures
        is_compute_pipeline(specs.0),
        is_voxel_pipeline(specs.1),
{
    (create_compute_pipeline(), create_voxel_pipeline())
}

/// The passes of a frame bind what their pipelines expect: every slot a
/// pass fills holds the bind group that the pipeline's layout names for it,
/// each bind group is visible to the stage that reads it, and both passes
/// reach the one voxel buffer, the compute pass to write and the render
/// pass only to read.
pub proof fn lemma_passes_match_pipelines(n: int)
    ensures
        groups_of(compute_pass().pipeline)[compute_pass().slot as int] == compute_pass().group,
        groups_of(render_pass(n).pipeline)[render_pass(n).camera_slot as int] == render_pass(
            n,
        ).camera_group,
        groups_of(render_pass(n).pipeline)[render_pass(n).voxel_slot as int] == render_pass(
            n,
        ).voxel_group,
        layout_of(compute_pass().group).visibility == Stage::Compute,
        layout_of(compute_pass().group).access == Access::StorageReadWrite,
        layout_of(render_pass(n).camera_group).visibility == Stage::Vertex,
        layout_of(render_pass(n).camera_group).access == Access::Uniform,
        layout_of(render_pass(n).camera_group).buffer == BufferId::CameraUniform,
        layout_of(render_pass(n).voxel_group).visibility == Stage::Vertex,
        layout_of(render_pass(n).voxel_group).access == Access::StorageReadOnly,
        layout_of(render_pass(n).voxel_group).buffer == layout_of(compute_pass().group).buffer,
{
}

} // verus!
