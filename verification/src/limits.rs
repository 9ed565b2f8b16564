//! What a device is asked to support.

use vstd::prelude::*;

verus! {

/// How many bytes of push constants the renderer asks for.
pub const PUSH_CONSTANT_SIZE: u32 = 128;

/// The limits of an adapter, or those that a device is asked for.
#[derive(Clone, Copy, Debug, PartialEq, Eq, Structural)]
pub struct DeviceLimits {
    /// Widest one-dimensional texture.
    pub max_texture_dimension_1d: u32,
    /// Widest and tallest two-dimensional texture.
    pub max_texture_dimension_2d: u32,
    /// Largest extent of a three-dimensional texture.
    pub max_texture_dimension_3d: u32,
    /// Most layers of a texture.
    pub max_texture_array_layers: u32,
    /// Most bind groups of a pipeline.
    pub max_bind_groups: u32,
    /// Largest binding index of a layout.
    pub max_bindings_per_bind_group: u32,
    /// Most dynamic uniform buffers of a pipeline.
    pub max_dynamic_uniform_buffers_per_pipeline_layout: u32,
    /// Most dynamic storage buffers of a pipeline.
    pub max_dynamic_storage_buffers_per_pipeline_layout: u32,
    /// Most sampled textures of a shader stage.
    pub max_sampled_textures_per_shader_stage: u32,
    /// Most samplers of a shader stage.
    pub max_samplers_per_shader_stage: u32,
    /// Most storage buffers of a shader stage.
    pub max_storage_buffers_per_shader_stage: u32,
    /// Most storage textures of a shader stage.
    pub max_storage_textures_per_shader_stage: u32,
    /// Most uniform buffers of a shader stage.
    pub max_uniform_buffers_per_shader_stage: u32,
    /// Largest uniform buffer binding, in bytes.
    pub max_uniform_buffer_binding_size: u32,
    /// Largest storage buffer binding, in bytes.
    pub max_storage_buffer_binding_size: u32,
    /// Most vertex buffers of a pipeline.
    pub max_vertex_buffers: u32,
    /// Largest buffer, in bytes.
    pub max_buffer_size: u64,
    /// Most vertex attributes of a pipeline.
    pub max_vertex_attributes: u32,
    /// Largest stride of a vertex buffer.
    pub max_vertex_buffer_array_stride: u32,
    /// Alignment of uniform buffer offsets.
    pub min_uniform_buffer_offset_alignment: u32,
    /// Alignment of storage buffer offsets.
    pub min_storage_buffer_offset_alignment: u32,
    /// Most scalars that pass between two stages.
    pub max_inter_stage_shader_components: u32,
    /// Memory of a compute workgroup, in bytes.
    pub max_compute_workgroup_storage_size: u32,
    /// Most invocations of a workgroup.
    pub max_compute_invocations_per_workgroup: u32,
    /// Largest workgroup along x.
    pub max_compute_workgroup_size_x: u32,
    /// Largest workgroup along y.
    pub max_compute_workgroup_size_y: u32,
    /// Largest workgroup along z.
    pub max_compute_workgroup_size_z: u32,
    /// Most workgroups of a dispatch along one axis.
    pub max_compute_workgroups_per_dimension: u32,
    /// Room for push constants, in bytes.
    pub max_push_constant_size: u32,
    /// Most live bindings that are not samplers.
    pub max_non_sampler_bindings: u32,
}

/// The limits that every device of the lower class (GLES 3.1, D3D11) meets.
pub open spec fn downlevel() -> DeviceLimits {
    DeviceLimits {
        max_texture_dimension_1d: 2048,
        max_texture_dimension_2d: 2048,
        max_texture_dimension_3d: 256,
        max_texture_array_layers: 256,
        max_bind_groups: 4,
        max_bindings_per_bind_group: 1000,
        max_dynamic_uniform_buffers_per_pipeline_layout: 8,
        max_dynamic_storage_buffers_per_pipeline_layout: 4,
        max_sampled_textures_per_shader_stage: 16,
        max_samplers_per_shader_stage: 16,
        max_storage_buffers_per_shader_stage: 4,
        max_storage_textures_per_shader_stage: 4,
        max_uniform_buffers_per_shader_stage: 12,
        max_uniform_buffer_binding_size: 16_384,
        max_storage_buffer_binding_size: 134_217_728,
        max_vertex_buffers: 8,
        max_buffer_size: 268_435_456,
        max_vertex_attributes: 16,
        max_vertex_buffer_array_stride: 2048,
        min_uniform_buffer_offset_alignment: 256,
        min_storage_buffer_offset_alignment: 256,
        max_inter_stage_shader_components: 60,
        max_compute_workgroup_storage_size: 16_352,
        max_compute_invocations_per_workgroup: 256,
        max_compute_workgroup_size_x: 256,
        max_compute_workgroup_size_y: 256,
        max_compute_workgroup_size_z: 64,
        max_compute_workgroups_per_dimension: 65_535,
        max_push_constant_size: 0,
        max_non_sampler_bindings: 1_000_000,
    }
}

/// `wgpu::Limits::downlevel_defaults`: a fixed set of limits, which [`downlevel`] lists.
#[verifier::external_body]
fn downlevel_defaults() -> (limits: DeviceLimits)
    ensures
        limits == downlevel(),
{
    let wgpu::Limits {
        max_texture_dimension_1d, max_texture_dimension_2d, max_texture_dimension_3d, max_texture_array_layers, max_bind_groups, max_bindings_per_bind_group, max_dynamic_uniform_buffers_per_pipeline_layout,
        max_dynamic_storage_buffers_per_pipeline_layout, max_sampled_textures_per_shader_stage, max_samplers_per_shader_stage, max_storage_buffers_per_shader_stage, max_storage_textures_per_shader_stage,
        max_uniform_buffers_per_shader_stage, max_uniform_buffer_binding_size, max_storage_buffer_binding_size, max_vertex_buffers, max_buffer_size, max_vertex_attributes, max_vertex_buffer_array_stride,
        min_uniform_buffer_offset_alignment, min_storage_buffer_offset_alignment, max_inter_stage_shader_components, max_compute_workgroup_storage_size, max_compute_invocations_per_workgroup,
        max_compute_workgroup_size_x, max_compute_workgroup_size_y, max_compute_workgroup_size_z, max_compute_workgroups_per_dimension, max_push_constant_size, max_non_sampler_bindings,
    } = wgpu::Limits::downlevel_defaults();
    DeviceLimits {
        max_texture_dimension_1d, max_texture_dimension_2d, max_texture_dimension_3d, max_texture_array_layers, max_bind_groups, max_bindings_per_bind_group, max_dynamic_uniform_buffers_per_pipeline_layout,
        max_dynamic_storage_buffers_per_pipeline_layout, max_sampled_textures_per_shader_stage, max_samplers_per_shader_stage, max_storage_buffers_per_shader_stage, max_storage_textures_per_shader_stage,
        max_uniform_buffers_per_shader_stage, max_uniform_buffer_binding_size, max_storage_buffer_binding_size, max_vertex_buffers, max_buffer_size, max_vertex_attributes, max_vertex_buffer_array_stride,
        min_uniform_buffer_offset_alignment, min_storage_buffer_offset_alignment, max_inter_stage_shader_components, max_compute_workgroup_storage_size, max_compute_invocations_per_workgroup,
        max_compute_workgroup_size_x, max_compute_workgroup_size_y, max_compute_workgroup_size_z, max_compute_workgroups_per_dimension, max_push_constant_size, max_non_sampler_bindings,
    }
}

/// `limits` with the texture resolutions of `other`.
pub open spec fn with_resolution(limits: DeviceLimits, other: DeviceLimits) -> DeviceLimits {
    DeviceLimits {
        max_texture_dimension_1d: other.max_texture_dimension_1d,
        max_texture_dimension_2d: other.max_texture_dimension_2d,
        max_texture_dimension_3d: other.max_texture_dimension_3d,
        ..limits
    }
}

impl DeviceLimits {
    /// These limits with the texture resolutions of `other`.
    pub fn using_resolution(self, other: DeviceLimits) -> (limits: DeviceLimits)
        ensures
            limits == with_resolution(self, other),
    {
        DeviceLimits {
            max_texture_dimension_1d: other.max_texture_dimension_1d,
            max_texture_dimension_2d: other.max_texture_dimension_2d,
            max_texture_dimension_3d: other.max_texture_dimension_3d,
            ..self
        }
    }

    /// What the renderer asks of a device on an adapter with these limits: the lower class's
    /// limits, the adapter's texture resolutions so that images of the size of the window are
    /// possible, and room for push constants.
    pub open spec fn requested(self) -> DeviceLimits {
        DeviceLimits {
            max_push_constant_size: PUSH_CONSTANT_SIZE,
            ..with_resolution(downlevel(), self)
        }
    }

    /// The limits to request of a device on an adapter with these limits.
    pub fn request(self) -> (limits: DeviceLimits)
        ensures
            limits == self.requested(),
    {
        let mut limits = downlevel_defaults().using_resolution(self);
        limits.max_push_constant_size = PUSH_CONSTANT_SIZE;
        limits
    }
}

} // verus!
