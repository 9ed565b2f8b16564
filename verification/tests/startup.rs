use kelp_2d::descriptors::{
    BindGroupLayoutEntry, BindingType, BufferUsages, FilterMode, PresentMode, ShaderStage,
    SurfaceConfiguration,
};
use kelp_2d::error::KelpError;
use kelp_2d::kelp::Kelp;
use kelp_2d::limits::DeviceLimits;
use kelp_2d::setup::INSTANCE_BUFFER_SIZE;

fn adapter_limits() -> DeviceLimits {
    DeviceLimits {
        max_texture_dimension_1d: 16384,
        max_texture_dimension_2d: 16385,
        max_texture_dimension_3d: 2049,
        max_texture_array_layers: 1,
        max_bind_groups: 1,
        max_bindings_per_bind_group: 1,
        max_dynamic_uniform_buffers_per_pipeline_layout: 1,
        max_dynamic_storage_buffers_per_pipeline_layout: 1,
        max_sampled_textures_per_shader_stage: 1,
        max_samplers_per_shader_stage: 1,
        max_storage_buffers_per_shader_stage: 1,
        max_storage_textures_per_shader_stage: 1,
        max_uniform_buffers_per_shader_stage: 1,
        max_uniform_buffer_binding_size: 1,
        max_storage_buffer_binding_size: 1,
        max_vertex_buffers: 1,
        max_buffer_size: 1,
        max_vertex_attributes: 1,
        max_vertex_buffer_array_stride: 1,
        min_uniform_buffer_offset_alignment: 1,
        min_storage_buffer_offset_alignment: 1,
        max_inter_stage_shader_components: 1,
        max_compute_workgroup_storage_size: 1,
        max_compute_invocations_per_workgroup: 1,
        max_compute_workgroup_size_x: 1,
        max_compute_workgroup_size_y: 1,
        max_compute_workgroup_size_z: 1,
        max_compute_workgroups_per_dimension: 1,
        max_push_constant_size: 1,
        max_non_sampler_bindings: 1,
    }
}

fn surface() -> SurfaceConfiguration {
    SurfaceConfiguration {
        usage: wgpu::TextureUsages::RENDER_ATTACHMENT | wgpu::TextureUsages::COPY_SRC,
        format: wgpu::TextureFormat::Bgra8UnormSrgb,
        width: 640,
        height: 480,
        present_mode: PresentMode::SurfaceDefault,
        desired_maximum_frame_latency: 3,
        alpha_mode: wgpu::CompositeAlphaMode::PreMultiplied,
        view_formats: vec![wgpu::TextureFormat::Bgra8Unorm],
    }
}

#[test]
fn an_adapter_for_the_window_is_looked_for() {
    let request = Kelp::adapter_request();
    assert!(request.primary_backends);
    assert!(request.compatible_with_surface);
}

#[test]
fn without_an_adapter_there_is_no_request() {
    assert_eq!(Kelp::device_request(None), Err(KelpError::NoAdapter));
}

#[test]
fn the_request_is_as_the_graphics_api_would_make_it() {
    let request = Kelp::device_request(Some(adapter_limits())).unwrap();
    assert!(request.push_constants);
    assert_eq!(request.label, None);
    let mut expected = wgpu::Limits::downlevel_defaults().using_resolution(wgpu::Limits {
        max_texture_dimension_1d: 16384,
        max_texture_dimension_2d: 16385,
        max_texture_dimension_3d: 2049,
        ..Default::default()
    });
    expected.max_push_constant_size = 128;
    let limits = request.limits;
    let asked = wgpu::Limits {
        max_texture_dimension_1d: limits.max_texture_dimension_1d,
        max_texture_dimension_2d: limits.max_texture_dimension_2d,
        max_texture_dimension_3d: limits.max_texture_dimension_3d,
        max_texture_array_layers: limits.max_texture_array_layers,
        max_bind_groups: limits.max_bind_groups,
        max_bindings_per_bind_group: limits.max_bindings_per_bind_group,
        max_dynamic_uniform_buffers_per_pipeline_layout: limits
            .max_dynamic_uniform_buffers_per_pipeline_layout,
        max_dynamic_storage_buffers_per_pipeline_layout: limits
            .max_dynamic_storage_buffers_per_pipeline_layout,
        max_sampled_textures_per_shader_stage: limits.max_sampled_textures_per_shader_stage,
        max_samplers_per_shader_stage: limits.max_samplers_per_shader_stage,
        max_storage_buffers_per_shader_stage: limits.max_storage_buffers_per_shader_stage,
        max_storage_textures_per_shader_stage: limits.max_storage_textures_per_shader_stage,
        max_uniform_buffers_per_shader_stage: limits.max_uniform_buffers_per_shader_stage,
        max_uniform_buffer_binding_size: limits.max_uniform_buffer_binding_size,
        max_storage_buffer_binding_size: limits.max_storage_buffer_binding_size,
        max_vertex_buffers: limits.max_vertex_buffers,
        max_buffer_size: limits.max_buffer_size,
        max_vertex_attributes: limits.max_vertex_attributes,
        max_vertex_buffer_array_stride: limits.max_vertex_buffer_array_stride,
        min_uniform_buffer_offset_alignment: limits.min_uniform_buffer_offset_alignment,
        min_storage_buffer_offset_alignment: limits.min_storage_buffer_offset_alignment,
        max_inter_stage_shader_components: limits.max_inter_stage_shader_components,
        max_compute_workgroup_storage_size: limits.max_compute_workgroup_storage_size,
        max_compute_invocations_per_workgroup: limits.max_compute_invocations_per_workgroup,
        max_compute_workgroup_size_x: limits.max_compute_workgroup_size_x,
        max_compute_workgroup_size_y: limits.max_compute_workgroup_size_y,
        max_compute_workgroup_size_z: limits.max_compute_workgroup_size_z,
        max_compute_workgroups_per_dimension: limits.max_compute_workgroups_per_dimension,
        max_push_constant_size: limits.max_push_constant_size,
        max_non_sampler_bindings: limits.max_non_sampler_bindings,
    };
    assert_eq!(asked, expected);
}

#[test]
fn the_request_has_these_values() {
    let limits = Kelp::device_request(Some(adapter_limits())).unwrap().limits;
    assert_eq!(limits.max_texture_dimension_2d, 16385);
    assert_eq!(limits.max_texture_array_layers, 256);
    assert_eq!(limits.max_bind_groups, 4);
    assert_eq!(limits.max_uniform_buffer_binding_size, 16384);
    assert_eq!(limits.max_storage_buffer_binding_size, 134217728);
    assert_eq!(limits.max_buffer_size, 268435456);
    assert_eq!(limits.max_push_constant_size, 128);
}

#[test]
fn starting_fails_without_an_adapter() {
    assert_eq!(Kelp::new(None, Err("none".to_string()), false).unwrap_err(), KelpError::NoAdapter);
    assert_eq!(Kelp::new(None, Ok(surface()), true).unwrap_err(), KelpError::NoAdapter);
}

#[test]
fn starting_fails_without_a_device() {
    let started = Kelp::new(Some(adapter_limits()), Err("lost".to_string()), true);
    assert_eq!(started.unwrap_err(), KelpError::NoDevice("lost".to_string()));
}

#[test]
fn starting_keeps_the_surface_but_waits_for_the_display() {
    let (kelp, setup) = Kelp::new(Some(adapter_limits()), Ok(surface()), false).unwrap();
    let expected = SurfaceConfiguration { present_mode: PresentMode::Fifo, ..surface() };
    assert_eq!(kelp.window_surface_config, expected);
    assert_eq!(setup.pipeline_format, wgpu::TextureFormat::Bgra8UnormSrgb);
    assert!(kelp.per_frame.is_none());
    assert!(!kelp.imgui_renderer);
    assert_eq!(setup.imgui_format, None);
}

#[test]
fn the_interface_draws_to_the_format_of_the_surface() {
    let (kelp, setup) = Kelp::new(Some(adapter_limits()), Ok(surface()), true).unwrap();
    assert!(kelp.imgui_renderer);
    assert_eq!(setup.imgui_format, Some(wgpu::TextureFormat::Bgra8UnormSrgb));
}

#[test]
fn layouts_are_those_of_the_shaders() {
    let (_, setup) = Kelp::new(Some(adapter_limits()), Ok(surface()), false).unwrap();
    assert_eq!(setup.vertex_shader.stage, ShaderStage::Vertex);
    assert_eq!(setup.fragment_shader.stage, ShaderStage::Fragment);
    for shader in [&setup.vertex_shader, &setup.fragment_shader] {
        assert_eq!(shader.label, None);
        assert!(shader.defines.is_empty());
    }
    assert_eq!(setup.vertex_bind_layout.label, "Vertex Bind Group Layout");
    assert_eq!(
        setup.vertex_bind_layout.entries,
        vec![BindGroupLayoutEntry {
            binding: 0,
            visibility: ShaderStage::Vertex,
            ty: BindingType::StorageBuffer {
                read_only: true,
                has_dynamic_offset: false,
                min_binding_size: 144,
            },
            count: None,
        }]
    );
    assert_eq!(setup.fragment_texture_bind_layout.label, "Fragment Texture Bind Group Layout");
    assert_eq!(
        setup.fragment_texture_bind_layout.entries,
        vec![
            BindGroupLayoutEntry {
                binding: 0,
                visibility: ShaderStage::Fragment,
                ty: BindingType::FloatTexture2d { filterable: true, multisampled: false },
                count: None,
            },
            BindGroupLayoutEntry {
                binding: 1,
                visibility: ShaderStage::Fragment,
                ty: BindingType::Sampler { filtering: true },
                count: None,
            },
        ]
    );
    assert_eq!(setup.vertex_bind_group.label, "Vertex Bind Group");
    assert_eq!(setup.vertex_bind_group.binding, 0);
}

#[test]
fn the_vertex_buffer_is_the_unit_square() {
    let (_, setup) = Kelp::new(Some(adapter_limits()), Ok(surface()), false).unwrap();
    let corners: [f32; 8] = [0.0, 0.0, 1.0, 0.0, 0.0, 1.0, 1.0, 1.0];
    assert_eq!(setup.vertex_buffer.label, "Vertex Buffer");
    assert_eq!(setup.vertex_buffer.contents, bytemuck::bytes_of(&corners).to_vec());
    assert_eq!(
        setup.vertex_buffer.usage,
        BufferUsages {
            vertex: true,
            storage: false,
            map_write: false,
            copy_src: false,
            copy_dst: false,
        }
    );
}

#[test]
fn the_instance_buffers_are_of_one_size() {
    let (_, setup) = Kelp::new(Some(adapter_limits()), Ok(surface()), false).unwrap();
    assert_eq!(INSTANCE_BUFFER_SIZE, 8 << 20);
    assert_eq!(setup.instance_buffer.label, "Instance Buffer");
    assert_eq!(setup.instance_buffer.size, 8 << 20);
    assert!(!setup.instance_buffer.mapped_at_creation);
    assert!(setup.instance_buffer.usage.storage && setup.instance_buffer.usage.copy_dst);
    assert!(!setup.instance_buffer.usage.map_write && !setup.instance_buffer.usage.copy_src);
    assert_eq!(setup.instance_staging_buffer.label, "Instance Staging Buffer");
    assert_eq!(setup.instance_staging_buffer.size, 8 << 20);
    assert!(!setup.instance_staging_buffer.mapped_at_creation);
    let usage = setup.instance_staging_buffer.usage;
    assert!(usage.map_write && usage.copy_src && !usage.storage && !usage.copy_dst);
}

#[test]
fn one_sampler_is_sharp_and_one_is_smooth() {
    let (_, setup) = Kelp::new(Some(adapter_limits()), Ok(surface()), false).unwrap();
    assert_eq!(setup.point_sampler.label, "Point Sampler");
    assert_eq!(setup.point_sampler.mag_filter, FilterMode::Nearest);
    assert_eq!(setup.point_sampler.min_filter, FilterMode::Nearest);
    assert_eq!(setup.linear_sampler.label, "Linear Sampler");
    assert_eq!(setup.linear_sampler.mag_filter, FilterMode::Linear);
    assert_eq!(setup.linear_sampler.min_filter, FilterMode::Linear);
}
