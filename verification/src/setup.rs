//! What the renderer creates when it starts.

use crate::bytes::{bytes_of, memory_image, INSTANCE_SIZE};
use crate::descriptors::{
    default_filters, BindGroupLayoutDescriptor, BindGroupLayoutEntry, BindingType,
    BufferDescriptor, BufferInitDescriptor, BufferUsages, FilterMode, InstanceBindGroupDescriptor,
    SamplerDescriptor, ShaderDescriptor, ShaderStage,
};
use vstd::prelude::*;

verus! {

/// How many bytes the instance buffer and its staging buffer hold: 8 MiB each.
pub const INSTANCE_BUFFER_SIZE: u64 = 8_388_608;

/// The bit pattern of the single precision number one.
pub const ONE: u32 = 0x3f80_0000;

/// The corners of the unit square, as a strip: (0, 0), (1, 0), (0, 1), (1, 1).
pub open spec fn unit_square() -> Seq<u32> {
    seq![0, 0, ONE, 0, 0, ONE, ONE, ONE]
}

/// The objects to create on a new device.
#[derive(Debug, PartialEq, Eq)]
pub struct Setup {
    pub vertex_shader: ShaderDescriptor,
    pub fragment_shader: ShaderDescriptor,
    pub vertex_bind_layout: BindGroupLayoutDescriptor,
    pub fragment_texture_bind_layout: BindGroupLayoutDescriptor,
    pub vertex_buffer: BufferInitDescriptor,
    pub instance_buffer: BufferDescriptor,
    pub instance_staging_buffer: BufferDescriptor,
    pub point_sampler: SamplerDescriptor,
    pub linear_sampler: SamplerDescriptor,
    pub vertex_bind_group: InstanceBindGroupDescriptor,
    /// The format that the pipelines draw to.
    pub pipeline_format: wgpu::TextureFormat,
    /// The format that the renderer of the user interface draws to, where there is one.
    pub imgui_format: Option<wgpu::TextureFormat>,
}

/// What the vertex shader reads: the instances.
pub open spec fn instance_layout_entry() -> BindGroupLayoutEntry {
    BindGroupLayoutEntry {
        binding: 0,
        visibility: ShaderStage::Vertex,
        ty: BindingType::StorageBuffer {
            read_only: true,
            has_dynamic_offset: false,
            min_binding_size: INSTANCE_SIZE,
        },
        count: None,
    }
}

/// What the fragment shader reads: a texture and how to sample it.
pub open spec fn texture_layout_entries() -> Seq<BindGroupLayoutEntry> {
    seq![
        BindGroupLayoutEntry {
            binding: 0,
            visibility: ShaderStage::Fragment,
            ty: BindingType::FloatTexture2d { filterable: true, multisampled: false },
            count: None,
        },
        BindGroupLayoutEntry {
            binding: 1,
            visibility: ShaderStage::Fragment,
            ty: BindingType::Sampler { filtering: true },
            count: None,
        },
    ]
}

/// A buffer of vertices and nothing else.
pub open spec fn vertex_usage() -> BufferUsages {
    BufferUsages {
        vertex: true,
        storage: false,
        map_write: false,
        copy_src: false,
        copy_dst: false,
    }
}

/// A buffer that shaders read and that copies go to.
pub open spec fn instance_usage() -> BufferUsages {
    BufferUsages {
        vertex: false,
        storage: true,
        map_write: false,
        copy_src: false,
        copy_dst: true,
    }
}

/// A buffer that the program writes to and that copies come from.
pub open spec fn staging_usage() -> BufferUsages {
    BufferUsages {
        vertex: false,
        storage: false,
        map_write: true,
        copy_src: true,
        copy_dst: false,
    }
}

impl Setup {
    /// The shaders are those of the two stages, and the bind group layouts are what they read.
    pub open spec fn layouts_fit(self) -> bool {
        &&& self.vertex_shader.is_plain(ShaderStage::Vertex)
        &&& self.fragment_shader.is_plain(ShaderStage::Fragment)
        &&& self.vertex_bind_layout.label@ == "Vertex Bind Group Layout"@
        &&& self.vertex_bind_layout.entries@ == seq![instance_layout_entry()]
        &&& self.fragment_texture_bind_layout.label@ == "Fragment Texture Bind Group Layout"@
        &&& self.fragment_texture_bind_layout.entries@ == texture_layout_entries()
        &&& self.vertex_bind_group.label@ == "Vertex Bind Group"@
        &&& self.vertex_bind_group.binding == 0
    }

    /// The vertex buffer holds the unit square; the instance buffer and its staging buffer are of
    /// one size.
    pub open spec fn buffers_fit(self) -> bool {
        &&& self.vertex_buffer.label@ == "Vertex Buffer"@
        &&& memory_image(self.vertex_buffer.contents@, unit_square())
        &&& self.vertex_buffer.usage == vertex_usage()
        &&& self.instance_buffer.label@ == "Instance Buffer"@
        &&& self.instance_buffer.size == INSTANCE_BUFFER_SIZE
        &&& self.instance_buffer.usage == instance_usage()
        &&& !self.instance_buffer.mapped_at_creation
        &&& self.instance_staging_buffer.label@ == "Instance Staging Buffer"@
        &&& self.instance_staging_buffer.size == INSTANCE_BUFFER_SIZE
        &&& self.instance_staging_buffer.usage == staging_usage()
        &&& !self.instance_staging_buffer.mapped_at_creation
    }

    /// One sampler takes the nearest texel, the other blends.
    pub open spec fn samplers_fit(self) -> bool {
        &&& self.point_sampler.label@ == "Point Sampler"@
        &&& self.point_sampler.mag_filter == FilterMode::Nearest
        &&& self.point_sampler.min_filter == FilterMode::Nearest
        &&& self.linear_sampler.label@ == "Linear Sampler"@
        &&& self.linear_sampler.mag_filter == FilterMode::Linear
        &&& self.linear_sampler.min_filter == FilterMode::Linear
    }

    /// Everything that is created draws to the format of the surface.
    pub open spec fn formats_fit(self, format: wgpu::TextureFormat, imgui: bool) -> bool {
        &&& self.pipeline_format == format
        &&& self.imgui_format == if imgui {
            Some(format)
        } else {
            None
        }
    }

    /// The objects for a surface with the format `format`, with a renderer of the user interface
    /// if `imgui` holds.
    pub fn new(format: wgpu::TextureFormat, imgui: bool) -> (setup: Setup)
        ensures
            setup.layouts_fit(),
            setup.buffers_fit(),
            setup.samplers_fit(),
            setup.formats_fit(format, imgui),
    {
        let instance_entry = BindGroupLayoutEntry {
            binding: 0,
            visibility: ShaderStage::Vertex,
            ty: BindingType::StorageBuffer {
                read_only: true,
                has_dynamic_offset: false,
                min_binding_size: 16 + 64 + 64,
            },
            count: None,
        };
        let mut vertex_entries: Vec<BindGroupLayoutEntry> = Vec::new();
        vertex_entries.push(instance_entry);

        let texture_entry = BindGroupLayoutEntry {
            binding: 0,
            visibility: ShaderStage::Fragment,
            ty: BindingType::FloatTexture2d { filterable: true, multisampled: false },
            count: None,
        };
        let sampler_entry = BindGroupLayoutEntry {
            binding: 1,
            visibility: ShaderStage::Fragment,
            ty: BindingType::Sampler { filtering: true },
            count: None,
        };
        let mut fragment_entries: Vec<BindGroupLayoutEntry> = Vec::new();
        fragment_entries.push(texture_entry);
        fragment_entries.push(sampler_entry);

        let corners: [u32; 8] = [0, 0, ONE, 0, 0, ONE, ONE, ONE];
        let contents = bytes_of(&corners);
        assert(corners@ =~= unit_square());
        let (mag_filter, min_filter) = default_filters();

        let setup = Setup {
            vertex_shader: ShaderDescriptor {
                label: None,
                stage: ShaderStage::Vertex,
                defines: Vec::new(),
            },
            fragment_shader: ShaderDescriptor {
                label: None,
                stage: ShaderStage::Fragment,
                defines: Vec::new(),
            },
            vertex_bind_layout: BindGroupLayoutDescriptor {
                label: "Vertex Bind Group Layout",
                entries: vertex_entries,
            },
            fragment_texture_bind_layout: BindGroupLayoutDescriptor {
                label: "Fragment Texture Bind Group Layout",
                entries: fragment_entries,
            },
            vertex_buffer: BufferInitDescriptor {
                label: "Vertex Buffer",
                contents,
                usage: BufferUsages {
                    vertex: true,
                    storage: false,
                    map_write: false,
                    copy_src: false,
                    copy_dst: false,
                },
            },
            instance_buffer: BufferDescriptor {
                label: "Instance Buffer",
                size: INSTANCE_BUFFER_SIZE,
                usage: BufferUsages {
                    vertex: false,
                    storage: true,
                    map_write: false,
                    copy_src: false,
                    copy_dst: true,
                },
                mapped_at_creation: false,
            },
            instance_staging_buffer: BufferDescriptor {
                label: "Instance Staging Buffer",
                size: INSTANCE_BUFFER_SIZE,
                usage: BufferUsages {
                    vertex: false,
                    storage: false,
                    map_write: true,
                    copy_src: true,
                    copy_dst: false,
                },
                mapped_at_creation: false,
            },
            point_sampler: SamplerDescriptor { label: "Point Sampler", mag_filter, min_filter },
            linear_sampler: SamplerDescriptor {
                label: "Linear Sampler",
                mag_filter: FilterMode::Linear,
                min_filter: FilterMode::Linear,
            },
            vertex_bind_group: InstanceBindGroupDescriptor {
                label: "Vertex Bind Group",
                binding: 0,
            },
            pipeline_format: format,
            imgui_format: if imgui {
                Some(format)
            } else {
                None
            },
        };
        assert(setup.vertex_bind_layout.entries@ =~= seq![instance_layout_entry()]);
        assert(setup.fragment_texture_bind_layout.entries@ =~= texture_layout_entries());
        setup
    }
}

} // verus!
