//! Plain descriptions of the GPU objects that the renderer creates.

use vstd::prelude::*;

verus! {

/// The pixel formats that the graphics API knows. Only the surface decides which one it has, so
/// a value is carried through and never looked into.
#[verifier::external_type_specification]
#[verifier::external_body]
pub struct ExTextureFormat(wgpu::TextureFormat);

/// What the graphics API lets a surface's textures be used for; carried through as well.
#[verifier::external_type_specification]
#[verifier::external_body]
pub struct ExTextureUsages(wgpu::TextureUsages);

/// How the graphics API blends a surface with what is behind the window; carried through as well.
#[verifier::external_type_specification]
#[verifier::external_body]
pub struct ExCompositeAlphaMode(wgpu::CompositeAlphaMode);

/// The format of a texture.
#[derive(Clone, Copy, Debug, PartialEq, Eq)]
pub enum PixelFormat {
    /// Four channels of eight bits, with the colours in sRGB.
    Rgba8UnormSrgb,
    /// The format that the surface has.
    Surface(wgpu::TextureFormat),
}

/// How finished frames reach the screen.
#[derive(Clone, Copy, Debug, PartialEq, Eq, Structural)]
pub enum PresentMode {
    /// Whatever the surface lists first.
    SurfaceDefault,
    /// One after the other, in step with the display.
    Fifo,
}

/// How the window's surface is set up.
#[derive(Debug, PartialEq, Eq)]
pub struct SurfaceConfiguration {
    pub usage: wgpu::TextureUsages,
    pub format: wgpu::TextureFormat,
    pub width: u32,
    pub height: u32,
    pub present_mode: PresentMode,
    /// How many frames may wait to be shown.
    pub desired_maximum_frame_latency: u32,
    pub alpha_mode: wgpu::CompositeAlphaMode,
    /// The formats, besides its own, in which the surface's textures may be viewed.
    pub view_formats: Vec<wgpu::TextureFormat>,
}

/// A stage of a pipeline that runs a shader.
#[derive(Clone, Copy, Debug, PartialEq, Eq, Structural)]
pub enum ShaderStage {
    Vertex,
    Fragment,
}

/// A shader to load, apart from its source.
#[derive(Debug, PartialEq, Eq)]
pub struct ShaderDescriptor {
    pub label: Option<&'static str>,
    pub stage: ShaderStage,
    /// The names that the source may use, with what they stand for.
    pub defines: Vec<(String, String)>,
}

impl ShaderDescriptor {
    /// A shader for `stage` without a name and without defines.
    pub open spec fn is_plain(self, stage: ShaderStage) -> bool {
        &&& self.label is None
        &&& self.stage == stage
        &&& self.defines@.len() == 0
    }
}

/// What a shader finds in a binding.
#[derive(Clone, Copy, Debug, PartialEq, Eq, Structural)]
pub enum BindingType {
    /// A storage buffer of at least `min_binding_size` bytes.
    StorageBuffer { read_only: bool, has_dynamic_offset: bool, min_binding_size: u64 },
    /// A two-dimensional texture that is sampled as floating point.
    FloatTexture2d { filterable: bool, multisampled: bool },
    /// A sampler.
    Sampler { filtering: bool },
}

/// One binding of a layout.
#[derive(Clone, Copy, Debug, PartialEq, Eq, Structural)]
pub struct BindGroupLayoutEntry {
    pub binding: u32,
    pub visibility: ShaderStage,
    pub ty: BindingType,
    /// How many resources the binding is an array of, if it is one.
    pub count: Option<u32>,
}

/// The bindings that a bind group offers.
#[derive(Debug, PartialEq, Eq)]
pub struct BindGroupLayoutDescriptor {
    pub label: &'static str,
    pub entries: Vec<BindGroupLayoutEntry>,
}

/// What a buffer may be used for.
#[derive(Clone, Copy, Debug, PartialEq, Eq, Structural)]
pub struct BufferUsages {
    pub vertex: bool,
    pub storage: bool,
    pub map_write: bool,
    pub copy_src: bool,
    pub copy_dst: bool,
}

/// A buffer without contents.
#[derive(Clone, Copy, Debug, PartialEq, Eq)]
pub struct BufferDescriptor {
    pub label: &'static str,
    pub size: u64,
    pub usage: BufferUsages,
    pub mapped_at_creation: bool,
}

/// A buffer that is created with its contents.
#[derive(Debug, PartialEq, Eq)]
pub struct BufferInitDescriptor {
    pub label: &'static str,
    pub contents: Vec<u8>,
    pub usage: BufferUsages,
}

/// How a sampler blends neighbouring texels.
#[derive(Clone, Copy, Debug, PartialEq, Eq, Structural)]
pub enum FilterMode {
    Nearest,
    Linear,
}

/// A sampler; what is not listed is as the graphics API sets it.
#[derive(Clone, Copy, Debug, PartialEq, Eq)]
pub struct SamplerDescriptor {
    pub label: &'static str,
    pub mag_filter: FilterMode,
    pub min_filter: FilterMode,
}

/// A bind group whose one binding is the whole instance buffer.
#[derive(Clone, Copy, Debug, PartialEq, Eq)]
pub struct InstanceBindGroupDescriptor {
    pub label: &'static str,
    pub binding: u32,
}

/// How many axes a texture has.
#[derive(Clone, Copy, Debug, PartialEq, Eq, Structural)]
pub enum TextureDimension {
    D1,
    D2,
    D3,
}

/// What a texture may be used for.
#[derive(Clone, Copy, Debug, PartialEq, Eq, Structural)]
pub struct TextureUse {
    pub texture_binding: bool,
    pub render_attachment: bool,
    pub copy_dst: bool,
}

/// A texture.
#[derive(Debug, PartialEq, Eq)]
pub struct TextureDescriptor {
    pub label: Option<&'static str>,
    pub width: u32,
    pub height: u32,
    pub depth_or_array_layers: u32,
    pub mip_level_count: u32,
    pub sample_count: u32,
    pub dimension: TextureDimension,
    pub format: PixelFormat,
    pub usage: TextureUse,
    /// The formats, besides its own, in which the texture may be viewed.
    pub view_formats: Vec<PixelFormat>,
}

impl TextureDescriptor {
    /// A plain two-dimensional texture of this size: one layer, one level, one sample, without a
    /// name, to be viewed in its own format only.
    pub open spec fn is_plain(self, width: u32, height: u32) -> bool {
        &&& self.label is None
        &&& self.width == width
        &&& self.height == height
        &&& self.depth_or_array_layers == 1
        &&& self.mip_level_count == 1
        &&& self.sample_count == 1
        &&& self.dimension == TextureDimension::D2
        &&& self.view_formats@ == Seq::<PixelFormat>::empty()
    }
}

/// `wgpu::SamplerDescriptor::default`, as far as the filters for magnifying and minifying go:
/// both take the nearest texel.
#[verifier::external_body]
pub(crate) fn default_filters() -> (filters: (FilterMode, FilterMode))
    ensures
        filters == (FilterMode::Nearest, FilterMode::Nearest),
{
    let wgpu::SamplerDescriptor { mag_filter, min_filter, .. } = wgpu::SamplerDescriptor::default();
    let mag = match mag_filter {
        wgpu::FilterMode::Nearest => FilterMode::Nearest,
        wgpu::FilterMode::Linear => FilterMode::Linear,
    };
    let min = match min_filter {
        wgpu::FilterMode::Nearest => FilterMode::Nearest,
        wgpu::FilterMode::Linear => FilterMode::Linear,
    };
    (mag, min)
}

} // verus!
