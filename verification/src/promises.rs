//! What a caller can rely on, operation by operation: each statement says what comes out in terms
//! of what went in.

use crate::batches::{
    batch_commands, commands_before, draw_command, drawn, failed_commands, failure,
    instances_before, lemma_drawn_bounds, pass_commands, pass_end, pass_result, pipeline_commands,
    switch_commands, switches, BatchLookup, InstanceBatch, PassCommand,
};
use crate::bytes::{big_endian, byte_of, flatten, little_endian, memory_image, InstanceGPU};
use crate::descriptors::{
    BindingType, FilterMode, PixelFormat, PresentMode, ShaderStage, SurfaceConfiguration,
    TextureDescriptor, TextureDimension,
};
use crate::error::{CacheError, KelpError, SurfaceError};
use crate::kelp::{frame_presented, list_rendered, DrawDataId, FrameEncoder, Kelp, Presentation};
use crate::limits::{with_resolution, DeviceLimits};
use crate::render_list::{
    first_error, ListOutcome, ListReplies, LoadOp, PassTarget, Question, RenderList, StoreOp,
};
use crate::setup::{unit_square, Setup};
use vstd::prelude::*;

verus! {

// Bytes

/// The words can be read back from their bytes: each is made of the four bytes at its place, and
/// all of them in the same order, least significant first or most significant first.
pub proof fn law_words_are_read_back(bytes: Seq<u8>, words: Seq<u32>)
    requires
        memory_image(bytes, words),
    ensures
        bytes.len() == 4 * words.len(),
        (forall|i: int|
            0 <= i < words.len() ==> #[trigger] words[i] == bytes[4 * i] + 0x100 * bytes[4 * i + 1]
                + 0x1_0000 * bytes[4 * i + 2] + 0x100_0000 * bytes[4 * i + 3]) || (forall|i: int|
            0 <= i < words.len() ==> #[trigger] words[i] == bytes[4 * i + 3] + 0x100 * bytes[4 * i
                + 2] + 0x1_0000 * bytes[4 * i + 1] + 0x100_0000 * bytes[4 * i]),
{
    assert forall|w: u32|
        w == #[trigger] byte_of(w, 0) + 0x100 * byte_of(w, 1) + 0x1_0000 * byte_of(w, 2)
            + 0x100_0000 * byte_of(w, 3) by {
        lemma_word_of_bytes(w);
    }
    if bytes == little_endian(words) {
        assert forall|i: int| 0 <= i < words.len() implies #[trigger] words[i] == bytes[4 * i]
            + 0x100 * bytes[4 * i + 1] + 0x1_0000 * bytes[4 * i + 2] + 0x100_0000 * bytes[4 * i
            + 3] by {
            assert(bytes[4 * i] == byte_of(words[i], 0));
            assert(bytes[4 * i + 1] == byte_of(words[i], 1));
            assert(bytes[4 * i + 2] == byte_of(words[i], 2));
            assert(bytes[4 * i + 3] == byte_of(words[i], 3));
        }
    } else {
        assert(bytes == big_endian(words));
        assert forall|i: int| 0 <= i < words.len() implies #[trigger] words[i] == bytes[4 * i + 3]
            + 0x100 * bytes[4 * i + 2] + 0x1_0000 * bytes[4 * i + 1] + 0x100_0000 * bytes[4
            * i] by {
            assert(bytes[4 * i] == byte_of(words[i], 3));
            assert(bytes[4 * i + 1] == byte_of(words[i], 2));
            assert(bytes[4 * i + 2] == byte_of(words[i], 1));
            assert(bytes[4 * i + 3] == byte_of(words[i], 0));
        }
    }
}

proof fn lemma_word_of_bytes(w: u32)
    ensures
        w == byte_of(w, 0) + 0x100 * byte_of(w, 1) + 0x1_0000 * byte_of(w, 2) + 0x100_0000
            * byte_of(w, 3),
{
    assert(w / 0x1_0000 == (w / 0x100) / 0x100);
    assert(w / 0x100_0000 == (w / 0x1_0000) / 0x100);
    assert(w % 0x100 < 0x100);
    assert((w / 0x100) % 0x100 < 0x100);
    assert((w / 0x1_0000) % 0x100 < 0x100);
    assert(w / 0x100_0000 < 0x100);
}

/// Rows of words are laid out one after the other: word `c` of row `r` comes after all words of the
/// rows before, and after the `c` words before it in its own row.
pub proof fn law_rows_follow_each_other<const N: usize>(rows: Seq<[u32; N]>, r: int, c: int)
    requires
        0 <= r < rows.len(),
        0 <= c < N,
    ensures
        flatten(rows).len() == rows.len() * N,
        0 <= r * N + c < flatten(rows).len(),
        flatten(rows)[r * N + c] == rows[r]@[c],
{
    let n = N as int;
    assert(0 <= r * n + c < rows.len() * n) by (nonlinear_arith)
        requires
            0 <= r < rows.len(),
            0 <= c < n,
    ;
    vstd::arithmetic::div_mod::lemma_fundamental_div_mod_converse(r * n + c, n, r, c);
}

// Start

/// Taking over resolutions takes the three texture sizes from `other` and nothing else.
pub proof fn law_only_resolutions_are_taken_over(limits: DeviceLimits, other: DeviceLimits)
    ensures
        ({
            let r = with_resolution(limits, other);
            &&& r.max_texture_dimension_1d == other.max_texture_dimension_1d
            &&& r.max_texture_dimension_2d == other.max_texture_dimension_2d
            &&& r.max_texture_dimension_3d == other.max_texture_dimension_3d
            &&& r.max_texture_array_layers == limits.max_texture_array_layers
            &&& r.max_bind_groups == limits.max_bind_groups
            &&& r.max_bindings_per_bind_group == limits.max_bindings_per_bind_group
            &&& r.max_dynamic_uniform_buffers_per_pipeline_layout == limits.max_dynamic_uniform_buffers_per_pipeline_layout
            &&& r.max_dynamic_storage_buffers_per_pipeline_layout == limits.max_dynamic_storage_buffers_per_pipeline_layout
            &&& r.max_sampled_textures_per_shader_stage == limits.max_sampled_textures_per_shader_stage
            &&& r.max_samplers_per_shader_stage == limits.max_samplers_per_shader_stage
            &&& r.max_storage_buffers_per_shader_stage == limits.max_storage_buffers_per_shader_stage
            &&& r.max_storage_textures_per_shader_stage == limits.max_storage_textures_per_shader_stage
            &&& r.max_uniform_buffers_per_shader_stage == limits.max_uniform_buffers_per_shader_stage
            &&& r.max_uniform_buffer_binding_size == limits.max_uniform_buffer_binding_size
            &&& r.max_storage_buffer_binding_size == limits.max_storage_buffer_binding_size
            &&& r.max_vertex_buffers == limits.max_vertex_buffers
            &&& r.max_buffer_size == limits.max_buffer_size
            &&& r.max_vertex_attributes == limits.max_vertex_attributes
            &&& r.max_vertex_buffer_array_stride == limits.max_vertex_buffer_array_stride
            &&& r.min_uniform_buffer_offset_alignment == limits.min_uniform_buffer_offset_alignment
            &&& r.min_storage_buffer_offset_alignment == limits.min_storage_buffer_offset_alignment
            &&& r.max_inter_stage_shader_components == limits.max_inter_stage_shader_components
            &&& r.max_compute_workgroup_storage_size == limits.max_compute_workgroup_storage_size
            &&& r.max_compute_invocations_per_workgroup == limits.max_compute_invocations_per_workgroup
            &&& r.max_compute_workgroup_size_x == limits.max_compute_workgroup_size_x
            &&& r.max_compute_workgroup_size_y == limits.max_compute_workgroup_size_y
            &&& r.max_compute_workgroup_size_z == limits.max_compute_workgroup_size_z
            &&& r.max_compute_workgroups_per_dimension == limits.max_compute_workgroups_per_dimension
            &&& r.max_push_constant_size == limits.max_push_constant_size
            &&& r.max_non_sampler_bindings == limits.max_non_sampler_bindings
        }),
{
}

/// What is asked of a device: the adapter's texture sizes, room for 128 bytes of push constants,
/// and for the rest these values, whatever the adapter could do.
pub proof fn law_limits_asked_for(adapter: DeviceLimits)
    ensures
        ({
            let r = adapter.requested();
            &&& r.max_texture_dimension_1d == adapter.max_texture_dimension_1d
            &&& r.max_texture_dimension_2d == adapter.max_texture_dimension_2d
            &&& r.max_texture_dimension_3d == adapter.max_texture_dimension_3d
            &&& r.max_push_constant_size == 128
            &&& r.max_texture_array_layers == 256
            &&& r.max_bind_groups == 4
            &&& r.max_bindings_per_bind_group == 1000
            &&& r.max_dynamic_uniform_buffers_per_pipeline_layout == 8
            &&& r.max_dynamic_storage_buffers_per_pipeline_layout == 4
            &&& r.max_sampled_textures_per_shader_stage == 16
            &&& r.max_samplers_per_shader_stage == 16
            &&& r.max_storage_buffers_per_shader_stage == 4
            &&& r.max_storage_textures_per_shader_stage == 4
            &&& r.max_uniform_buffers_per_shader_stage == 12
            &&& r.max_uniform_buffer_binding_size == 16_384
            &&& r.max_storage_buffer_binding_size == 134_217_728
            &&& r.max_vertex_buffers == 8
            &&& r.max_buffer_size == 268_435_456
            &&& r.max_vertex_attributes == 16
            &&& r.max_vertex_buffer_array_stride == 2048
            &&& r.min_uniform_buffer_offset_alignment == 256
            &&& r.min_storage_buffer_offset_alignment == 256
            &&& r.max_inter_stage_shader_components == 60
            &&& r.max_compute_workgroup_storage_size == 16_352
            &&& r.max_compute_invocations_per_workgroup == 256
            &&& r.max_compute_workgroup_size_x == 256
            &&& r.max_compute_workgroup_size_y == 256
            &&& r.max_compute_workgroup_size_z == 64
            &&& r.max_compute_workgroups_per_dimension == 65_535
            &&& r.max_non_sampler_bindings == 1_000_000
        }),
{
}

/// A renderer starts without a frame, with the user interface where it was asked for, and with the
/// surface as it is by default, except that its frames wait for the display.
pub proof fn law_starting_keeps_the_surface(surface: SurfaceConfiguration, imgui: bool)
    ensures
        ({
            let kelp = Kelp::initial(surface, imgui);
            let config = kelp.window_surface_config;
            &&& config.width == surface.width
            &&& config.height == surface.height
            &&& config.usage == surface.usage
            &&& config.format == surface.format
            &&& config.desired_maximum_frame_latency == surface.desired_maximum_frame_latency
            &&& config.alpha_mode == surface.alpha_mode
            &&& config.view_formats == surface.view_formats
            &&& config.present_mode == PresentMode::Fifo
            &&& kelp.imgui_renderer == imgui
            &&& kelp.per_frame is None
        }),
{
}

/// The shaders are loaded for one stage each; the vertex shader reads one storage buffer, and the
/// fragment shader a texture and a sampler for it.
pub proof fn law_layouts_serve_the_shaders(setup: Setup)
    requires
        setup.layouts_fit(),
    ensures
        setup.vertex_shader.stage == ShaderStage::Vertex,
        setup.fragment_shader.stage == ShaderStage::Fragment,
        setup.vertex_shader.label is None,
        setup.fragment_shader.label is None,
        setup.vertex_shader.defines@.len() == 0,
        setup.fragment_shader.defines@.len() == 0,
        setup.vertex_bind_layout.label@ == "Vertex Bind Group Layout"@,
        setup.vertex_bind_layout.entries@.len() == 1,
        setup.vertex_bind_layout.entries@[0].binding == 0,
        setup.vertex_bind_layout.entries@[0].visibility == ShaderStage::Vertex,
        setup.vertex_bind_layout.entries@[0].count is None,
        setup.vertex_bind_layout.entries@[0].ty == (BindingType::StorageBuffer {
            read_only: true,
            has_dynamic_offset: false,
            min_binding_size: 144,
        }),
        setup.fragment_texture_bind_layout.label@ == "Fragment Texture Bind Group Layout"@,
        setup.fragment_texture_bind_layout.entries@.len() == 2,
        setup.fragment_texture_bind_layout.entries@[0].binding == 0,
        setup.fragment_texture_bind_layout.entries@[1].binding == 1,
        forall|i: int|
            0 <= i < 2 ==> {
                let entry = #[trigger] setup.fragment_texture_bind_layout.entries@[i];
                entry.visibility == ShaderStage::Fragment && entry.count is None
            },
        setup.fragment_texture_bind_layout.entries@[0].ty == (BindingType::FloatTexture2d {
            filterable: true,
            multisampled: false,
        }),
        setup.fragment_texture_bind_layout.entries@[1].ty == (BindingType::Sampler {
            filtering: true,
        }),
        setup.vertex_bind_group.label@ == "Vertex Bind Group"@,
        setup.vertex_bind_group.binding == 0,
{
}

/// The vertex buffer holds the corners (0, 0), (1, 0), (0, 1), (1, 1); the instance buffer and its
/// staging buffer hold 8 MiB each, and copies go from the second to the first.
pub proof fn law_buffers_serve_the_draws(setup: Setup)
    requires
        setup.buffers_fit(),
    ensures
        setup.vertex_buffer.label@ == "Vertex Buffer"@,
        memory_image(
            setup.vertex_buffer.contents@,
            seq![0, 0, 0x3f80_0000, 0, 0, 0x3f80_0000, 0x3f80_0000, 0x3f80_0000],
        ),
        setup.vertex_buffer.contents@.len() == 32,
        ({
            let usage = setup.vertex_buffer.usage;
            &&& usage.vertex && !usage.storage && !usage.map_write
            &&& !usage.copy_src && !usage.copy_dst
        }),
        setup.instance_buffer.label@ == "Instance Buffer"@,
        setup.instance_buffer.size == 8 * 1024 * 1024,
        !setup.instance_buffer.mapped_at_creation,
        ({
            let usage = setup.instance_buffer.usage;
            &&& !usage.vertex && usage.storage && !usage.map_write
            &&& !usage.copy_src && usage.copy_dst
        }),
        setup.instance_staging_buffer.label@ == "Instance Staging Buffer"@,
        setup.instance_staging_buffer.size == 8 * 1024 * 1024,
        !setup.instance_staging_buffer.mapped_at_creation,
        ({
            let usage = setup.instance_staging_buffer.usage;
            &&& !usage.vertex && !usage.storage && usage.map_write
            &&& usage.copy_src && !usage.copy_dst
        }),
{
    assert(unit_square() =~= seq![
        0,
        0,
        0x3f80_0000,
        0,
        0,
        0x3f80_0000,
        0x3f80_0000,
        0x3f80_0000,
    ]);
}

/// One sampler takes the nearest texel in both directions, the other blends in both.
pub proof fn law_samplers_are_sharp_and_smooth(setup: Setup)
    requires
        setup.samplers_fit(),
    ensures
        setup.point_sampler.label@ == "Point Sampler"@,
        setup.point_sampler.mag_filter == FilterMode::Nearest,
        setup.point_sampler.min_filter == FilterMode::Nearest,
        setup.linear_sampler.label@ == "Linear Sampler"@,
        setup.linear_sampler.mag_filter == FilterMode::Linear,
        setup.linear_sampler.min_filter == FilterMode::Linear,
{
}

/// The pipelines, and the renderer of the user interface where there is to be one, are made for the
/// format of the surface.
pub proof fn law_everything_draws_to_the_surface(
    setup: Setup,
    format: wgpu::TextureFormat,
    imgui: bool,
)
    requires
        setup.formats_fit(format, imgui),
    ensures
        setup.pipeline_format == format,
        imgui ==> setup.imgui_format == Some(format),
        !imgui ==> setup.imgui_format is None,
{
}

// The surface and textures

/// Resizing sets both sizes and changes nothing else.
pub proof fn law_resizing_sets_the_size_only(kelp: Kelp, width: u32, height: u32)
    ensures
        ({
            let after = kelp.resized(width, height);
            let config = after.window_surface_config;
            &&& config.width == width
            &&& config.height == height
            &&& config.usage == kelp.window_surface_config.usage
            &&& config.format == kelp.window_surface_config.format
            &&& config.present_mode == kelp.window_surface_config.present_mode
            &&& config.desired_maximum_frame_latency
                == kelp.window_surface_config.desired_maximum_frame_latency
            &&& config.alpha_mode == kelp.window_surface_config.alpha_mode
            &&& config.view_formats == kelp.window_surface_config.view_formats
            &&& after.imgui_renderer == kelp.imgui_renderer
            &&& after.per_frame == kelp.per_frame
        }),
{
}

/// A plain texture has the size that was asked for, and one of everything else.
pub proof fn law_plain_textures_have_their_size(
    texture: TextureDescriptor,
    width: u32,
    height: u32,
)
    requires
        texture.is_plain(width, height),
    ensures
        texture.width == width,
        texture.height == height,
        texture.depth_or_array_layers == 1,
        texture.mip_level_count == 1,
        texture.sample_count == 1,
        texture.dimension == TextureDimension::D2,
        texture.label is None,
        texture.view_formats@.len() == 0,
{
}

/// A render texture has the size that was asked for, whatever the size of the surface, and the
/// surface's format; it can be drawn to and drawn with.
pub proof fn law_render_textures_have_their_size(
    kelp: Kelp,
    texture: TextureDescriptor,
    width: u32,
    height: u32,
)
    requires
        kelp.is_render_texture(texture, width, height),
    ensures
        texture.width == width,
        texture.height == height,
        texture.depth_or_array_layers == 1,
        texture.mip_level_count == 1,
        texture.sample_count == 1,
        texture.dimension == TextureDimension::D2,
        texture.format == PixelFormat::Surface(kelp.window_surface_config.format),
        texture.usage.texture_binding,
        texture.usage.render_attachment,
        !texture.usage.copy_dst,
        texture.label is None,
        texture.view_formats@.len() == 0,
{
}

// Frames

/// Presenting a frame copies the whole staging buffer to the instance buffer and submits the buffer
/// commands, then the draws, and then the user interface exactly where the frame has it, whether or
/// not the renderer could draw one.
pub proof fn law_frames_are_submitted_whole(
    kelp: Kelp,
    current: Option<Result<(), SurfaceError>>,
    presentation: Result<Presentation, KelpError>,
)
    requires
        kelp.per_frame is Some,
        frame_presented(kelp, current, presentation),
    ensures
        presentation matches Ok(Presentation::Frame { copy, encoders }) && {
            &&& copy.source_offset == 0
            &&& copy.destination_offset == 0
            &&& copy.size == 8 * 1024 * 1024
            &&& encoders@.len() >= 2
            &&& encoders@[0] == FrameEncoder::Buffer
            &&& encoders@[1] == FrameEncoder::Draw
            &&& kelp.per_frame->0.imgui_encoder is None ==> encoders@.len() == 2
            &&& kelp.per_frame->0.imgui_encoder is Some ==> encoders@.len() == 3 && encoders@[2]
                == FrameEncoder::Imgui(kelp.per_frame->0.imgui_encoder->0)
        },
{
}

/// Presenting without a frame shows the window's next one unchanged, or fails as acquiring it did.
pub proof fn law_presenting_without_a_frame(
    kelp: Kelp,
    current: Result<(), SurfaceError>,
    presentation: Result<Presentation, KelpError>,
)
    requires
        kelp.per_frame is None,
        frame_presented(kelp, Some(current), presentation),
    ensures
        current is Ok ==> presentation is Ok && presentation->Ok_0 is Unchanged,
        current is Err ==> presentation is Err && presentation->Err_0 == KelpError::Surface(
            current->Err_0,
        ),
{
}

/// Presenting ends the frame and changes nothing else.
pub proof fn law_presenting_ends_the_frame_only(kelp: Kelp)
    ensures
        kelp.without_frame().per_frame is None,
        kelp.without_frame().window_surface_config == kelp.window_surface_config,
        kelp.without_frame().imgui_renderer == kelp.imgui_renderer,
{
}

/// Drawing the user interface puts it into the frame in progress, where there is a renderer for it,
/// and changes nothing else; in particular the next instance keeps its number.
pub proof fn law_drawing_the_interface_adds_it_only(kelp: Kelp, data: DrawDataId)
    ensures
        ({
            let after = kelp.with_interface(data);
            &&& after.window_surface_config == kelp.window_surface_config
            &&& after.imgui_renderer == kelp.imgui_renderer
            &&& after.per_frame is Some <==> kelp.per_frame is Some
            &&& kelp.per_frame is Some ==> after.per_frame->0.instance_offset
                == kelp.per_frame->0.instance_offset
            &&& kelp.per_frame is Some && kelp.imgui_renderer
                ==> after.per_frame->0.imgui_encoder == Some(data)
            &&& kelp.per_frame is Some && !kelp.imgui_renderer
                ==> after.per_frame->0.imgui_encoder == kelp.per_frame->0.imgui_encoder
        }),
{
}

// Batches

proof fn lemma_agree(
    batches: Seq<InstanceBatch>,
    lookups: Seq<BatchLookup>,
    more: Seq<InstanceBatch>,
    known: Seq<BatchLookup>,
    start: int,
    n: int,
)
    requires
        0 <= n,
        forall|k: int| 0 <= k < n ==> #[trigger] more[k] == batches[k],
        forall|k: int| 0 <= k < n ==> #[trigger] known[k] == lookups[k],
    ensures
        drawn(known, n) == drawn(lookups, n),
        instances_before(more, n) == instances_before(batches, n),
        commands_before(more, known, start, n) == commands_before(batches, lookups, start, n),
    decreases n,
{
    if n > 0 {
        lemma_agree(batches, lookups, more, known, start, n - 1);
        assert(more[n - 1] == batches[n - 1]);
        assert(known[n - 1] == lookups[n - 1]);
        assert(n > 1 ==> known[n - 2] == lookups[n - 2]);
    }
}

proof fn lemma_agree_up_to_failure(
    batches: Seq<InstanceBatch>,
    lookups: Seq<BatchLookup>,
    more: Seq<InstanceBatch>,
    known: Seq<BatchLookup>,
    start: int,
    n: int,
)
    requires
        0 <= n,
        forall|k: int| 0 <= k < n ==> #[trigger] more[k] == batches[k],
        forall|k: int| 0 <= k < n ==> #[trigger] known[k] == lookups[k],
    ensures
        0 <= drawn(lookups, n) <= n,
        drawn(known, n) == drawn(lookups, n),
        instances_before(more, drawn(lookups, n)) == instances_before(batches, drawn(lookups, n)),
        commands_before(more, known, start, drawn(lookups, n)) == commands_before(
            batches,
            lookups,
            start,
            drawn(lookups, n),
        ),
        drawn(lookups, n) < n ==> failure(known, drawn(lookups, n)) == failure(
            lookups,
            drawn(lookups, n),
        ),
{
    let m = drawn(lookups, n);
    lemma_drawn_bounds(lookups, n);
    lemma_agree(batches, lookups, more, known, start, n);
    lemma_agree(batches, lookups, more, known, start, m);
    if m < n {
        assert(known[m] == lookups[m]);
        assert(m > 0 ==> known[m - 1] == lookups[m - 1]);
    }
}

/// A pass over no batches has no commands and succeeds.
pub proof fn law_no_batches_no_commands(lookups: Seq<BatchLookup>, start: u32)
    ensures
        pass_commands(Seq::empty(), lookups, start as int).len() == 0,
        pass_result(Seq::empty(), lookups) is Ok,
        pass_end(Seq::empty(), lookups, start as int) == start,
{
}

/// What one more batch adds to a pass. With the law for no batches this says what any pass is.
///
/// Where the pass failed before, nothing. Otherwise the batch's index is looked at first: where the
/// cache has none, the pass fails. Where it is another than that of the batch before (than the
/// largest one, for the first batch), the pipeline must be there, and is put to use together with
/// the push constants, the vertices and the instances. Then the bind group must be there, and is
/// bound. The batch's instances are drawn last; they follow those drawn before.
pub proof fn law_one_more_batch(
    batches: Seq<InstanceBatch>,
    lookups: Seq<BatchLookup>,
    start: u32,
    batch: InstanceBatch,
    lookup: BatchLookup,
)
    requires
        lookups.len() == batches.len(),
    ensures
        ({
            let s = start as int;
            let commands = pass_commands(batches, lookups, s);
            let result = pass_result(batches, lookups);
            let end = pass_end(batches, lookups, s);
            let next_commands = pass_commands(batches.push(batch), lookups.push(lookup), s);
            let next_result = pass_result(batches.push(batch), lookups.push(lookup));
            let next_end = pass_end(batches.push(batch), lookups.push(lookup), s);
            let current = if lookups.len() == 0 {
                usize::MAX
            } else {
                lookups.last().index->Ok_0
            };
            let index = lookup.index->Ok_0;
            let switched = if index != current {
                seq![
                    PassCommand::SetPipeline { index },
                    PassCommand::SetPushConstants { stage: ShaderStage::Vertex, offset: 0 },
                    PassCommand::SetVertexBuffer { slot: 0 },
                    PassCommand::SetInstanceBindGroup { slot: 0 },
                ]
            } else {
                seq![]
            };
            if result is Err {
                &&& next_commands == commands
                &&& next_result == result
                &&& next_end == end
            } else if lookup.index is Err {
                &&& next_commands == commands
                &&& next_result == Err::<(), CacheError>(lookup.index->Err_0)
                &&& next_end == end
            } else if index != current && lookup.pipeline is Err {
                &&& next_commands == commands
                &&& next_result == Err::<(), CacheError>(lookup.pipeline->Err_0)
                &&& next_end == end
            } else if lookup.bind_group is Err {
                &&& next_commands == commands + switched
                &&& next_result == Err::<(), CacheError>(lookup.bind_group->Err_0)
                &&& next_end == end
            } else {
                &&& next_result is Ok
                &&& next_end == end + batch.instance_count
                &&& end + batch.instance_count <= u32::MAX ==> next_commands == commands + switched
                    + seq![
                    PassCommand::SetTextureBindGroup {
                        slot: 1,
                        texture: batch.texture,
                        smooth: batch.smooth,
                    },
                    PassCommand::Draw {
                        first_vertex: 0,
                        end_vertex: 4,
                        first_instance: end as u32,
                        end_instance: (end + batch.instance_count) as u32,
                    },
                ]
            }
        }),
{
    let s = start as int;
    let n = batches.len() as int;
    let more = batches.push(batch);
    let known = lookups.push(lookup);
    let m = drawn(lookups, n);
    lemma_agree_up_to_failure(batches, lookups, more, known, s, n);
    lemma_drawn_bounds(lookups, n);
    let commands = pass_commands(batches, lookups, s);
    let next_commands = pass_commands(more, known, s);
    assert(known[n] == lookup && more[n] == batch);
    assert(n > 0 ==> known[n - 1] == lookups.last());
    if m < n {
        assert(drawn(known, n + 1) == m);
        assert(known[m] == lookups[m]);
        assert(m > 0 ==> known[m - 1] == lookups[m - 1]);
    } else {
        assert(commands =~= commands_before(batches, lookups, s, n));
        let end = pass_end(batches, lookups, s);
        if failure(known, n) is Some {
            assert(drawn(known, n + 1) == n);
            let rest = failed_commands(known, n);
            assert(next_commands == commands + rest);
            assert(commands + Seq::<PassCommand>::empty() =~= commands);
        } else {
            assert(drawn(known, n + 1) == n + 1);
            assert(instances_before(more, n + 1) == instances_before(more, n)
                + batch.instance_count);
            if end + batch.instance_count <= u32::MAX {
                let rest = batch_commands(more, known, s, n);
                assert(next_commands =~= commands + rest);
                assert(commands + rest =~= commands + switch_commands(known, n)
                    + seq![
                    PassCommand::SetTextureBindGroup {
                        slot: 1,
                        texture: batch.texture,
                        smooth: batch.smooth,
                    },
                    PassCommand::Draw {
                        first_vertex: 0,
                        end_vertex: 4,
                        first_instance: end as u32,
                        end_instance: (end + batch.instance_count) as u32,
                    },
                ]);
            }
        }
    }
}

/// What the caches hold beyond the batches does not matter.
pub proof fn law_only_the_batches_count(
    batches: Seq<InstanceBatch>,
    lookups: Seq<BatchLookup>,
    start: u32,
)
    requires
        lookups.len() >= batches.len(),
    ensures
        ({
            let s = start as int;
            let needed = lookups.take(batches.len() as int);
            &&& pass_commands(batches, lookups, s) == pass_commands(batches, needed, s)
            &&& pass_result(batches, lookups) == pass_result(batches, needed)
            &&& pass_end(batches, lookups, s) == pass_end(batches, needed, s)
        }),
{
    let n = batches.len() as int;
    let needed = lookups.take(n);
    let m = drawn(lookups, n);
    lemma_agree_up_to_failure(batches, lookups, batches, needed, start as int, n);
    if m < n {
        assert(needed[m] == lookups[m]);
        assert(m > 0 ==> needed[m - 1] == lookups[m - 1]);
    }
}

/// A pass fails only with an error that a cache answered.
pub proof fn law_failures_come_from_the_caches(
    batches: Seq<InstanceBatch>,
    lookups: Seq<BatchLookup>,
)
    requires
        lookups.len() >= batches.len(),
        pass_result(batches, lookups) is Err,
    ensures
        exists|i: int|
            0 <= i < batches.len() && {
                let e = pass_result(batches, lookups)->Err_0;
                let lookup = #[trigger] lookups[i];
                ||| lookup.index == Err::<usize, CacheError>(e)
                ||| lookup.pipeline == Err::<(), CacheError>(e)
                ||| lookup.bind_group == Err::<(), CacheError>(e)
            },
{
    let n = batches.len() as int;
    lemma_drawn_bounds(lookups, n);
    let m = drawn(lookups, n);
    let lookup = lookups[m];
    assert(failure(lookups, m) is Some);
}

proof fn lemma_all_drawn(
    batches: Seq<InstanceBatch>,
    lookups: Seq<BatchLookup>,
    start: int,
    n: int,
)
    requires
        0 <= n <= batches.len(),
        forall|i: int| 0 <= i < n ==> (#[trigger] lookups[i]).index is Ok,
        forall|i: int| 0 <= i < n ==> (#[trigger] lookups[i]).pipeline is Ok,
        forall|i: int| 0 <= i < n ==> (#[trigger] lookups[i]).bind_group is Ok,
    ensures
        drawn(lookups, n) == n,
        commands_before(batches, lookups, start, n).filter(|c: PassCommand| c is Draw).len() == n,
        commands_before(batches, lookups, start, n).filter(
            |c: PassCommand| c is SetTextureBindGroup,
        ).len() == n,
    decreases n,
{
    let is_draw = |c: PassCommand| c is Draw;
    let is_bind = |c: PassCommand| c is SetTextureBindGroup;
    if n > 0 {
        let i = n - 1;
        lemma_all_drawn(batches, lookups, start, i);
        let lookup = lookups[i];
        assert(failure(lookups, i) is None);
        let before = commands_before(batches, lookups, start, i);
        let switched = before + switch_commands(lookups, i);
        let bind = PassCommand::SetTextureBindGroup {
            slot: 1,
            texture: batches[i].texture,
            smooth: batches[i].smooth,
        };
        let draw = draw_command(batches, start, i);
        assert(commands_before(batches, lookups, start, n) =~= switched.push(bind).push(draw));
        if switches(lookups, i) {
            let all = pipeline_commands(lookup.index->Ok_0);
            let c1 = before.push(all[0]);
            let c2 = c1.push(all[1]);
            let c3 = c2.push(all[2]);
            assert(switched =~= c3.push(all[3]));
            lemma_filter_push(before, all[0], is_draw);
            lemma_filter_push(c1, all[1], is_draw);
            lemma_filter_push(c2, all[2], is_draw);
            lemma_filter_push(c3, all[3], is_draw);
            lemma_filter_push(before, all[0], is_bind);
            lemma_filter_push(c1, all[1], is_bind);
            lemma_filter_push(c2, all[2], is_bind);
            lemma_filter_push(c3, all[3], is_bind);
        } else {
            assert(switched =~= before);
        }
        lemma_filter_push(switched, bind, is_draw);
        lemma_filter_push(switched.push(bind), draw, is_draw);
        lemma_filter_push(switched, bind, is_bind);
        lemma_filter_push(switched.push(bind), draw, is_bind);
    } else {
        reveal(Seq::filter);
    }
}

proof fn lemma_filter_push(
    commands: Seq<PassCommand>,
    command: PassCommand,
    pred: spec_fn(PassCommand) -> bool,
)
    ensures
        commands.push(command).filter(pred).len() == commands.filter(pred).len() + if pred(command)
        {
            1nat
        } else {
            0nat
        },
{
    reveal(Seq::filter);
    assert(commands.push(command).drop_last() =~= commands);
}

/// Where the caches hold everything that the batches need, the pass succeeds, draws once for each
/// batch, and binds a texture once for each.
pub proof fn law_nothing_else_fails(
    batches: Seq<InstanceBatch>,
    lookups: Seq<BatchLookup>,
    start: u32,
)
    requires
        lookups.len() >= batches.len(),
        forall|i: int| 0 <= i < batches.len() ==> (#[trigger] lookups[i]).index is Ok,
        forall|i: int| 0 <= i < batches.len() ==> (#[trigger] lookups[i]).pipeline is Ok,
        forall|i: int| 0 <= i < batches.len() ==> (#[trigger] lookups[i]).bind_group is Ok,
    ensures
        pass_result(batches, lookups) is Ok,
        pass_commands(batches, lookups, start as int).filter(|c: PassCommand| c is Draw).len()
            == batches.len(),
        pass_commands(batches, lookups, start as int).filter(
            |c: PassCommand| c is SetTextureBindGroup,
        ).len() == batches.len(),
{
    let n = batches.len() as int;
    lemma_all_drawn(batches, lookups, start as int, n);
    assert(pass_commands(batches, lookups, start as int) =~= commands_before(
        batches,
        lookups,
        start as int,
        n,
    ));
}

// Lists

/// The first error is that of the result at `k` where all results before it are fine.
pub proof fn law_first_error_is_the_first(results: Seq<Result<(), CacheError>>, k: int)
    requires
        0 <= k < results.len(),
        results[k] is Err,
        forall|i: int| 0 <= i < k ==> (#[trigger] results[i]) is Ok,
    ensures
        first_error(results) == Some(results[k]->Err_0),
    decreases k,
{
    if k > 0 {
        assert(results[0] is Ok);
        assert forall|i: int| 0 <= i < k - 1 implies (#[trigger] results.skip(1)[i]) is Ok by {
            assert(results[i + 1] is Ok);
        }
        law_first_error_is_the_first(results.skip(1), k - 1);
    }
}

/// There is no first error where all results are fine.
pub proof fn law_no_error_among_successes(results: Seq<Result<(), CacheError>>)
    requires
        forall|i: int| 0 <= i < results.len() ==> (#[trigger] results[i]) is Ok,
    ensures
        first_error(results) is None,
    decreases results.len(),
{
    if results.len() > 0 {
        assert(results[0] is Ok);
        assert forall|i: int| 0 <= i < results.len() - 1 implies (#[trigger] results.skip(1)[i])
            is Ok by {
            assert(results[i + 1] is Ok);
        }
        law_no_error_among_successes(results.skip(1));
    }
}

proof fn lemma_error_is_there(results: Seq<Result<(), CacheError>>) -> (k: int)
    requires
        exists|i: int| 0 <= i < results.len() && (#[trigger] results[i]) is Err,
    ensures
        0 <= k < results.len(),
        results[k] is Err,
        forall|i: int| 0 <= i < k ==> (#[trigger] results[i]) is Ok,
    decreases results.len(),
{
    let n = results.len() - 1;
    if exists|i: int| 0 <= i < n && (#[trigger] results[i]) is Err {
        let earlier = results.drop_last();
        let i = choose|i: int| 0 <= i < n && (#[trigger] results[i]) is Err;
        assert(earlier[i] is Err);
        let k = lemma_error_is_there(earlier);
        assert forall|i: int| 0 <= i < k implies (#[trigger] results[i]) is Ok by {
            assert(earlier[i] is Ok);
        }
        k
    } else {
        n
    }
}

/// A list without batches or without instances succeeds, changes nothing and asks for no work.
pub proof fn law_nothing_to_draw(
    before: Kelp,
    list: RenderList,
    replies: ListReplies,
    after: Kelp,
    outcome: ListOutcome,
)
    requires
        list.batches@.len() == 0 || list.instances@.len() == 0,
        list_rendered(before, list, replies, after, outcome),
    ensures
        after == before,
        outcome.new_frame is None,
        outcome.staging is None,
        outcome.pass is None,
        outcome.result is Ok,
{
}

/// A list with something to draw that finds no frame fails as acquiring one did, changes nothing
/// and asks for no work.
pub proof fn law_no_frame_to_draw_to(
    before: Kelp,
    list: RenderList,
    replies: ListReplies,
    after: Kelp,
    outcome: ListOutcome,
    error: SurfaceError,
)
    requires
        list.batches@.len() > 0,
        list.instances@.len() > 0,
        before.per_frame is None,
        replies.surface == Some(Err::<(), SurfaceError>(error)),
        list_rendered(before, list, replies, after, outcome),
    ensures
        after == before,
        outcome.new_frame is None,
        outcome.staging is None,
        outcome.pass is None,
        outcome.result is Err,
        outcome.result->Err_0 == KelpError::Surface(error),
{
}

/// The number of the frame's next instance: zero where no frame is in progress.
pub proof fn law_numbering_starts_at_zero(kelp: Kelp)
    ensures
        kelp.per_frame is None ==> kelp.start() == 0,
        kelp.per_frame is Some ==> kelp.start() == kelp.per_frame->0.instance_offset,
{
}

/// A list with something to draw and a frame to draw to begins that frame exactly where none is in
/// progress, writes all its instances behind those of the frame, and leaves the user interface, the
/// surface and the renderer for the interface as they are.
pub proof fn law_instances_go_behind_the_frame(
    before: Kelp,
    list: RenderList,
    replies: ListReplies,
    after: Kelp,
    outcome: ListOutcome,
)
    requires
        list.batches@.len() > 0,
        list.instances@.len() > 0,
        before.per_frame is Some || replies.surface == Some(Ok::<(), SurfaceError>(())),
        list_rendered(before, list, replies, after, outcome),
    ensures
        outcome.new_frame is Some <==> before.per_frame is None,
        outcome.new_frame is Some ==> outcome.new_frame->0.buffer_label@
            == "Kelp Buffer Commands"@,
        outcome.new_frame is Some ==> outcome.new_frame->0.draw_label@ == "Kelp Draw Commands"@,
        outcome.staging is Some,
        before.per_frame is None ==> outcome.staging->0.offset == 0,
        before.per_frame is Some ==> outcome.staging->0.offset
            == before.per_frame->0.instance_offset * 144,
        memory_image(outcome.staging->0.bytes@, flatten(list.instances@)),
        outcome.staging->0.bytes@.len() == list.instances@.len() * 144,
        after.per_frame is Some,
        before.per_frame is None ==> after.per_frame->0.imgui_encoder is None,
        before.per_frame is Some ==> after.per_frame->0.imgui_encoder
            == before.per_frame->0.imgui_encoder,
        after.window_surface_config == before.window_surface_config,
        after.imgui_renderer == before.imgui_renderer,
{
    lemma_image_len(outcome.staging->0.bytes@, list.instances@);
}

proof fn lemma_image_len(bytes: Seq<u8>, instances: Seq<InstanceGPU>)
    requires
        memory_image(bytes, flatten(instances)),
    ensures
        bytes.len() == instances.len() * 144,
{
}

/// A list whose target the texture cache does not hold fails with the cache's error: there is no
/// pass, and the next instance keeps its number.
pub proof fn law_no_target_no_pass(
    before: Kelp,
    list: RenderList,
    replies: ListReplies,
    after: Kelp,
    outcome: ListOutcome,
    error: CacheError,
)
    requires
        list.batches@.len() > 0,
        list.instances@.len() > 0,
        before.per_frame is Some || replies.surface == Some(Ok::<(), SurfaceError>(())),
        list.target is Some,
        replies.target == Some(Err::<(), CacheError>(error)),
        list_rendered(before, list, replies, after, outcome),
    ensures
        outcome.pass is None,
        outcome.result is Err,
        outcome.result->Err_0 == KelpError::Cache(error),
        before.per_frame is None ==> after.per_frame->0.instance_offset == 0,
        before.per_frame is Some ==> after.per_frame->0.instance_offset
            == before.per_frame->0.instance_offset,
{
}

/// A list that finds a frame, and its target where it has one, gets a pass. It draws to that
/// target, or to the window where the list has none; it clears the target to the list's colour, or
/// keeps what is there where the list has none, whatever the target; and it has the list's camera.
pub proof fn law_passes_clear_and_aim(
    before: Kelp,
    list: RenderList,
    replies: ListReplies,
    after: Kelp,
    outcome: ListOutcome,
)
    requires
        list.batches@.len() > 0,
        list.instances@.len() > 0,
        before.per_frame is Some || replies.surface == Some(Ok::<(), SurfaceError>(())),
        list.target is None || replies.target == Some(Ok::<(), CacheError>(())),
        list_rendered(before, list, replies, after, outcome),
    ensures
        outcome.pass is Some,
        list.target is None ==> outcome.pass->0.target == PassTarget::Surface,
        list.target is Some ==> outcome.pass->0.target == PassTarget::Texture(list.target->0),
        list.clear is None ==> outcome.pass->0.load == LoadOp::Load,
        list.clear is Some ==> outcome.pass->0.load == LoadOp::Clear(list.clear->0),
        outcome.pass->0.store == StoreOp::Store,
        outcome.pass->0.resolve_target is None,
        memory_image(outcome.pass->0.push_constants@, list.camera@),
        outcome.pass->0.push_constants@.len() == 64,
{
}

/// A list for which a resource could not be made ready fails with the first error of that kind; its
/// pass has no commands, and the next instance keeps its number.
pub proof fn law_missing_resources_stop_the_pass(
    before: Kelp,
    list: RenderList,
    replies: ListReplies,
    after: Kelp,
    outcome: ListOutcome,
    k: int,
)
    requires
        list.batches@.len() > 0,
        list.instances@.len() > 0,
        before.per_frame is Some || replies.surface == Some(Ok::<(), SurfaceError>(())),
        list.target is None || replies.target == Some(Ok::<(), CacheError>(())),
        0 <= k < replies.resources@.len(),
        replies.resources@[k] is Err,
        forall|i: int| 0 <= i < k ==> (#[trigger] replies.resources@[i]) is Ok,
        list_rendered(before, list, replies, after, outcome),
    ensures
        outcome.result is Err,
        outcome.result->Err_0 == KelpError::Cache(replies.resources@[k]->Err_0),
        outcome.pass->0.commands@.len() == 0,
        before.per_frame is None ==> after.per_frame->0.instance_offset == 0,
        before.per_frame is Some ==> after.per_frame->0.instance_offset
            == before.per_frame->0.instance_offset,
{
    law_first_error_is_the_first(replies.resources@, k);
}

/// A list that finds everything it needs is the pass over its batches, which begins with the number
/// of the frame's next instance; the next number is the one after the last instance drawn.
pub proof fn law_lists_are_passes(
    before: Kelp,
    list: RenderList,
    replies: ListReplies,
    after: Kelp,
    outcome: ListOutcome,
    start: u32,
)
    requires
        list.batches@.len() > 0,
        list.instances@.len() > 0,
        before.per_frame is Some || replies.surface == Some(Ok::<(), SurfaceError>(())),
        list.target is None || replies.target == Some(Ok::<(), CacheError>(())),
        forall|i: int|
            0 <= i < replies.resources@.len() ==> (#[trigger] replies.resources@[i]) is Ok,
        before.per_frame is None ==> start == 0,
        before.per_frame is Some ==> start == before.per_frame->0.instance_offset,
        list_rendered(before, list, replies, after, outcome),
    ensures
        outcome.pass->0.commands@ == pass_commands(list.batches@, replies.lookups@, start as int),
        after.per_frame->0.instance_offset == pass_end(
            list.batches@,
            replies.lookups@,
            start as int,
        ),
        outcome.result is Ok <==> pass_result(list.batches@, replies.lookups@) is Ok,
        outcome.result is Err ==> outcome.result->Err_0 == KelpError::Cache(
            pass_result(list.batches@, replies.lookups@)->Err_0,
        ),
{
    law_no_error_among_successes(replies.resources@);
}

/// A list for which everything outside goes well succeeds, and draws once for each batch.
pub proof fn law_good_answers_make_success(
    before: Kelp,
    list: RenderList,
    replies: ListReplies,
    after: Kelp,
    outcome: ListOutcome,
)
    requires
        list.batches@.len() > 0,
        list.instances@.len() > 0,
        before.per_frame is Some || replies.surface == Some(Ok::<(), SurfaceError>(())),
        list.target is None || replies.target == Some(Ok::<(), CacheError>(())),
        forall|i: int|
            0 <= i < replies.resources@.len() ==> (#[trigger] replies.resources@[i]) is Ok,
        replies.lookups@.len() >= list.batches@.len(),
        forall|i: int|
            0 <= i < list.batches@.len() ==> (#[trigger] replies.lookups@[i]).index is Ok,
        forall|i: int|
            0 <= i < list.batches@.len() ==> (#[trigger] replies.lookups@[i]).pipeline is Ok,
        forall|i: int|
            0 <= i < list.batches@.len() ==> (#[trigger] replies.lookups@[i]).bind_group is Ok,
        list_rendered(before, list, replies, after, outcome),
    ensures
        outcome.result is Ok,
        outcome.pass is Some,
        outcome.pass->0.commands@.filter(|c: PassCommand| c is Draw).len() == list.batches@.len(),
{
    law_no_error_among_successes(replies.resources@);
    law_nothing_else_fails(list.batches@, replies.lookups@, before.start());
}

/// What is asked for a list, in this order: nothing where there is nothing to draw; a frame where
/// none is in progress; the target where the list has one; the pipeline and the bind group of each
/// batch in turn; what the caches hold for each batch. After a failure nothing is asked.
pub proof fn law_questions_are_in_order(kelp: Kelp, list: RenderList, replies: ListReplies)
    ensures
        ({
            let q = kelp.question(list, replies);
            let n = list.batches@.len();
            let k = replies.resources@.len();
            let l = replies.lookups@.len();
            if n == 0 || list.instances@.len() == 0 {
                q is Nothing
            } else if kelp.per_frame is None && replies.surface is None {
                q is Surface
            } else if kelp.per_frame is None && replies.surface->0 is Err {
                q is Nothing
            } else if list.target is Some && replies.target is None {
                q == Question::Target { texture: list.target->0 }
            } else if list.target is Some && replies.target->0 is Err {
                q is Nothing
            } else if exists|i: int| 0 <= i < k && (#[trigger] replies.resources@[i]) is Err {
                q is Nothing
            } else if k < 2 * n && k % 2 == 0 {
                q == Question::Pipeline { blend_mode: list.batches@[k as int / 2].blend_mode }
            } else if k < 2 * n {
                q == Question::BindGroup {
                    texture: list.batches@[k as int / 2].texture,
                    smooth: list.batches@[k as int / 2].smooth,
                }
            } else if l < n {
                q == Question::Lookup { batch: list.batches@[l as int] }
            } else {
                q is Nothing
            }
        }),
{
    let results = replies.resources@;
    if exists|i: int| 0 <= i < results.len() && (#[trigger] results[i]) is Err {
        let k = lemma_error_is_there(results);
        law_first_error_is_the_first(results, k);
    } else {
        law_no_error_among_successes(results);
    }
}

/// When a list fits: always where it does not get as far as writing its instances; otherwise where
/// the frame's instances and its own take no more than 8 MiB, and, where it gets as far as drawing,
/// the instances that are drawn can be numbered.
pub proof fn law_lists_fit_where_there_is_room(
    kelp: Kelp,
    list: RenderList,
    replies: ListReplies,
    start: u32,
)
    requires
        kelp.per_frame is None ==> start == 0,
        kelp.per_frame is Some ==> start == kelp.per_frame->0.instance_offset,
    ensures
        ({
            let staged = {
                &&& list.batches@.len() > 0
                &&& list.instances@.len() > 0
                &&& kelp.per_frame is Some || (replies.surface is Some && replies.surface->0 is Ok)
            };
            let drawn = {
                &&& list.target is None || (replies.target is Some && replies.target->0 is Ok)
                &&& forall|i: int|
                    0 <= i < replies.resources@.len() ==> (#[trigger] replies.resources@[i]) is Ok
            };
            kelp.fits(list, replies) <==> (staged ==> {
                &&& (start + list.instances@.len()) * 144 <= 8 * 1024 * 1024
                &&& drawn ==> pass_end(list.batches@, replies.lookups@, start as int) <= u32::MAX
            })
        }),
{
    let results = replies.resources@;
    if exists|i: int| 0 <= i < results.len() && (#[trigger] results[i]) is Err {
        let k = lemma_error_is_there(results);
        law_first_error_is_the_first(results, k);
    } else {
        law_no_error_among_successes(results);
    }
}

} // verus!
