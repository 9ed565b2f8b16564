//! What every single call promises its caller, whatever it was called with.

use crate::batches::{
    measure_batches, pass_commands, pass_end, pass_result, record_batches, BatchLookup,
    InstanceBatch, PassCommand, Recording,
};
use crate::bytes::{flatten, memory_image};
use crate::descriptors::{PixelFormat, PresentMode, SurfaceConfiguration, TextureDescriptor};
use crate::error::{CacheError, KelpError, SurfaceError};
use crate::kelp::{
    list_rendered, AdapterRequest, BufferWrite, DeviceRequest, DrawDataId, FrameEncoder, ImguiPass,
    Kelp, Presentation, TextureUpload,
};
use crate::limits::DeviceLimits;
use crate::promises::{
    law_buffers_serve_the_draws, law_everything_draws_to_the_surface,
    law_frames_are_submitted_whole, law_layouts_serve_the_shaders, law_nothing_else_fails,
    law_only_resolutions_are_taken_over, law_plain_textures_have_their_size,
    law_questions_are_in_order, law_render_textures_have_their_size,
    law_samplers_are_sharp_and_smooth, law_starting_keeps_the_surface,
};
use crate::render_list::{
    first_error, ListOutcome, ListReplies, LoadOp, PassTarget, Question, RenderList, StoreOp,
};
use crate::setup::Setup;
use vstd::prelude::*;

verus! {

/// An adapter is looked for among the best backends, for the window's surface.
pub proof fn law_adapter_request(request: AdapterRequest)
    requires
        call_ensures(Kelp::adapter_request, (), request),
    ensures
        request.primary_backends,
        request.compatible_with_surface,
{
}

/// A device is asked for exactly where there is an adapter, with push constants and without a name.
pub proof fn law_device_request(
    adapter: Option<DeviceLimits>,
    request: Result<DeviceRequest, KelpError>,
)
    requires
        call_ensures(Kelp::device_request, (adapter,), request),
    ensures
        request is Ok <==> adapter is Some,
        request is Err ==> request->Err_0 is NoAdapter,
        request is Ok ==> request->Ok_0.label is None,
        request is Ok ==> request->Ok_0.push_constants,
        request is Ok ==> request->Ok_0.limits == adapter->0.requested(),
{
}

/// Taking over resolutions takes them from the argument and leaves the rest.
pub proof fn law_using_resolution(limits: DeviceLimits, other: DeviceLimits, taken: DeviceLimits)
    requires
        call_ensures(DeviceLimits::using_resolution, (limits, other), taken),
    ensures
        taken.max_texture_dimension_1d == other.max_texture_dimension_1d,
        taken.max_texture_dimension_2d == other.max_texture_dimension_2d,
        taken.max_texture_dimension_3d == other.max_texture_dimension_3d,
        taken.max_push_constant_size == limits.max_push_constant_size,
        taken.max_buffer_size == limits.max_buffer_size,
{
    law_only_resolutions_are_taken_over(limits, other);
}

/// Starting succeeds exactly where there are an adapter and a device. The surface is then as it is
/// by default but waits for the display, no frame is in progress, and everything that is created
/// serves the shaders and draws to the surface's format.
pub proof fn law_new(
    adapter: Option<DeviceLimits>,
    device: Result<SurfaceConfiguration, String>,
    imgui: bool,
    started: Result<(Kelp, Setup), KelpError>,
)
    requires
        call_ensures(Kelp::new, (adapter, device, imgui), started),
    ensures
        started is Ok <==> adapter is Some && device is Ok,
        adapter is None ==> started->Err_0 is NoAdapter,
        adapter is Some && device is Err ==> started->Err_0 == KelpError::NoDevice(
            device->Err_0,
        ),
        started is Ok ==> {
            let (kelp, setup) = started->Ok_0;
            let config = kelp.window_surface_config;
            let default = device->Ok_0;
            &&& config.width == default.width
            &&& config.height == default.height
            &&& config.usage == default.usage
            &&& config.format == default.format
            &&& config.desired_maximum_frame_latency == default.desired_maximum_frame_latency
            &&& config.alpha_mode == default.alpha_mode
            &&& config.view_formats == default.view_formats
            &&& config.present_mode == PresentMode::Fifo
            &&& kelp.imgui_renderer == imgui
            &&& kelp.per_frame is None
            &&& setup.layouts_fit() && setup.buffers_fit() && setup.samplers_fit()
            &&& setup.pipeline_format == default.format
            &&& setup.imgui_format is Some <==> imgui
            &&& imgui ==> setup.imgui_format->0 == default.format
        },
{
    if started is Ok {
        law_starting_keeps_the_surface(device->Ok_0, imgui);
        law_everything_draws_to_the_surface(started->Ok_0.1, device->Ok_0.format, imgui);
    }
}

/// What is created for a format: one binding for the vertex shader and two for the fragment shader,
/// two instance buffers of the same 8 MiB, four corners, and two different samplers.
pub proof fn law_setup(format: wgpu::TextureFormat, imgui: bool, setup: Setup)
    requires
        call_ensures(Setup::new, (format, imgui), setup),
    ensures
        setup.vertex_bind_layout.entries@.len() == 1,
        setup.fragment_texture_bind_layout.entries@.len() == 2,
        setup.instance_buffer.size == 8 * 1024 * 1024,
        setup.instance_staging_buffer.size == 8 * 1024 * 1024,
        setup.vertex_buffer.contents@.len() == 32,
        setup.point_sampler.mag_filter != setup.linear_sampler.mag_filter,
        setup.point_sampler.min_filter != setup.linear_sampler.min_filter,
        setup.pipeline_format == format,
        setup.imgui_format is Some <==> imgui,
        imgui ==> setup.imgui_format->0 == format,
        setup.layouts_fit(),
        setup.buffers_fit(),
        setup.samplers_fit(),
{
    law_layouts_serve_the_shaders(setup);
    law_buffers_serve_the_draws(setup);
    law_samplers_are_sharp_and_smooth(setup);
    law_everything_draws_to_the_surface(setup, format, imgui);
}

/// A render texture has the size that was asked for and the format of the surface, and can be drawn
/// to and drawn with.
pub proof fn law_create_render_texture(
    kelp: Kelp,
    width: u32,
    height: u32,
    texture: TextureDescriptor,
)
    requires
        call_ensures(Kelp::create_render_texture, (&kelp, width, height), texture),
    ensures
        texture.width == width,
        texture.height == height,
        texture.depth_or_array_layers == 1,
        texture.mip_level_count == 1,
        texture.sample_count == 1,
        texture.format == PixelFormat::Surface(kelp.window_surface_config.format),
        texture.usage.texture_binding,
        texture.usage.render_attachment,
        !texture.usage.copy_dst,
        texture.view_formats@.len() == 0,
{
    law_render_textures_have_their_size(kelp, texture, width, height);
}

/// A texture with data has the size that was asked for, holds sRGB colours whatever the surface
/// does, can be drawn with and copied to but not drawn to, and is filled with the data as it is.
pub proof fn law_create_texture_with_data(
    kelp: Kelp,
    width: u32,
    height: u32,
    data: &[u8],
    upload: TextureUpload<'_>,
)
    requires
        call_ensures(Kelp::create_texture_with_data, (&kelp, width, height, data), upload),
    ensures
        upload.descriptor.width == width,
        upload.descriptor.height == height,
        upload.descriptor.depth_or_array_layers == 1,
        upload.descriptor.mip_level_count == 1,
        upload.descriptor.sample_count == 1,
        upload.descriptor.format == PixelFormat::Rgba8UnormSrgb,
        upload.descriptor.usage.texture_binding,
        !upload.descriptor.usage.render_attachment,
        upload.descriptor.usage.copy_dst,
        upload.descriptor.view_formats@.len() == 0,
        upload.data@ == data@,
{
    law_plain_textures_have_their_size(upload.descriptor, width, height);
}

/// A buffer is written from its start, with the words of all rows.
pub proof fn law_update_buffer<const N: usize>(kelp: Kelp, data: &[[u32; N]], write: BufferWrite)
    requires
        call_ensures(Kelp::update_buffer::<N>, (&kelp, data), write),
    ensures
        write.offset == 0,
        memory_image(write.bytes@, flatten(data@)),
        write.bytes@.len() == 4 * (data@.len() * N),
{
}

/// A buffer is written from its start, with all the bytes.
pub proof fn law_write_at_start(bytes: Vec<u8>, write: BufferWrite)
    requires
        call_ensures(Kelp::write_at_start, (bytes,), write),
    ensures
        write.offset == 0,
        write.bytes@ == bytes@,
{
}

/// Setting the size gives the surface that size, and the caller the configuration to set; all else
/// stays.
pub proof fn law_set_surface_size(
    kelp: &mut Kelp,
    width: u32,
    height: u32,
    config: &SurfaceConfiguration,
)
    requires
        call_ensures(Kelp::set_surface_size, (kelp, width, height), config),
    ensures
        *config == final(kelp).window_surface_config,
        config.width == width,
        config.height == height,
        config.usage == old(kelp).window_surface_config.usage,
        config.format == old(kelp).window_surface_config.format,
        config.present_mode == old(kelp).window_surface_config.present_mode,
        config.desired_maximum_frame_latency
            == old(kelp).window_surface_config.desired_maximum_frame_latency,
        config.alpha_mode == old(kelp).window_surface_config.alpha_mode,
        config.view_formats == old(kelp).window_surface_config.view_formats,
        final(kelp).per_frame == old(kelp).per_frame,
        final(kelp).imgui_renderer == old(kelp).imgui_renderer,
{
}

/// Presenting ends the frame. One that was in progress is submitted whole: buffer commands, draws,
/// and the user interface where the frame has it. Without one, the result is as acquiring the
/// window's next frame went.
pub proof fn law_present_frame(
    kelp: &mut Kelp,
    current: Option<Result<(), SurfaceError>>,
    presentation: Result<Presentation, KelpError>,
)
    requires
        old(kelp).per_frame is Some || current is Some,
        call_ensures(Kelp::present_frame, (kelp, current), presentation),
    ensures
        final(kelp).per_frame is None,
        final(kelp).window_surface_config == old(kelp).window_surface_config,
        final(kelp).imgui_renderer == old(kelp).imgui_renderer,
        old(kelp).per_frame is Some ==> (presentation matches Ok(
            Presentation::Frame { copy, encoders },
        ) && {
            &&& copy.source_offset == 0 && copy.destination_offset == 0
            &&& copy.size == 8 * 1024 * 1024
            &&& encoders@.len() >= 2
            &&& encoders@[0] == FrameEncoder::Buffer
            &&& encoders@[1] == FrameEncoder::Draw
            &&& old(kelp).per_frame->0.imgui_encoder is None ==> encoders@.len() == 2
            &&& old(kelp).per_frame->0.imgui_encoder is Some ==> encoders@.len() == 3
                && encoders@[2] == FrameEncoder::Imgui(old(kelp).per_frame->0.imgui_encoder->0)
        }),
        old(kelp).per_frame is None && current->0 is Ok ==> presentation is Ok
            && presentation->Ok_0 is Unchanged,
        old(kelp).per_frame is None && current->0 is Err ==> presentation is Err
            && presentation->Err_0 == KelpError::Surface(current->0->Err_0),
{
    if old(kelp).per_frame is Some {
        law_frames_are_submitted_whole(*old(kelp), current, presentation);
    }
}

/// The user interface is drawn exactly where there are a renderer for it and a frame. It is drawn
/// over what the window's frame shows, and takes the place of an earlier one.
pub proof fn law_render_imgui(kelp: &mut Kelp, data: DrawDataId, pass: Option<ImguiPass>)
    requires
        call_ensures(Kelp::render_imgui, (kelp, data), pass),
    ensures
        pass is Some <==> old(kelp).imgui_renderer && old(kelp).per_frame is Some,
        pass is Some ==> {
            &&& pass->0.label@ == "Kelp Imgui Commands"@
            &&& pass->0.target == PassTarget::Surface
            &&& pass->0.resolve_target is None
            &&& pass->0.load == LoadOp::Load
            &&& pass->0.store == StoreOp::Store
            &&& pass->0.draw_data == data
            &&& final(kelp).per_frame is Some
            &&& final(kelp).per_frame->0.imgui_encoder == Some(data)
            &&& final(kelp).per_frame->0.instance_offset == old(kelp).per_frame->0.instance_offset
        },
        pass is None ==> final(kelp).per_frame == old(kelp).per_frame,
        final(kelp).window_surface_config == old(kelp).window_surface_config,
        final(kelp).imgui_renderer == old(kelp).imgui_renderer,
{
}

/// Drawing a list does what is promised of lists.
pub proof fn law_render_list(
    kelp: &mut Kelp,
    list: RenderList,
    replies: ListReplies,
    outcome: ListOutcome,
)
    requires
        call_ensures(Kelp::render_list, (kelp, &list, &replies), outcome),
    ensures
        list_rendered(*old(kelp), list, replies, *final(kelp), outcome),
{
}

/// What is asked for a list is what its order of questions says; where there is nothing to draw, or
/// something failed, nothing is.
pub proof fn law_next_question(
    kelp: Kelp,
    list: RenderList,
    replies: ListReplies,
    question: Question,
)
    requires
        call_ensures(Kelp::next_question, (&kelp, &list, &replies), question),
    ensures
        question == kelp.question(list, replies),
        list.batches@.len() == 0 || list.instances@.len() == 0 ==> question is Nothing,
        question is Surface ==> kelp.per_frame is None && replies.surface is None,
{
    law_questions_are_in_order(kelp, list, replies);
}

/// The test for room answers whether the list fits.
pub proof fn law_list_fits(kelp: Kelp, list: RenderList, replies: ListReplies, fits: bool)
    requires
        call_ensures(Kelp::list_fits, (&kelp, &list, &replies), fits),
    ensures
        fits == kelp.fits(list, replies),
{
}

/// Recording batches gives the pass over them; where the caches hold everything, it succeeds and
/// draws once for each batch.
pub proof fn law_record_batches(
    batches: Vec<InstanceBatch>,
    lookups: Vec<BatchLookup>,
    start: u32,
    recording: Recording,
)
    requires
        lookups@.len() >= batches@.len(),
        call_ensures(record_batches, (&batches, &lookups, start), recording),
    ensures
        recording.commands@ == pass_commands(batches@, lookups@, start as int),
        recording.result == pass_result(batches@, lookups@),
        recording.end == pass_end(batches@, lookups@, start as int),
        (forall|i: int|
            0 <= i < batches@.len() ==> (#[trigger] lookups@[i]).index is Ok && lookups@[i].pipeline
                is Ok && lookups@[i].bind_group is Ok) ==> recording.result is Ok
            && recording.commands@.filter(|c: PassCommand| c is Draw).len() == batches@.len(),
{
    if forall|i: int|
        0 <= i < batches@.len() ==> (#[trigger] lookups@[i]).index is Ok && lookups@[i].pipeline
            is Ok && lookups@[i].bind_group is Ok {
        law_nothing_else_fails(batches@, lookups@, start);
    }
}

/// Measuring batches gives the number after the last instance that recording them draws, wherever
/// that is a number.
pub proof fn law_measure_batches(
    batches: Vec<InstanceBatch>,
    lookups: Vec<BatchLookup>,
    start: u32,
    end: Option<u32>,
)
    requires
        call_ensures(measure_batches, (&batches, &lookups, start), end),
    ensures
        end is Some <==> pass_end(batches@, lookups@, start as int) <= u32::MAX,
        end is Some ==> end->0 == pass_end(batches@, lookups@, start as int),
{
}

/// At first nothing is known.
pub proof fn law_no_replies(replies: ListReplies)
    requires
        call_ensures(ListReplies::new, (), replies),
    ensures
        replies.surface is None,
        replies.target is None,
        replies.resources@.len() == 0,
        replies.lookups@.len() == 0,
{
}

/// The error among the resources is the first one.
pub proof fn law_resource_error(replies: ListReplies, error: Option<CacheError>)
    requires
        call_ensures(ListReplies::resource_error, (&replies,), error),
    ensures
        error == first_error(replies.resources@),
{
}

} // verus!
