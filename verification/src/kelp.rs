//! The renderer's state and its operations.

use crate::batches::{
    measure_batches, pass_commands, pass_end, pass_result, record_batches, PassCommand, Recording,
};
use crate::bytes::{bytes_of, cast_slice, flatten, memory_image, INSTANCE_SIZE};
use crate::descriptors::{
    PixelFormat, PresentMode, SurfaceConfiguration, TextureDescriptor, TextureDimension,
    TextureUse,
};
use crate::error::{KelpError, SurfaceError};
use crate::limits::DeviceLimits;
use crate::render_list::{
    first_error, resource_question, FrameEncoders, ListOutcome, ListReplies, LoadOp, PassTarget,
    Question, RenderList, RenderPass, StagingWrite, StoreOp,
};
use crate::setup::{Setup, INSTANCE_BUFFER_SIZE};
use vstd::prelude::*;

verus! {

/// The contents of the user interface at one time, by the number under which the caller keeps
/// them.
#[derive(Clone, Copy, Debug, PartialEq, Eq, Structural)]
pub struct DrawDataId {
    pub key: u64,
}

/// A frame that is being drawn.
#[derive(Clone, Copy, Debug, PartialEq, Eq, Structural)]
pub struct PerFrame {
    /// The number that the next instance gets.
    pub instance_offset: u32,
    /// What the frame's encoder with the user interface shows, if there is one.
    pub imgui_encoder: Option<DrawDataId>,
}

/// The renderer.
#[derive(Debug, PartialEq, Eq)]
pub struct Kelp {
    pub window_surface_config: SurfaceConfiguration,
    /// Whether there is a renderer of the user interface.
    pub imgui_renderer: bool,
    /// The frame in progress, if there is one.
    pub per_frame: Option<PerFrame>,
}

/// Which adapter to look for.
#[derive(Clone, Copy, Debug, PartialEq, Eq, Structural)]
pub struct AdapterRequest {
    /// Only through the backends that the graphics API supports best.
    pub primary_backends: bool,
    /// Only one that can draw to the window's surface.
    pub compatible_with_surface: bool,
}

/// What to ask of the adapter for a device.
#[derive(Clone, Copy, Debug, PartialEq, Eq)]
pub struct DeviceRequest {
    pub label: Option<&'static str>,
    /// Whether push constants are needed.
    pub push_constants: bool,
    pub limits: DeviceLimits,
}

/// The command encoders of a frame.
#[derive(Clone, Copy, Debug, PartialEq, Eq, Structural)]
pub enum FrameEncoder {
    Buffer,
    Draw,
    /// The one that shows these contents.
    Imgui(DrawDataId),
}

/// A copy from the start of the staging buffer to the start of the instance buffer.
#[derive(Clone, Copy, Debug, PartialEq, Eq, Structural)]
pub struct BufferCopy {
    pub source_offset: u64,
    pub destination_offset: u64,
    pub size: u64,
}

/// How a frame reaches the screen.
#[derive(Debug, PartialEq, Eq)]
pub enum Presentation {
    /// Add `copy` to the buffer encoder, submit `encoders` in order, present the frame.
    Frame { copy: BufferCopy, encoders: Vec<FrameEncoder> },
    /// Present the window's next frame as it is.
    Unchanged,
}

/// A pass that draws the user interface.
#[derive(Clone, Copy, Debug, PartialEq, Eq)]
pub struct ImguiPass {
    /// The name of the pass's command encoder.
    pub label: &'static str,
    pub target: PassTarget,
    /// Where several samples of a pixel are brought together, if they are.
    pub resolve_target: Option<PassTarget>,
    pub load: LoadOp,
    pub store: StoreOp,
    /// What to draw.
    pub draw_data: DrawDataId,
}

/// A texture to create, and its texels.
#[derive(Debug, PartialEq, Eq)]
pub struct TextureUpload<'a> {
    pub descriptor: TextureDescriptor,
    pub data: &'a [u8],
}

/// Bytes to write to a buffer.
#[derive(Debug, PartialEq, Eq)]
pub struct BufferWrite {
    pub offset: u64,
    pub bytes: Vec<u8>,
}

/// The encoders of `frame`, in the order in which they are submitted.
pub open spec fn frame_encoders(frame: PerFrame) -> Seq<FrameEncoder> {
    match frame.imgui_encoder {
        Some(data) => seq![FrameEncoder::Buffer, FrameEncoder::Draw, FrameEncoder::Imgui(data)],
        None => seq![FrameEncoder::Buffer, FrameEncoder::Draw],
    }
}

/// What [`Kelp::render_list`] does: from the state `before`, with the answers `replies`, to the
/// state `after` and the work in `outcome`.
pub open spec fn list_rendered(
    before: Kelp,
    list: RenderList,
    replies: ListReplies,
    after: Kelp,
    outcome: ListOutcome,
) -> bool {
    &&& after.window_surface_config == before.window_surface_config
    &&& after.imgui_renderer == before.imgui_renderer
    // Nothing happens where there is nothing to draw or no frame to draw to.
    &&& !before.stages(list, replies) ==> {
        &&& after == before
        &&& outcome.new_frame is None
        &&& outcome.staging is None
    }
    &&& list.is_empty() ==> outcome.result is Ok
    &&& !list.is_empty() && !before.stages(list, replies) ==> outcome.result == Err::<
        (),
        KelpError,
    >(KelpError::Surface(replies.surface->0->Err_0))
    // Otherwise there is a frame, and the instances are written.
    &&& before.stages(list, replies) ==> {
        &&& outcome.new_frame is Some <==> before.per_frame is None
        &&& outcome.new_frame matches Some(encoders) ==> {
            &&& encoders.buffer_label@ == "Kelp Buffer Commands"@
            &&& encoders.draw_label@ == "Kelp Draw Commands"@
        }
        &&& outcome.staging is Some
        &&& outcome.staging->0.offset == before.start() * INSTANCE_SIZE
        &&& memory_image(outcome.staging->0.bytes@, flatten(list.instances@))
        &&& after.per_frame is Some
        &&& after.per_frame->0.imgui_encoder == match before.per_frame {
            Some(frame) => frame.imgui_encoder,
            None => None,
        }
    }
    // Without its target the list ends there.
    &&& outcome.pass is Some <==> before.passes(list, replies)
    &&& before.stages(list, replies) && !before.passes(list, replies) ==> {
        &&& outcome.result == Err::<(), KelpError>(
            KelpError::Cache(replies.target->0->Err_0),
        )
        &&& after.start() == before.start()
    }
    // Otherwise there is a pass.
    &&& outcome.pass matches Some(pass) ==> {
        &&& pass.target == match list.target {
            Some(texture) => PassTarget::Texture(texture),
            None => PassTarget::Surface,
        }
        &&& pass.load == match list.clear {
            Some(color) => LoadOp::Clear(color),
            None => LoadOp::Load,
        }
        &&& pass.resolve_target is None
        &&& pass.store == StoreOp::Store
        &&& memory_image(pass.push_constants@, list.camera@)
    }
    // It stays without commands where a resource could not be made ready.
    &&& before.passes(list, replies) && !before.draws(list, replies) ==> {
        &&& outcome.result == Err::<(), KelpError>(
            KelpError::Cache(first_error(replies.resources@)->0),
        )
        &&& outcome.pass->0.commands@ == Seq::<PassCommand>::empty()
        &&& after.start() == before.start()
    }
    // Otherwise it draws the batches.
    &&& before.draws(list, replies) ==> {
        let start = before.start() as int;
        &&& outcome.result == match pass_result(list.batches@, replies.lookups@) {
            Ok(_) => Ok::<(), KelpError>(()),
            Err(e) => Err(KelpError::Cache(e)),
        }
        &&& outcome.pass->0.commands@ == pass_commands(
            list.batches@,
            replies.lookups@,
            start,
        )
        &&& after.start() == pass_end(list.batches@, replies.lookups@, start)
    }
}

/// What [`Kelp::present_frame`] hands out in the state `before`: all of the frame in progress,
/// with every byte of the staging buffer copied first, or else the window's next frame, if it
/// could be acquired.
pub open spec fn frame_presented(
    before: Kelp,
    current: Option<Result<(), SurfaceError>>,
    presentation: Result<Presentation, KelpError>,
) -> bool {
    match before.per_frame {
        Some(frame) => {
            &&& presentation matches Ok(Presentation::Frame { copy, encoders })
            &&& copy == BufferCopy {
                source_offset: 0,
                destination_offset: 0,
                size: INSTANCE_BUFFER_SIZE,
            }
            &&& encoders@ == frame_encoders(frame)
        },
        None => match current->0 {
            Ok(_) => presentation == Ok::<_, KelpError>(Presentation::Unchanged),
            Err(e) => presentation == Err::<Presentation, _>(KelpError::Surface(e)),
        },
    }
}

impl Kelp {
    /// A renderer that has not drawn anything, on a surface that is like `surface` by default.
    pub open spec fn initial(surface: SurfaceConfiguration, imgui: bool) -> Kelp {
        Kelp {
            window_surface_config: SurfaceConfiguration {
                present_mode: PresentMode::Fifo,
                ..surface
            },
            imgui_renderer: imgui,
            per_frame: None,
        }
    }

    /// This renderer with a surface of another size.
    pub open spec fn resized(self, width: u32, height: u32) -> Kelp {
        Kelp {
            window_surface_config: SurfaceConfiguration {
                width,
                height,
                ..self.window_surface_config
            },
            ..self
        }
    }

    /// This renderer with these contents of the user interface, and no earlier ones, in the frame
    /// in progress, where it can have that.
    pub open spec fn with_interface(self, data: DrawDataId) -> Kelp {
        if self.imgui_renderer && self.per_frame is Some {
            Kelp {
                per_frame: Some(PerFrame { imgui_encoder: Some(data), ..self.per_frame->0 }),
                ..self
            }
        } else {
            self
        }
    }

    /// This renderer between two frames.
    pub open spec fn without_frame(self) -> Kelp {
        Kelp { per_frame: None, ..self }
    }

    /// The number that the next instance gets.
    pub open spec fn start(self) -> u32 {
        match self.per_frame {
            Some(frame) => frame.instance_offset,
            None => 0,
        }
    }

    /// `list` has something to draw and there is a frame for it.
    pub open spec fn stages(self, list: RenderList, replies: ListReplies) -> bool {
        &&& !list.is_empty()
        &&& self.per_frame is Some || (replies.surface is Some && replies.surface->0 is Ok)
    }

    /// `list` gets as far as its render pass.
    pub open spec fn passes(self, list: RenderList, replies: ListReplies) -> bool {
        &&& self.stages(list, replies)
        &&& list.target is None || (replies.target is Some && replies.target->0 is Ok)
    }

    /// `list` gets as far as its first batch.
    pub open spec fn draws(self, list: RenderList, replies: ListReplies) -> bool {
        &&& self.passes(list, replies)
        &&& first_error(replies.resources@) is None
    }

    /// What to find out next for `list`: a frame if none is in progress, the target if it is a
    /// texture, the resources of each batch, and what the caches hold for each batch. Where a frame,
    /// the target or a resource fails, nothing more is asked for; looking into the caches changes
    /// nothing, so it is done for all batches.
    pub open spec fn question(self, list: RenderList, replies: ListReplies) -> Question {
        if list.is_empty() {
            Question::Nothing
        } else if !self.stages(list, replies) {
            if replies.surface is None {
                Question::Surface
            } else {
                Question::Nothing
            }
        } else if !self.passes(list, replies) {
            if replies.target is None {
                Question::Target { texture: list.target->0 }
            } else {
                Question::Nothing
            }
        } else if !self.draws(list, replies) {
            Question::Nothing
        } else if replies.resources@.len() < 2 * list.batches@.len() {
            resource_question(list.batches@, replies.resources@.len() as int)
        } else if replies.lookups@.len() < list.batches@.len() {
            Question::Lookup { batch: list.batches@[replies.lookups@.len() as int] }
        } else {
            Question::Nothing
        }
    }

    /// The instances of `list` fit into the staging buffer behind those of the frame, and the
    /// instances that its batches draw can be numbered.
    pub open spec fn fits(self, list: RenderList, replies: ListReplies) -> bool {
        self.stages(list, replies) ==> {
            &&& (self.start() + list.instances@.len()) * INSTANCE_SIZE <= INSTANCE_BUFFER_SIZE
            &&& self.draws(list, replies) ==> pass_end(
                list.batches@,
                replies.lookups@,
                self.start() as int,
            ) <= u32::MAX
        }
    }

    /// Which adapter to look for.
    pub fn adapter_request() -> (request: AdapterRequest)
        ensures
            request.primary_backends,
            request.compatible_with_surface,
    {
        AdapterRequest { primary_backends: true, compatible_with_surface: true }
    }

    /// What to ask for a device on the adapter that was found, given its limits.
    pub fn device_request(adapter: Option<DeviceLimits>) -> (request: Result<
        DeviceRequest,
        KelpError,
    >)
        ensures
            request == match adapter {
                Some(limits) => Ok::<DeviceRequest, KelpError>(
                    DeviceRequest {
                        label: None,
                        push_constants: true,
                        limits: limits.requested(),
                    },
                ),
                None => Err(KelpError::NoAdapter),
            },
    {
        match adapter {
            Some(limits) => Ok(
                DeviceRequest { label: None, push_constants: true, limits: limits.request() },
            ),
            None => Err(KelpError::NoAdapter),
        }
    }

    /// Starts the renderer, with a renderer of the user interface if `imgui` holds.
    ///
    /// `adapter` is what the adapter allows, if one was found; `device` is what the surface is like
    /// by default, if the adapter granted a device, and else why it did not. The surface is to be
    /// configured as the renderer's `window_surface_config` says.
    pub fn new(
        adapter: Option<DeviceLimits>,
        device: Result<SurfaceConfiguration, String>,
        imgui: bool,
    ) -> (started: Result<(Kelp, Setup), KelpError>)
        ensures
            match (adapter, device) {
                (None, _) => started == Err::<(Kelp, Setup), _>(KelpError::NoAdapter),
                (Some(_), Err(reason)) => started == Err::<(Kelp, Setup), _>(
                    KelpError::NoDevice(reason),
                ),
                (Some(_), Ok(default)) => {
                    &&& started matches Ok((kelp, setup))
                    &&& kelp == Kelp::initial(default, imgui)
                    &&& setup.layouts_fit()
                    &&& setup.buffers_fit()
                    &&& setup.samplers_fit()
                    &&& setup.formats_fit(kelp.window_surface_config.format, imgui)
                },
            },
    {
        if adapter.is_none() {
            return Err(KelpError::NoAdapter);
        }
        match device {
            Err(reason) => Err(KelpError::NoDevice(reason)),
            Ok(default) => {
                let window_surface_config = SurfaceConfiguration {
                    present_mode: PresentMode::Fifo,
                    ..default
                };
                let setup = Setup::new(window_surface_config.format, imgui);
                Ok((Kelp { window_surface_config, imgui_renderer: imgui, per_frame: None }, setup))
            },
        }
    }

    /// What to find out next for `list`.
    pub fn next_question(&self, list: &RenderList, replies: &ListReplies) -> (question: Question)
        ensures
            question == self.question(*list, *replies),
    {
        if list.batches.len() == 0 || list.instances.len() == 0 {
            return Question::Nothing;
        }
        if self.per_frame.is_none() {
            match replies.surface {
                None => {
                    return Question::Surface;
                },
                Some(Err(_)) => {
                    return Question::Nothing;
                },
                Some(Ok(())) => {},
            }
        }
        if let Some(texture) = list.target {
            match replies.target {
                None => {
                    return Question::Target { texture };
                },
                Some(Err(_)) => {
                    return Question::Nothing;
                },
                Some(Ok(())) => {},
            }
        }
        if replies.resource_error().is_some() {
            return Question::Nothing;
        }
        let asked: usize = replies.resources.len();
        if asked / 2 < list.batches.len() {
            let batch = list.batches[asked / 2];
            return if asked % 2 == 0 {
                Question::Pipeline { blend_mode: batch.blend_mode }
            } else {
                Question::BindGroup { texture: batch.texture, smooth: batch.smooth }
            };
        }
        if replies.lookups.len() < list.batches.len() {
            return Question::Lookup { batch: list.batches[replies.lookups.len()] };
        }
        Question::Nothing
    }

    /// Whether `list` can be drawn in this frame: too many instances must not reach
    /// [`Kelp::render_list`].
    pub fn list_fits(&self, list: &RenderList, replies: &ListReplies) -> (fits: bool)
        requires
            self.question(*list, *replies) == Question::Nothing,
        ensures
            fits == self.fits(*list, *replies),
    {
        if list.batches.len() == 0 || list.instances.len() == 0 {
            return true;
        }
        let start: u32 = match self.per_frame {
            Some(frame) => frame.instance_offset,
            None => match replies.surface {
                Some(Ok(())) => 0,
                _ => {
                    return true;
                },
            },
        };
        let capacity: u64 = INSTANCE_BUFFER_SIZE / INSTANCE_SIZE;
        if start as u64 > capacity || list.instances.len() as u64 > capacity - start as u64 {
            return false;
        }
        if list.target.is_some() {
            if let Some(Err(_)) = replies.target {
                return true;
            }
        }
        if replies.resource_error().is_some() {
            return true;
        }
        measure_batches(&list.batches, &replies.lookups, start).is_some()
    }

    /// Draws `list` into the frame in progress, or into a new one if there is none.
    ///
    /// An empty list changes nothing. The instances go into the staging buffer behind those of
    /// the frame, and the batches are drawn in a pass of their own. The first thing that fails
    /// ends the list; what was done before it stays.
    pub fn render_list(&mut self, list: &RenderList, replies: &ListReplies) -> (outcome:
        ListOutcome)
        requires
            old(self).question(*list, *replies) == Question::Nothing,
            old(self).fits(*list, *replies),
        ensures
            list_rendered(*old(self), *list, *replies, *final(self), outcome),
    {
        if list.batches.len() == 0 || list.instances.len() == 0 {
            return ListOutcome { new_frame: None, staging: None, pass: None, result: Ok(()) };
        }
        let (mut frame, new_frame): (PerFrame, Option<FrameEncoders>) = match self.per_frame {
            Some(frame) => (frame, None),
            None => {
                if let Some(Err(e)) = replies.surface {
                    return ListOutcome {
                        new_frame: None,
                        staging: None,
                        pass: None,
                        result: Err(KelpError::Surface(e)),
                    };
                }
                let encoders = FrameEncoders {
                    buffer_label: "Kelp Buffer Commands",
                    draw_label: "Kelp Draw Commands",
                };
                (PerFrame { instance_offset: 0, imgui_encoder: None }, Some(encoders))
            },
        };
        self.per_frame = Some(frame);
        let start: u32 = frame.instance_offset;

        let camera_bytes = bytes_of(&list.camera);
        let instances_bytes = cast_slice(list.instances.as_slice());
        let byte_offset: u64 = start as u64 * INSTANCE_SIZE;
        let staging = Some(StagingWrite { offset: byte_offset, bytes: instances_bytes });

        let target = match list.target {
            Some(texture) => {
                if let Some(Err(e)) = replies.target {
                    return ListOutcome {
                        new_frame,
                        staging,
                        pass: None,
                        result: Err(KelpError::Cache(e)),
                    };
                }
                PassTarget::Texture(texture)
            },
            None => PassTarget::Surface,
        };
        let load = match list.clear {
            Some(color) => LoadOp::Clear(color),
            None => LoadOp::Load,
        };

        if let Some(e) = replies.resource_error() {
            let pass = Some(
                RenderPass {
                    target,
                    resolve_target: None,
                    load,
                    store: StoreOp::Store,
                    push_constants: camera_bytes,
                    commands: Vec::new(),
                },
            );
            return ListOutcome { new_frame, staging, pass, result: Err(KelpError::Cache(e)) };
        }
        let Recording { commands, end, result } = record_batches(
            &list.batches,
            &replies.lookups,
            start,
        );
        frame.instance_offset = end;
        self.per_frame = Some(frame);
        let pass = Some(
            RenderPass {
                target,
                resolve_target: None,
                load,
                store: StoreOp::Store,
                push_constants: camera_bytes,
                commands,
            },
        );
        let result = match result {
            Ok(()) => Ok(()),
            Err(e) => Err(KelpError::Cache(e)),
        };
        ListOutcome { new_frame, staging, pass, result }
    }

    /// Shows the frame in progress, or the window's next frame as it is if there is none;
    /// `current` says whether that one could be acquired.
    pub fn present_frame(&mut self, current: Option<Result<(), SurfaceError>>) -> (presentation:
        Result<Presentation, KelpError>)
        requires
            old(self).per_frame is None ==> current is Some,
        ensures
            *final(self) == old(self).without_frame(),
            frame_presented(*old(self), current, presentation),
    {
        match self.per_frame.take() {
            Some(frame) => {
                let copy = BufferCopy {
                    source_offset: 0,
                    destination_offset: 0,
                    size: INSTANCE_BUFFER_SIZE,
                };
                let mut encoders: Vec<FrameEncoder> = Vec::new();
                encoders.push(FrameEncoder::Buffer);
                encoders.push(FrameEncoder::Draw);
                if let Some(data) = frame.imgui_encoder {
                    encoders.push(FrameEncoder::Imgui(data));
                }
                assert(encoders@ =~= frame_encoders(frame));
                Ok(Presentation::Frame { copy, encoders })
            },
            None => match current {
                Some(Err(e)) => Err(KelpError::Surface(e)),
                _ => Ok(Presentation::Unchanged),
            },
        }
    }

    /// Draws these contents of the user interface over the frame in progress; without a renderer
    /// for them, or without a frame, nothing happens. The encoder takes the place of an earlier one
    /// of the same frame, which is then never submitted.
    pub fn render_imgui(&mut self, draw_data: DrawDataId) -> (pass: Option<ImguiPass>)
        ensures
            pass is Some <==> old(self).imgui_renderer && old(self).per_frame is Some,
            pass matches Some(p) ==> {
                &&& p.label@ == "Kelp Imgui Commands"@
                &&& p.target == PassTarget::Surface
                &&& p.resolve_target is None
                &&& p.load == LoadOp::Load
                &&& p.store == StoreOp::Store
                &&& p.draw_data == draw_data
            },
            *final(self) == old(self).with_interface(draw_data),
    {
        if self.imgui_renderer {
            if let Some(frame) = self.per_frame {
                self.per_frame = Some(PerFrame { imgui_encoder: Some(draw_data), ..frame });
                return Some(
                    ImguiPass {
                        label: "Kelp Imgui Commands",
                        target: PassTarget::Surface,
                        resolve_target: None,
                        load: LoadOp::Load,
                        store: StoreOp::Store,
                        draw_data,
                    },
                );
            }
        }
        None
    }

    /// Sets the size of the window's surface and leaves the rest of its configuration as it is; the
    /// surface is to be configured with the result.
    pub fn set_surface_size(&mut self, width: u32, height: u32) -> (config: &SurfaceConfiguration)
        ensures
            *final(self) == old(self).resized(width, height),
            *config == final(self).window_surface_config,
    {
        self.window_surface_config.width = width;
        self.window_surface_config.height = height;
        &self.window_surface_config
    }

    /// `texture` is one of this size that this renderer can draw to and draw with.
    pub open spec fn is_render_texture(
        self,
        texture: TextureDescriptor,
        width: u32,
        height: u32,
    ) -> bool {
        &&& texture.is_plain(width, height)
        &&& texture.format == PixelFormat::Surface(self.window_surface_config.format)
        &&& texture.usage == TextureUse {
            texture_binding: true,
            render_attachment: true,
            copy_dst: false,
        }
    }

    /// A texture to draw to and to draw with. It has the format of the surface, so that the same
    /// pipelines can draw to both.
    pub fn create_render_texture(&self, width: u32, height: u32) -> (texture: TextureDescriptor)
        ensures
            self.is_render_texture(texture, width, height),
    {
        TextureDescriptor {
            label: None,
            width,
            height,
            depth_or_array_layers: 1,
            mip_level_count: 1,
            sample_count: 1,
            dimension: TextureDimension::D2,
            format: PixelFormat::Surface(self.window_surface_config.format),
            usage: TextureUse { texture_binding: true, render_attachment: true, copy_dst: false },
            view_formats: Vec::new(),
        }
    }

    /// A texture to draw with, and the texels to fill it with.
    pub fn create_texture_with_data<'a>(&self, width: u32, height: u32, data: &'a [u8]) -> (upload:
        TextureUpload<'a>)
        ensures
            upload.descriptor.is_plain(width, height),
            upload.descriptor.format == PixelFormat::Rgba8UnormSrgb,
            upload.descriptor.usage == (TextureUse {
                texture_binding: true,
                render_attachment: false,
                copy_dst: true,
            }),
            upload.data@ == data@,
    {
        let descriptor = TextureDescriptor {
            label: None,
            width,
            height,
            depth_or_array_layers: 1,
            mip_level_count: 1,
            sample_count: 1,
            dimension: TextureDimension::D2,
            format: PixelFormat::Rgba8UnormSrgb,
            usage: TextureUse { texture_binding: true, render_attachment: false, copy_dst: true },
            view_formats: Vec::new(),
        };
        TextureUpload { descriptor, data }
    }

    /// Writes rows of words to the start of a buffer.
    pub fn update_buffer<const N: usize>(&self, data: &[[u32; N]]) -> (write: BufferWrite)
        ensures
            write.offset == 0,
            memory_image(write.bytes@, flatten(data@)),
    {
        Kelp::write_at_start(cast_slice(data))
    }

    /// Writes bytes to the start of a buffer.
    pub fn write_at_start(bytes: Vec<u8>) -> (write: BufferWrite)
        ensures
            write.offset == 0,
            write.bytes@ == bytes@,
    {
        BufferWrite { offset: 0, bytes }
    }
}

} // verus!
