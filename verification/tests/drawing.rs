use kelp_2d::batches::{measure_batches, record_batches, BatchLookup, PassCommand};
use kelp_2d::bytes::INSTANCE_SIZE;
use kelp_2d::descriptors::{
    PixelFormat, PresentMode, ShaderStage, SurfaceConfiguration, TextureDimension,
};
use kelp_2d::error::{CacheError, KelpError, SurfaceError};
use kelp_2d::kelp::{BufferCopy, DrawDataId, FrameEncoder, Kelp, PerFrame, Presentation};
use kelp_2d::render_list::{
    ClearColor, ListOutcome, ListReplies, LoadOp, PassTarget, Question, RenderList, StoreOp,
};
use kelp_2d::{BlendMode, InstanceBatch, KelpTextureId};

fn config(width: u32, height: u32) -> SurfaceConfiguration {
    SurfaceConfiguration {
        usage: wgpu::TextureUsages::RENDER_ATTACHMENT,
        format: wgpu::TextureFormat::Bgra8Unorm,
        width,
        height,
        present_mode: PresentMode::Fifo,
        desired_maximum_frame_latency: 2,
        alpha_mode: wgpu::CompositeAlphaMode::Opaque,
        view_formats: vec![wgpu::TextureFormat::Bgra8UnormSrgb],
    }
}

fn data(key: u64) -> DrawDataId {
    DrawDataId { key }
}

fn kelp(imgui: bool) -> Kelp {
    Kelp {
        window_surface_config: config(640, 480),
        imgui_renderer: imgui,
        per_frame: None,
    }
}

fn batch(texture: u64, blend: u32, count: u32) -> InstanceBatch {
    InstanceBatch {
        texture: KelpTextureId { key: texture },
        smooth: texture % 2 == 1,
        blend_mode: BlendMode { number: blend },
        instance_count: count,
    }
}

fn list(batches: Vec<InstanceBatch>, instances: usize) -> RenderList {
    let mut rows: Vec<[u32; 36]> = Vec::new();
    for i in 0..instances {
        let mut row = [0u32; 36];
        for j in 0..36 {
            row[j] = (i * 36 + j) as u32 * 0x0101 + 7;
        }
        rows.push(row);
    }
    RenderList { target: None, clear: None, camera: [0x3f80_0000; 16], instances: rows, batches }
}

fn found(index: usize) -> BatchLookup {
    BatchLookup { index: Ok(index), pipeline: Ok(()), bind_group: Ok(()) }
}

/// Answers every question with success; the pipeline of a batch has its blend mode's number.
fn answered(kelp: &Kelp, list: &RenderList) -> ListReplies {
    let mut replies = ListReplies::new();
    loop {
        match kelp.next_question(list, &replies) {
            Question::Surface => replies.surface = Some(Ok(())),
            Question::Target { .. } => replies.target = Some(Ok(())),
            Question::Pipeline { .. } => replies.resources.push(Ok(())),
            Question::BindGroup { .. } => replies.resources.push(Ok(())),
            Question::Lookup { batch } => {
                replies.lookups.push(found(batch.blend_mode.number as usize))
            }
            Question::Nothing => return replies,
        }
    }
}

fn render(kelp: &mut Kelp, list: &RenderList) -> ListOutcome {
    let replies = answered(kelp, list);
    assert!(kelp.list_fits(list, &replies));
    kelp.render_list(list, &replies)
}

fn draw(first: u32, end: u32) -> PassCommand {
    PassCommand::Draw { first_vertex: 0, end_vertex: 4, first_instance: first, end_instance: end }
}

fn bind(texture: u64) -> PassCommand {
    PassCommand::SetTextureBindGroup {
        slot: 1,
        texture: KelpTextureId { key: texture },
        smooth: texture % 2 == 1,
    }
}

fn pipeline(index: usize) -> Vec<PassCommand> {
    vec![
        PassCommand::SetPipeline { index },
        PassCommand::SetPushConstants { stage: ShaderStage::Vertex, offset: 0 },
        PassCommand::SetVertexBuffer { slot: 0 },
        PassCommand::SetInstanceBindGroup { slot: 0 },
    ]
}

fn joined(parts: Vec<Vec<PassCommand>>) -> Vec<PassCommand> {
    let mut all = Vec::new();
    for part in parts {
        all.extend(part);
    }
    all
}

#[test]
fn batches_share_a_pipeline_until_it_changes() {
    let batches = vec![batch(1, 5, 2), batch(2, 5, 3), batch(3, 6, 1), batch(3, 5, 4)];
    let lookups = vec![found(5), found(5), found(6), found(5)];
    let recording = record_batches(&batches, &lookups, 10);
    assert_eq!(recording.result, Ok(()));
    assert_eq!(recording.end, 20);
    assert_eq!(
        recording.commands,
        joined(vec![
            pipeline(5),
            vec![bind(1), draw(10, 12), bind(2), draw(12, 15)],
            pipeline(6),
            vec![bind(3), draw(15, 16)],
            pipeline(5),
            vec![bind(3), draw(16, 20)],
        ])
    );
    assert_eq!(measure_batches(&batches, &lookups, 10), Some(20));
}

#[test]
fn the_index_for_no_pipeline_is_not_put_to_use_first() {
    let batches = vec![batch(1, 0, 2), batch(2, 1, 1)];
    let recording = record_batches(&batches, &vec![found(usize::MAX), found(0)], 0);
    assert_eq!(
        recording.commands,
        joined(vec![vec![bind(1), draw(0, 2)], pipeline(0), vec![bind(2), draw(2, 3)]])
    );
}

#[test]
fn a_missing_index_ends_the_pass() {
    let batches = vec![batch(1, 5, 2), batch(2, 5, 3)];
    let mut missing = found(0);
    missing.index = Err(CacheError::InvalidPipeline);
    let recording = record_batches(&batches, &vec![found(5), missing], 1);
    assert_eq!(recording.result, Err(CacheError::InvalidPipeline));
    assert_eq!(recording.end, 3);
    assert_eq!(recording.commands, joined(vec![pipeline(5), vec![bind(1), draw(1, 3)]]));
}

#[test]
fn a_missing_pipeline_counts_only_where_it_changes() {
    let batches = vec![batch(1, 5, 2), batch(2, 5, 3), batch(2, 6, 4)];
    let mut unused = found(5);
    unused.pipeline = Err(CacheError::InvalidPipeline);
    let mut missing = found(6);
    missing.pipeline = Err(CacheError::InvalidPipeline);
    let recording = record_batches(&batches, &vec![found(5), unused, missing], 0);
    assert_eq!(recording.result, Err(CacheError::InvalidPipeline));
    assert_eq!(recording.end, 5);
    assert_eq!(
        recording.commands,
        joined(vec![pipeline(5), vec![bind(1), draw(0, 2), bind(2), draw(2, 5)]])
    );
}

#[test]
fn a_missing_bind_group_leaves_its_pipeline_in_use() {
    let batches = vec![batch(1, 5, 2), batch(2, 6, 3)];
    let mut missing = found(6);
    missing.bind_group = Err(CacheError::InvalidBindGroup);
    let lookups = vec![found(5), missing];
    let recording = record_batches(&batches, &lookups, 0);
    assert_eq!(recording.result, Err(CacheError::InvalidBindGroup));
    assert_eq!(recording.end, 2);
    assert_eq!(
        recording.commands,
        joined(vec![pipeline(5), vec![bind(1), draw(0, 2)], pipeline(6)])
    );
    assert_eq!(measure_batches(&batches, &lookups, 0), Some(2));
}

#[test]
fn what_follows_a_failure_does_not_matter() {
    let batches = vec![batch(1, 5, 2), batch(2, 6, 3), batch(3, 7, u32::MAX)];
    let mut missing = found(6);
    missing.bind_group = Err(CacheError::InvalidBindGroup);
    let one = record_batches(&batches, &vec![found(5), missing, found(7)], 0);
    let other = record_batches(&batches, &vec![found(5), missing, missing], 0);
    assert_eq!(one, other);
}

#[test]
fn too_many_instances_cannot_be_numbered() {
    let batches = vec![batch(1, 5, u32::MAX), batch(1, 5, 1)];
    assert_eq!(measure_batches(&batches, &vec![found(5), found(5)], 0), None);
    assert_eq!(measure_batches(&vec![batch(1, 5, 1)], &vec![found(5)], u32::MAX), None);
    assert_eq!(measure_batches(&vec![batch(1, 5, 0)], &vec![found(5)], u32::MAX), Some(u32::MAX));
}

#[test]
fn an_empty_list_does_nothing() {
    for empty in [list(vec![], 3), list(vec![batch(1, 1, 1)], 0)] {
        let mut k = kelp(false);
        let replies = ListReplies::new();
        assert_eq!(k.next_question(&empty, &replies), Question::Nothing);
        assert!(k.list_fits(&empty, &replies));
        let outcome = k.render_list(&empty, &replies);
        assert_eq!(
            outcome,
            ListOutcome { new_frame: None, staging: None, pass: None, result: Ok(()) }
        );
        assert_eq!(k, kelp(false));
    }
}

#[test]
fn questions_come_in_order() {
    let mut l = list(vec![batch(1, 5, 1), batch(2, 6, 1)], 2);
    l.target = Some(KelpTextureId { key: 9 });
    let k = kelp(false);
    let mut replies = ListReplies::new();
    let mut asked = Vec::new();
    loop {
        let question = k.next_question(&l, &replies);
        asked.push(question);
        match question {
            Question::Surface => replies.surface = Some(Ok(())),
            Question::Target { .. } => replies.target = Some(Ok(())),
            Question::Pipeline { .. } | Question::BindGroup { .. } => replies.resources.push(Ok(())),
            Question::Lookup { .. } => replies.lookups.push(found(0)),
            Question::Nothing => break,
        }
    }
    assert_eq!(
        asked,
        vec![
            Question::Surface,
            Question::Target { texture: KelpTextureId { key: 9 } },
            Question::Pipeline { blend_mode: BlendMode { number: 5 } },
            Question::BindGroup { texture: KelpTextureId { key: 1 }, smooth: true },
            Question::Pipeline { blend_mode: BlendMode { number: 6 } },
            Question::BindGroup { texture: KelpTextureId { key: 2 }, smooth: false },
            Question::Lookup { batch: batch(1, 5, 1) },
            Question::Lookup { batch: batch(2, 6, 1) },
            Question::Nothing,
        ]
    );
}

#[test]
fn questions_end_after_three_for_each_batch() {
    let mut l = list(vec![batch(1, 5, 1), batch(2, 6, 1), batch(3, 6, 1)], 3);
    l.target = Some(KelpTextureId { key: 9 });
    let k = kelp(false);
    let replies = answered(&k, &l);
    assert_eq!(replies.surface, Some(Ok(())));
    assert_eq!(replies.target, Some(Ok(())));
    assert_eq!(replies.resources.len(), 6);
    assert_eq!(replies.lookups.len(), 3);
}

#[test]
fn a_frame_that_cannot_be_acquired_changes_nothing() {
    for error in [
        SurfaceError::Timeout,
        SurfaceError::Outdated,
        SurfaceError::Lost,
        SurfaceError::OutOfMemory,
    ] {
        let mut k = kelp(false);
        let l = list(vec![batch(1, 1, 1)], 1);
        let mut replies = ListReplies::new();
        replies.surface = Some(Err(error));
        assert_eq!(k.next_question(&l, &replies), Question::Nothing);
        assert!(k.list_fits(&l, &replies));
        let outcome = k.render_list(&l, &replies);
        assert_eq!(outcome.result, Err(KelpError::Surface(error)));
        assert!(outcome.new_frame.is_none());
        assert!(outcome.staging.is_none());
        assert!(outcome.pass.is_none());
        assert_eq!(k, kelp(false));
    }
}

#[test]
fn the_first_list_begins_a_frame() {
    let mut k = kelp(false);
    let l = list(vec![batch(1, 5, 2), batch(2, 5, 1)], 3);
    let outcome = render(&mut k, &l);
    assert_eq!(outcome.result, Ok(()));
    let encoders = outcome.new_frame.unwrap();
    assert_eq!(encoders.buffer_label, "Kelp Buffer Commands");
    assert_eq!(encoders.draw_label, "Kelp Draw Commands");
    let staging = outcome.staging.unwrap();
    assert_eq!(staging.offset, 0);
    assert_eq!(staging.bytes, bytemuck::cast_slice::<[u32; 36], u8>(&l.instances).to_vec());
    let pass = outcome.pass.unwrap();
    assert_eq!(pass.target, PassTarget::Surface);
    assert_eq!(pass.load, LoadOp::Load);
    assert_eq!(pass.store, StoreOp::Store);
    assert_eq!(pass.resolve_target, None);
    let camera: [f32; 16] = [1.0; 16];
    assert_eq!(pass.push_constants, bytemuck::bytes_of(&camera).to_vec());
    assert_eq!(
        pass.commands,
        joined(vec![pipeline(5), vec![bind(1), draw(0, 2), bind(2), draw(2, 3)]])
    );
    assert_eq!(k.per_frame, Some(PerFrame { instance_offset: 3, imgui_encoder: None }));
}

#[test]
fn a_second_list_follows_the_first() {
    let mut k = kelp(false);
    let first = render(&mut k, &list(vec![batch(1, 5, 3)], 3)).staging.unwrap();
    let outcome = render(&mut k, &list(vec![batch(1, 5, 2)], 2));
    assert!(outcome.new_frame.is_none());
    let second = outcome.staging.unwrap();
    assert_eq!(second.offset, 432);
    assert_eq!(second.offset, first.offset + first.bytes.len() as u64);
    assert_eq!(second.bytes.len(), 288);
    assert_eq!(outcome.pass.unwrap().commands.last(), Some(&draw(3, 5)));
    assert_eq!(k.per_frame.unwrap().instance_offset, 5);
}

#[test]
fn lists_follow_each_other_past_other_calls() {
    let mut k = kelp(true);
    let first = render(&mut k, &list(vec![batch(1, 5, 3)], 3)).staging.unwrap();
    k.render_imgui(data(1));
    k.set_surface_size(1, 1);
    let second = render(&mut k, &list(vec![batch(1, 5, 2)], 2)).staging.unwrap();
    assert_eq!(second.offset, first.offset + first.bytes.len() as u64);
    k.render_imgui(data(2));
    match k.present_frame(None) {
        Ok(Presentation::Frame { copy, .. }) => {
            for write in [first, second] {
                assert!(copy.source_offset <= write.offset);
                assert!(write.offset + write.bytes.len() as u64 <= copy.source_offset + copy.size);
            }
        }
        _ => panic!("a frame was in progress"),
    }
}

#[test]
fn each_instance_keeps_its_place() {
    let mut k = kelp(false);
    let l = list(vec![batch(1, 5, 3)], 3);
    let staging = render(&mut k, &l).staging.unwrap();
    for i in 0..3 {
        let size = INSTANCE_SIZE as usize;
        assert_eq!(size, 144);
        assert_eq!(
            &staging.bytes[i * size..(i + 1) * size],
            bytemuck::bytes_of(&l.instances[i])
        );
    }
}

#[test]
fn a_list_can_draw_to_a_cleared_texture() {
    let mut k = kelp(false);
    let mut l = list(vec![batch(1, 5, 1)], 1);
    let color = ClearColor { r: 1, g: 2, b: 3, a: 4 };
    l.target = Some(KelpTextureId { key: 7 });
    l.clear = Some(color);
    let pass = render(&mut k, &l).pass.unwrap();
    assert_eq!(pass.target, PassTarget::Texture(KelpTextureId { key: 7 }));
    assert_eq!(pass.load, LoadOp::Clear(color));
}

#[test]
fn a_missing_target_comes_after_the_instances() {
    let mut k = kelp(false);
    let mut l = list(vec![batch(1, 5, 1)], 1);
    l.target = Some(KelpTextureId { key: 7 });
    let mut replies = ListReplies::new();
    replies.surface = Some(Ok(()));
    replies.target = Some(Err(CacheError::InvalidTexture));
    assert_eq!(k.next_question(&l, &replies), Question::Nothing);
    assert!(k.list_fits(&l, &replies));
    let outcome = k.render_list(&l, &replies);
    assert_eq!(outcome.result, Err(KelpError::Cache(CacheError::InvalidTexture)));
    assert!(outcome.new_frame.is_some());
    assert_eq!(outcome.staging.unwrap().bytes.len(), 144);
    assert!(outcome.pass.is_none());
    assert_eq!(k.per_frame, Some(PerFrame { instance_offset: 0, imgui_encoder: None }));
}

#[test]
fn a_resource_that_is_not_ready_leaves_an_empty_pass() {
    let mut k = kelp(false);
    let l = list(vec![batch(1, 5, 1), batch(1, 6, 1)], 2);
    let mut replies = ListReplies::new();
    replies.surface = Some(Ok(()));
    replies.resources.push(Ok(()));
    replies.resources.push(Err(CacheError::InvalidTexture));
    assert_eq!(k.next_question(&l, &replies), Question::Nothing);
    assert!(k.list_fits(&l, &replies));
    let outcome = k.render_list(&l, &replies);
    assert_eq!(outcome.result, Err(KelpError::Cache(CacheError::InvalidTexture)));
    assert!(outcome.staging.is_some());
    assert!(outcome.pass.unwrap().commands.is_empty());
    assert_eq!(k.per_frame, Some(PerFrame { instance_offset: 0, imgui_encoder: None }));
}

#[test]
fn a_batch_that_fails_keeps_what_was_drawn() {
    let mut k = kelp(false);
    let l = list(vec![batch(1, 5, 2), batch(1, 6, 1)], 3);
    let mut replies = answered(&k, &l);
    replies.lookups[1].bind_group = Err(CacheError::InvalidBindGroup);
    let outcome = k.render_list(&l, &replies);
    assert_eq!(outcome.result, Err(KelpError::Cache(CacheError::InvalidBindGroup)));
    assert_eq!(k.per_frame, Some(PerFrame { instance_offset: 2, imgui_encoder: None }));
}

#[test]
fn the_staging_buffer_holds_so_many_instances() {
    let k = kelp(false);
    let fitting = list(vec![batch(1, 5, 58254)], 58254);
    assert!(k.list_fits(&fitting, &answered(&k, &fitting)));
    let one_more = list(vec![batch(1, 5, 58255)], 58255);
    assert!(!k.list_fits(&one_more, &answered(&k, &one_more)));

    let mut busy = kelp(false);
    busy.per_frame = Some(PerFrame { instance_offset: 58253, imgui_encoder: None });
    let one = list(vec![batch(1, 5, 1)], 1);
    assert!(busy.list_fits(&one, &answered(&busy, &one)));
    let two = list(vec![batch(1, 5, 2)], 2);
    assert!(!busy.list_fits(&two, &answered(&busy, &two)));
}

#[test]
fn numbers_of_instances_must_not_run_out() {
    let mut k = kelp(false);
    k.per_frame = Some(PerFrame { instance_offset: 1, imgui_encoder: None });
    let l = list(vec![batch(1, 5, u32::MAX)], 1);
    let mut replies = answered(&k, &l);
    assert!(!k.list_fits(&l, &replies));
    replies.lookups[0].bind_group = Err(CacheError::InvalidBindGroup);
    assert!(k.list_fits(&l, &replies));
    let outcome = k.render_list(&l, &replies);
    assert_eq!(outcome.result, Err(KelpError::Cache(CacheError::InvalidBindGroup)));
}

#[test]
fn presenting_submits_the_frame_and_starts_over() {
    let mut k = kelp(false);
    let staging = render(&mut k, &list(vec![batch(1, 5, 3)], 3)).staging.unwrap();
    let presentation = k.present_frame(None).unwrap();
    let copy = BufferCopy { source_offset: 0, destination_offset: 0, size: 8388608 };
    assert_eq!(
        presentation,
        Presentation::Frame { copy, encoders: vec![FrameEncoder::Buffer, FrameEncoder::Draw] }
    );
    assert!(staging.offset + staging.bytes.len() as u64 <= copy.size);
    assert!(k.per_frame.is_none());
    let l = list(vec![batch(1, 5, 1)], 1);
    assert_eq!(k.next_question(&l, &ListReplies::new()), Question::Surface);
    assert_eq!(render(&mut k, &l).staging.unwrap().offset, 0);
}

#[test]
fn presenting_without_a_frame_shows_the_next_one() {
    let mut k = kelp(false);
    assert_eq!(k.present_frame(Some(Ok(()))), Ok(Presentation::Unchanged));
    assert_eq!(
        k.present_frame(Some(Err(SurfaceError::Lost))),
        Err(KelpError::Surface(SurfaceError::Lost))
    );
    assert_eq!(k, kelp(false));
}

#[test]
fn the_interface_is_submitted_last() {
    let mut k = kelp(true);
    render(&mut k, &list(vec![batch(1, 5, 1)], 1));
    let pass = k.render_imgui(data(8)).unwrap();
    assert_eq!(pass.label, "Kelp Imgui Commands");
    assert_eq!(pass.target, PassTarget::Surface);
    assert_eq!(pass.resolve_target, None);
    assert_eq!(pass.load, LoadOp::Load);
    assert_eq!(pass.store, StoreOp::Store);
    assert_eq!(pass.draw_data, data(8));
    render(&mut k, &list(vec![batch(1, 5, 1)], 1));
    assert_eq!(k.per_frame, Some(PerFrame { instance_offset: 2, imgui_encoder: Some(data(8)) }));
    match k.present_frame(None) {
        Ok(Presentation::Frame { encoders, .. }) => assert_eq!(
            encoders,
            vec![FrameEncoder::Buffer, FrameEncoder::Draw, FrameEncoder::Imgui(data(8))]
        ),
        _ => panic!("a frame was in progress"),
    }
    render(&mut k, &list(vec![batch(1, 5, 1)], 1));
    assert_eq!(k.per_frame, Some(PerFrame { instance_offset: 1, imgui_encoder: None }));
}

#[test]
fn the_last_interface_of_a_frame_wins() {
    let mut k = kelp(true);
    render(&mut k, &list(vec![batch(1, 5, 1)], 1));
    assert_eq!(k.render_imgui(data(1)).unwrap().draw_data, data(1));
    render(&mut k, &list(vec![batch(1, 5, 1)], 1));
    assert_eq!(k.render_imgui(data(2)).unwrap().draw_data, data(2));
    match k.present_frame(None) {
        Ok(Presentation::Frame { encoders, .. }) => assert_eq!(
            encoders,
            vec![FrameEncoder::Buffer, FrameEncoder::Draw, FrameEncoder::Imgui(data(2))]
        ),
        _ => panic!("a frame was in progress"),
    }
}

#[test]
fn later_lists_overwrite_nothing_that_was_drawn() {
    let mut k = kelp(true);
    let uneven = list(vec![batch(1, 5, 4), batch(1, 5, 1)], 2);
    let first = render(&mut k, &uneven).pass.unwrap();
    k.render_imgui(data(1));
    k.set_surface_size(5, 6);
    let next = render(&mut k, &list(vec![batch(1, 5, 1)], 1)).staging.unwrap();
    let mut draws = 0;
    for command in first.commands {
        if let PassCommand::Draw { end_instance, .. } = command {
            assert!(end_instance as u64 * INSTANCE_SIZE <= next.offset);
            draws += 1;
        }
    }
    assert_eq!(draws, 2);
    assert_eq!(next.offset, 720);
}

#[test]
fn pipelines_are_set_once_for_each_change() {
    let batches = vec![batch(1, 5, 1), batch(1, 5, 1), batch(1, 6, 1), batch(1, 6, 1)];
    let mut lookups = vec![found(5), found(5), found(6), found(6)];
    let set = |commands: Vec<PassCommand>| {
        commands.iter().filter(|c| matches!(c, PassCommand::SetPipeline { .. })).count()
    };
    assert_eq!(set(record_batches(&batches, &lookups, 0).commands), 2);
    lookups[2].bind_group = Err(CacheError::InvalidBindGroup);
    assert_eq!(set(record_batches(&batches, &lookups, 0).commands), 2);
    lookups[2].pipeline = Err(CacheError::InvalidPipeline);
    assert_eq!(set(record_batches(&batches, &lookups, 0).commands), 1);
}

#[test]
fn the_interface_needs_a_renderer_and_a_frame() {
    let mut k = kelp(true);
    assert!(k.render_imgui(data(1)).is_none());
    assert_eq!(k, kelp(true));
    let mut without = kelp(false);
    render(&mut without, &list(vec![batch(1, 5, 1)], 1));
    assert!(without.render_imgui(data(1)).is_none());
    assert_eq!(without.per_frame, Some(PerFrame { instance_offset: 1, imgui_encoder: None }));
}

#[test]
fn the_last_size_wins() {
    let mut k = kelp(true);
    render(&mut k, &list(vec![batch(1, 5, 1)], 1));
    k.set_surface_size(1, 2);
    assert_eq!(*k.set_surface_size(800, 600), config(800, 600));
    assert_eq!(k.window_surface_config, config(800, 600));
    assert_eq!(k.per_frame.unwrap().instance_offset, 1);
}

#[test]
fn render_textures_have_the_format_of_the_surface() {
    let mut k = kelp(false);
    k.set_surface_size(3, 4);
    let texture = k.create_render_texture(32, 64);
    assert_eq!((texture.width, texture.height, texture.depth_or_array_layers), (32, 64, 1));
    assert_eq!((texture.mip_level_count, texture.sample_count), (1, 1));
    assert_eq!(texture.dimension, TextureDimension::D2);
    assert_eq!(texture.label, None);
    assert!(texture.view_formats.is_empty());
    assert_eq!(texture.format, PixelFormat::Surface(wgpu::TextureFormat::Bgra8Unorm));
    assert!(texture.usage.texture_binding && texture.usage.render_attachment);
    assert!(!texture.usage.copy_dst);
}

#[test]
fn textures_with_data_are_srgb() {
    let data = [1u8, 2, 3, 4, 5, 6, 7, 8];
    let upload = kelp(false).create_texture_with_data(2, 1, &data);
    assert_eq!(upload.data, &data[..]);
    let texture = upload.descriptor;
    assert_eq!((texture.width, texture.height, texture.depth_or_array_layers), (2, 1, 1));
    assert_eq!((texture.mip_level_count, texture.sample_count), (1, 1));
    assert_eq!(texture.dimension, TextureDimension::D2);
    assert_eq!(texture.label, None);
    assert!(texture.view_formats.is_empty());
    assert_eq!(texture.format, PixelFormat::Rgba8UnormSrgb);
    assert!(texture.usage.texture_binding && texture.usage.copy_dst);
    assert!(!texture.usage.render_attachment);
}

#[test]
fn buffers_are_written_from_their_start() {
    let k = kelp(false);
    let rows: [[u32; 2]; 2] = [[1, 2], [0x01020304, u32::MAX]];
    let write = k.update_buffer(&rows);
    assert_eq!(write.offset, 0);
    let mut expected: Vec<u8> = Vec::new();
    for row in rows {
        for word in row {
            expected.extend(word.to_ne_bytes());
        }
    }
    assert_eq!(write.bytes, expected);
    let empty: [[u32; 3]; 0] = [];
    assert!(k.update_buffer(&empty).bytes.is_empty());
    assert!(k.update_buffer(&[[0u32; 0]; 5]).bytes.is_empty());
    let write = Kelp::write_at_start(vec![9, 8, 7]);
    assert_eq!((write.offset, write.bytes), (0, vec![9, 8, 7]));
}
