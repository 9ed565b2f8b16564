//! What holds of the renderer as a whole.

use crate::batches::{
    commands_before, draw_command, drawn, failed_commands, failure, instances_before,
    lemma_drawn_bounds, lemma_drawn_stops, lemma_instances_monotone, pass_commands, pass_end,
    pass_result, pipeline_commands, switch_commands, switches, BatchLookup, InstanceBatch,
    KelpTextureId, PassCommand,
};
use crate::bytes::{big_endian, flatten, little_endian, memory_image, InstanceGPU, INSTANCE_SIZE};
use crate::descriptors::{
    BindingType, PixelFormat, PresentMode, ShaderStage, SurfaceConfiguration, TextureDescriptor,
};
use crate::error::{CacheError, KelpError, SurfaceError};
use crate::kelp::{
    frame_encoders, frame_presented, list_rendered, DrawDataId, FrameEncoder, Kelp, Presentation,
};
use crate::render_list::{ListOutcome, ListReplies, Question, RenderList};
use crate::setup::{Setup, INSTANCE_BUFFER_SIZE};
use vstd::prelude::*;

verus! {

/// The draws among `commands`.
pub open spec fn draws_in(commands: Seq<PassCommand>) -> Seq<PassCommand>
    decreases commands.len(),
{
    if commands.len() == 0 {
        seq![]
    } else if commands.last() is Draw {
        draws_in(commands.drop_last()).push(commands.last())
    } else {
        draws_in(commands.drop_last())
    }
}

/// What a pass has in use.
pub struct Bound {
    pub pipeline: Option<usize>,
    /// What was set since the pipeline was.
    pub push_constants: bool,
    pub vertex_buffer: bool,
    pub instances: bool,
    pub texture: Option<(KelpTextureId, bool)>,
}

/// What a pass has in use after `command`.
pub open spec fn bound_after(bound: Bound, command: PassCommand) -> Bound {
    match command {
        PassCommand::SetPipeline { index } => Bound {
            pipeline: Some(index),
            push_constants: false,
            vertex_buffer: false,
            instances: false,
            ..bound
        },
        PassCommand::SetPushConstants { .. } => Bound { push_constants: true, ..bound },
        PassCommand::SetVertexBuffer { .. } => Bound { vertex_buffer: true, ..bound },
        PassCommand::SetInstanceBindGroup { .. } => Bound { instances: true, ..bound },
        PassCommand::SetTextureBindGroup { texture, smooth, .. } => Bound {
            texture: Some((texture, smooth)),
            ..bound
        },
        PassCommand::Draw { .. } => bound,
    }
}

/// What a pass has in use after `commands`.
pub open spec fn bound(commands: Seq<PassCommand>) -> Bound
    decreases commands.len(),
{
    if commands.len() == 0 {
        Bound {
            pipeline: None,
            push_constants: false,
            vertex_buffer: false,
            instances: false,
            texture: None,
        }
    } else {
        bound_after(bound(commands.drop_last()), commands.last())
    }
}

proof fn lemma_push(commands: Seq<PassCommand>, command: PassCommand)
    ensures
        bound(commands.push(command)) == bound_after(bound(commands), command),
        draws_in(commands.push(command)) == if command is Draw {
            draws_in(commands).push(command)
        } else {
            draws_in(commands)
        },
{
    assert(commands.push(command).drop_last() =~= commands);
}

proof fn lemma_switch(commands: Seq<PassCommand>, lookups: Seq<BatchLookup>, i: int)
    ensures
        draws_in(commands + switch_commands(lookups, i)) == draws_in(commands),
        switches(lookups, i) ==> bound(commands + switch_commands(lookups, i)) == (Bound {
            pipeline: Some(lookups[i].index->Ok_0),
            push_constants: true,
            vertex_buffer: true,
            instances: true,
            texture: bound(commands).texture,
        }),
        !switches(lookups, i) ==> bound(commands + switch_commands(lookups, i)) == bound(commands),
{
    if switches(lookups, i) {
        let all = pipeline_commands(lookups[i].index->Ok_0);
        let c1 = commands.push(all[0]);
        let c2 = c1.push(all[1]);
        let c3 = c2.push(all[2]);
        let c4 = c3.push(all[3]);
        lemma_push(commands, all[0]);
        lemma_push(c1, all[1]);
        lemma_push(c2, all[2]);
        lemma_push(c3, all[3]);
        assert(commands + switch_commands(lookups, i) =~= c4);
    } else {
        assert(commands + switch_commands(lookups, i) =~= commands);
    }
}

/// The commands of batch `i` up to its draw.
spec fn commands_to_draw(
    batches: Seq<InstanceBatch>,
    lookups: Seq<BatchLookup>,
    start: int,
    i: int,
) -> Seq<PassCommand> {
    (commands_before(batches, lookups, start, i) + switch_commands(lookups, i)).push(
        PassCommand::SetTextureBindGroup {
            slot: 1,
            texture: batches[i].texture,
            smooth: batches[i].smooth,
        },
    )
}

proof fn lemma_batch(batches: Seq<InstanceBatch>, lookups: Seq<BatchLookup>, start: int, i: int)
    requires
        0 <= i,
    ensures
        commands_before(batches, lookups, start, i + 1) == commands_to_draw(
            batches,
            lookups,
            start,
            i,
        ).push(draw_command(batches, start, i)),
{
    assert(commands_before(batches, lookups, start, i + 1) =~= commands_to_draw(
        batches,
        lookups,
        start,
        i,
    ).push(draw_command(batches, start, i)));
}

proof fn lemma_bound(batches: Seq<InstanceBatch>, lookups: Seq<BatchLookup>, start: int, n: int)
    requires
        0 < n,
        exists|k: int| 0 <= k < n && (#[trigger] lookups[k]).index->Ok_0 != usize::MAX,
    ensures
        bound(commands_before(batches, lookups, start, n)) == (Bound {
            pipeline: Some(lookups[n - 1].index->Ok_0),
            push_constants: true,
            vertex_buffer: true,
            instances: true,
            texture: Some((batches[n - 1].texture, batches[n - 1].smooth)),
        }),
        bound(commands_to_draw(batches, lookups, start, n - 1)) == bound(
            commands_before(batches, lookups, start, n),
        ),
    decreases n,
{
    let i = n - 1;
    let before = commands_before(batches, lookups, start, i);
    if exists|k: int| 0 <= k < i && (#[trigger] lookups[k]).index->Ok_0 != usize::MAX {
        lemma_bound(batches, lookups, start, i);
    } else {
        assert(i > 0 ==> lookups[i - 1].index->Ok_0 == usize::MAX);
    }
    lemma_switch(before, lookups, i);
    lemma_push(
        before + switch_commands(lookups, i),
        PassCommand::SetTextureBindGroup {
            slot: 1,
            texture: batches[i].texture,
            smooth: batches[i].smooth,
        },
    );
    lemma_batch(batches, lookups, start, i);
    lemma_push(commands_to_draw(batches, lookups, start, i), draw_command(batches, start, i));
}

proof fn lemma_draws(batches: Seq<InstanceBatch>, lookups: Seq<BatchLookup>, start: int, n: int)
    requires
        0 <= n,
    ensures
        draws_in(commands_before(batches, lookups, start, n)) == Seq::new(
            n as nat,
            |i: int| draw_command(batches, start, i),
        ),
    decreases n,
{
    let all = Seq::new(n as nat, |i: int| draw_command(batches, start, i));
    if n > 0 {
        let i = n - 1;
        let before = commands_before(batches, lookups, start, i);
        lemma_draws(batches, lookups, start, i);
        lemma_switch(before, lookups, i);
        lemma_push(
            before + switch_commands(lookups, i),
            PassCommand::SetTextureBindGroup {
                slot: 1,
                texture: batches[i].texture,
                smooth: batches[i].smooth,
            },
        );
        lemma_batch(batches, lookups, start, i);
        lemma_push(commands_to_draw(batches, lookups, start, i), draw_command(batches, start, i));
    }
    assert(draws_in(commands_before(batches, lookups, start, n)) =~= all);
}

proof fn lemma_prefix(
    batches: Seq<InstanceBatch>,
    lookups: Seq<BatchLookup>,
    start: int,
    i: int,
    n: int,
)
    requires
        0 <= i <= n,
    ensures
        commands_before(batches, lookups, start, i).is_prefix_of(
            commands_before(batches, lookups, start, n),
        ),
    decreases n,
{
    if i < n {
        lemma_prefix(batches, lookups, start, i, n - 1);
    }
}

proof fn lemma_prefix_of_sum(
    head: Seq<PassCommand>,
    command: PassCommand,
    middle: Seq<PassCommand>,
    rest: Seq<PassCommand>,
)
    requires
        head.push(command).is_prefix_of(middle),
    ensures
        head.len() < (middle + rest).len(),
        (middle + rest)[head.len() as int] == command,
        (middle + rest).take(head.len() as int) == head,
{
    assert(head.push(command).len() == head.len() + 1);
    assert forall|k: int| 0 <= k <= head.len() implies (middle + rest)[k] == head.push(
        command,
    )[k] by {
        assert(head.push(command) =~= middle.subrange(0, head.push(command).len() as int));
        assert(middle.subrange(0, head.push(command).len() as int)[k] == middle[k]);
    }
    assert((middle + rest).take(head.len() as int) =~= head);
}

/// A pass draws each batch before the first that fails exactly once, in order, and draws nothing
/// else. The first draw begins with the instance number `start`, each draw begins where the one
/// before it ended, and a draw covers as many instances as its batch has.
pub proof fn law_draws_are_consecutive(
    batches: Seq<InstanceBatch>,
    lookups: Seq<BatchLookup>,
    start: u32,
)
    requires
        pass_end(batches, lookups, start as int) <= u32::MAX,
    ensures
        ({
            let n = drawn(lookups, batches.len() as int);
            let draws = draws_in(pass_commands(batches, lookups, start as int));
            &&& draws.len() == n
            &&& n > 0 ==> draws[0]->first_instance == start
            &&& forall|i: int|
                0 < i < n ==> (#[trigger] draws[i])->first_instance == draws[i - 1]->end_instance
            &&& forall|i: int|
                0 <= i < n ==> (#[trigger] draws[i]) is Draw && draws[i]->end_instance
                    - draws[i]->first_instance == batches[i].instance_count
            &&& n > 0 ==> draws[n - 1]->end_instance == pass_end(batches, lookups, start as int)
        }),
{
    let n = drawn(lookups, batches.len() as int);
    let s = start as int;
    lemma_drawn_bounds(lookups, batches.len() as int);
    lemma_draws(batches, lookups, s, n);
    let before = commands_before(batches, lookups, s, n);
    lemma_switch(before, lookups, n);
    assert(before + Seq::<PassCommand>::empty() =~= before);
    let draws = draws_in(pass_commands(batches, lookups, s));
    assert(draws == draws_in(before));
    assert forall|i: int| i <= n implies start + #[trigger] instances_before(batches, i)
        <= u32::MAX by {
        lemma_instances_monotone(batches, i, n);
    }
    assert forall|i: int| 0 < i < n implies (#[trigger] draws[i])->first_instance == draws[i
        - 1]->end_instance by {
        assert(start + instances_before(batches, i - 1 + 1) <= u32::MAX);
    }
    assert forall|i: int| 0 <= i < n implies (#[trigger] draws[i]) is Draw
        && draws[i]->end_instance - draws[i]->first_instance == batches[i].instance_count by {
        assert(start + instances_before(batches, i + 1) <= u32::MAX);
    }
    if n > 0 {
        assert(start + instances_before(batches, 0) <= u32::MAX);
    }
}

/// When a batch is drawn, its pipeline is in use, the push constants, the vertex buffer and the
/// instances have been set since that pipeline was, and its texture is bound. The caches must not
/// have answered, for this batch and all before it, with the index that stands for no pipeline.
pub proof fn law_draws_find_their_state(
    batches: Seq<InstanceBatch>,
    lookups: Seq<BatchLookup>,
    start: u32,
    i: int,
)
    requires
        0 <= i < drawn(lookups, batches.len() as int),
        exists|k: int| 0 <= k <= i && (#[trigger] lookups[k]).index->Ok_0 != usize::MAX,
    ensures
        ({
            let all = pass_commands(batches, lookups, start as int);
            let at = commands_before(batches, lookups, start as int, i + 1).len() - 1;
            &&& 0 <= at < all.len()
            &&& all[at] == draw_command(batches, start as int, i)
            &&& bound(all.take(at)) == (Bound {
                pipeline: Some(lookups[i].index->Ok_0),
                push_constants: true,
                vertex_buffer: true,
                instances: true,
                texture: Some((batches[i].texture, batches[i].smooth)),
            })
        }),
{
    let s = start as int;
    let n = drawn(lookups, batches.len() as int);
    let all = pass_commands(batches, lookups, s);
    let at = commands_before(batches, lookups, s, i + 1).len() - 1;
    lemma_drawn_bounds(lookups, batches.len() as int);
    lemma_bound(batches, lookups, s, i + 1);
    lemma_batch(batches, lookups, s, i);
    lemma_prefix(batches, lookups, s, i + 1, n);
    let rest = if n < batches.len() {
        failed_commands(lookups, n)
    } else {
        seq![]
    };
    lemma_prefix_of_sum(
        commands_to_draw(batches, lookups, s, i),
        draw_command(batches, s, i),
        commands_before(batches, lookups, s, n),
        rest,
    );
}

/// `command` goes to the place that the shaders read: the push constants to the vertex stage from
/// its start, the vertices to the first slot, the instances to the first bind group and the
/// texture to the second; a draw takes the four corners of the unit square.
pub open spec fn is_well_placed(command: PassCommand) -> bool {
    match command {
        PassCommand::SetPipeline { .. } => true,
        PassCommand::SetPushConstants { stage, offset } => stage == ShaderStage::Vertex && offset
            == 0,
        PassCommand::SetVertexBuffer { slot } => slot == 0,
        PassCommand::SetInstanceBindGroup { slot } => slot == 0,
        PassCommand::SetTextureBindGroup { slot, .. } => slot == 1,
        PassCommand::Draw { first_vertex, end_vertex, .. } => first_vertex == 0 && end_vertex == 4,
    }
}

proof fn lemma_well_placed(
    batches: Seq<InstanceBatch>,
    lookups: Seq<BatchLookup>,
    start: int,
    n: int,
)
    ensures
        forall|k: int|
            0 <= k < commands_before(batches, lookups, start, n).len() ==> is_well_placed(
                #[trigger] commands_before(batches, lookups, start, n)[k],
            ),
    decreases n,
{
    if n > 0 {
        lemma_well_placed(batches, lookups, start, n - 1);
        let before = commands_before(batches, lookups, start, n - 1);
        let all = commands_before(batches, lookups, start, n);
        assert forall|k: int| 0 <= k < all.len() implies is_well_placed(#[trigger] all[k]) by {
            if k < before.len() {
                assert(all[k] == before[k]);
            }
        }
    }
}

/// Every command of a pass, also of one that a batch ends early, goes to the place that the shaders
/// read.
pub proof fn law_commands_are_well_placed(
    batches: Seq<InstanceBatch>,
    lookups: Seq<BatchLookup>,
    start: u32,
    k: int,
)
    requires
        0 <= k < pass_commands(batches, lookups, start as int).len(),
    ensures
        is_well_placed(pass_commands(batches, lookups, start as int)[k]),
{
    let n = drawn(lookups, batches.len() as int);
    let before = commands_before(batches, lookups, start as int, n);
    lemma_well_placed(batches, lookups, start as int, n);
    if k < before.len() {
        assert(pass_commands(batches, lookups, start as int)[k] == before[k]);
    }
}

/// How many of the first `n` batches need another pipeline than the one in use.
pub open spec fn switch_count(lookups: Seq<BatchLookup>, n: int) -> nat
    decreases n,
{
    if n <= 0 {
        0
    } else {
        switch_count(lookups, n - 1) + if switches(lookups, n - 1) {
            1nat
        } else {
            0nat
        }
    }
}

/// A pipeline is put to use only where it changes: each batch costs two commands, and four more
/// where its pipeline is not already in use.
pub proof fn law_pipelines_are_reused(
    batches: Seq<InstanceBatch>,
    lookups: Seq<BatchLookup>,
    start: u32,
    n: int,
)
    requires
        0 <= n,
    ensures
        commands_before(batches, lookups, start as int, n).len() == 2 * n + 4 * switch_count(
            lookups,
            n,
        ),
    decreases n,
{
    if n > 0 {
        law_pipelines_are_reused(batches, lookups, start, n - 1);
    }
}

/// How many of `commands` put a pipeline to use.
pub open spec fn pipelines_set(commands: Seq<PassCommand>) -> nat
    decreases commands.len(),
{
    if commands.len() == 0 {
        0
    } else {
        pipelines_set(commands.drop_last()) + if commands.last() is SetPipeline {
            1nat
        } else {
            0nat
        }
    }
}

proof fn lemma_pipelines_pushed(commands: Seq<PassCommand>, command: PassCommand)
    ensures
        pipelines_set(commands.push(command)) == pipelines_set(commands) + if command
            is SetPipeline {
            1nat
        } else {
            0nat
        },
{
    assert(commands.push(command).drop_last() =~= commands);
}

proof fn lemma_pipelines_switched(
    commands: Seq<PassCommand>,
    lookups: Seq<BatchLookup>,
    i: int,
)
    ensures
        pipelines_set(commands + switch_commands(lookups, i)) == pipelines_set(commands)
            + if switches(lookups, i) {
            1nat
        } else {
            0nat
        },
{
    if switches(lookups, i) {
        let all = pipeline_commands(lookups[i].index->Ok_0);
        let c1 = commands.push(all[0]);
        let c2 = c1.push(all[1]);
        let c3 = c2.push(all[2]);
        lemma_pipelines_pushed(commands, all[0]);
        lemma_pipelines_pushed(c1, all[1]);
        lemma_pipelines_pushed(c2, all[2]);
        lemma_pipelines_pushed(c3, all[3]);
        assert(commands + switch_commands(lookups, i) =~= c3.push(all[3]));
    } else {
        assert(commands + switch_commands(lookups, i) =~= commands);
    }
}

proof fn lemma_pipelines_before(
    batches: Seq<InstanceBatch>,
    lookups: Seq<BatchLookup>,
    start: int,
    n: int,
)
    requires
        0 <= n,
    ensures
        pipelines_set(commands_before(batches, lookups, start, n)) == switch_count(lookups, n),
    decreases n,
{
    if n > 0 {
        let i = n - 1;
        let before = commands_before(batches, lookups, start, i);
        lemma_pipelines_before(batches, lookups, start, i);
        lemma_pipelines_switched(before, lookups, i);
        lemma_pipelines_pushed(
            before + switch_commands(lookups, i),
            PassCommand::SetTextureBindGroup {
                slot: 1,
                texture: batches[i].texture,
                smooth: batches[i].smooth,
            },
        );
        lemma_batch(batches, lookups, start, i);
        lemma_pipelines_pushed(
            commands_to_draw(batches, lookups, start, i),
            draw_command(batches, start, i),
        );
    }
}

/// A pass puts a pipeline to use once for each batch that is drawn and whose pipeline is not in
/// use already, and once more where a batch finds its pipeline and then misses its bind group.
pub proof fn law_pipelines_are_set_where_they_change(
    batches: Seq<InstanceBatch>,
    lookups: Seq<BatchLookup>,
    start: u32,
)
    ensures
        ({
            let n = drawn(lookups, batches.len() as int);
            let set = pipelines_set(pass_commands(batches, lookups, start as int));
            &&& n == batches.len() ==> set == switch_count(lookups, n)
            &&& n < batches.len() ==> set == switch_count(lookups, n) + if lookups[n].index is Ok
                && switches(lookups, n) && lookups[n].pipeline is Ok {
                1nat
            } else {
                0nat
            }
        }),
{
    let n = drawn(lookups, batches.len() as int);
    let before = commands_before(batches, lookups, start as int, n);
    lemma_drawn_bounds(lookups, batches.len() as int);
    lemma_pipelines_before(batches, lookups, start as int, n);
    lemma_pipelines_switched(before, lookups, n);
    assert(before + Seq::<PassCommand>::empty() =~= before);
}

/// A batch that fails ends the pass: what the caches hold for the batches after it changes
/// nothing.
pub proof fn law_failure_ends_the_pass(
    batches: Seq<InstanceBatch>,
    lookups: Seq<BatchLookup>,
    others: Seq<BatchLookup>,
    start: u32,
)
    requires
        drawn(lookups, batches.len() as int) < batches.len(),
        forall|k: int|
            0 <= k <= drawn(lookups, batches.len() as int) ==> #[trigger] lookups[k] == others[k],
    ensures
        pass_result(batches, lookups) is Err,
        pass_result(batches, others) == pass_result(batches, lookups),
        pass_commands(batches, others, start as int) == pass_commands(
            batches,
            lookups,
            start as int,
        ),
        pass_end(batches, others, start as int) == pass_end(batches, lookups, start as int),
{
    let m = drawn(lookups, batches.len() as int);
    lemma_drawn_bounds(lookups, batches.len() as int);
    lemma_same_prefix(batches, lookups, others, start as int, m);
    assert(lookups[m] == others[m]);
    assert(m > 0 ==> lookups[m - 1] == others[m - 1]);
    lemma_drawn_stops(others, m, batches.len() as int);
}

proof fn lemma_same_prefix(
    batches: Seq<InstanceBatch>,
    lookups: Seq<BatchLookup>,
    others: Seq<BatchLookup>,
    start: int,
    n: int,
)
    requires
        0 <= n,
        forall|k: int| 0 <= k < n ==> #[trigger] lookups[k] == others[k],
    ensures
        drawn(others, n) == drawn(lookups, n),
        commands_before(batches, others, start, n) == commands_before(
            batches,
            lookups,
            start,
            n,
        ),
    decreases n,
{
    if n > 0 {
        lemma_same_prefix(batches, lookups, others, start, n - 1);
        assert(lookups[n - 1] == others[n - 1]);
        assert(n > 1 ==> lookups[n - 2] == others[n - 2]);
    }
}

/// Where instance `k` of `instances` lies among the bytes of all of them.
pub proof fn law_instances_keep_their_place(instances: Seq<InstanceGPU>, bytes: Seq<u8>, k: int)
    requires
        memory_image(bytes, flatten(instances)),
        0 <= k < instances.len(),
    ensures
        bytes.len() == instances.len() * INSTANCE_SIZE,
        memory_image(
            bytes.subrange(k * INSTANCE_SIZE, (k + 1) * INSTANCE_SIZE),
            instances[k]@,
        ),
{
    let words = flatten(instances);
    let part = bytes.subrange(k * INSTANCE_SIZE, (k + 1) * INSTANCE_SIZE);
    assert forall|m: int| 0 <= m < INSTANCE_SIZE implies words[(k * INSTANCE_SIZE + m) / 4]
        == #[trigger] instances[k]@[m / 4] && (k * INSTANCE_SIZE + m) % 4 == m % 4 by {
        let w = (k * INSTANCE_SIZE + m) / 4;
        assert(w == k * 36 + m / 4);
        assert(w / 36 == k && w % 36 == m / 4);
    }
    if bytes == little_endian(words) {
        assert(part =~= little_endian(instances[k]@)) by {
            assert forall|m: int| 0 <= m < INSTANCE_SIZE implies part[m] == little_endian(
                instances[k]@,
            )[m] by {
                assert(instances[k]@[m / 4] == words[(k * INSTANCE_SIZE + m) / 4]);
            }
        }
    } else {
        assert(part =~= big_endian(instances[k]@)) by {
            assert forall|m: int| 0 <= m < INSTANCE_SIZE implies part[m] == big_endian(
                instances[k]@,
            )[m] by {
                assert(instances[k]@[m / 4] == words[(k * INSTANCE_SIZE + m) / 4]);
            }
        }
    }
}

/// The batches of `list` hold as many instances as the list has.
pub open spec fn is_balanced(list: RenderList) -> bool {
    instances_before(list.batches@, list.batches@.len() as int) == list.instances@.len()
}

/// Where the batches hold as many instances as the list has, a draw reads only bytes that were
/// written for its own list, and the instances of its own batch among them: instance number
/// `start + k` lies where instance `k` of the list was written.
pub proof fn law_draws_read_their_own_instances(
    before: Kelp,
    list: RenderList,
    replies: ListReplies,
    after: Kelp,
    outcome: ListOutcome,
    i: int,
)
    requires
        list_rendered(before, list, replies, after, outcome),
        before.fits(list, replies),
        before.draws(list, replies),
        is_balanced(list),
        0 <= i < drawn(replies.lookups@, list.batches@.len() as int),
    ensures
        ({
            let start = before.start() as int;
            let draw = draw_command(list.batches@, start, i);
            let first = instances_before(list.batches@, i);
            let staging = outcome.staging->0;
            &&& draw->first_instance == start + first
            &&& draw->end_instance == start + first + list.batches@[i].instance_count
            &&& first + list.batches@[i].instance_count <= list.instances@.len()
            &&& staging.bytes@.len() == list.instances@.len() * INSTANCE_SIZE
            &&& staging.offset <= draw->first_instance * INSTANCE_SIZE
            &&& draw->end_instance * INSTANCE_SIZE <= staging.offset + staging.bytes@.len()
            &&& forall|k: int|
                0 <= k < list.instances@.len() ==> memory_image(
                    staging.bytes@.subrange(
                        (start + k) * INSTANCE_SIZE - staging.offset,
                        (start + k + 1) * INSTANCE_SIZE - staging.offset,
                    ),
                    (#[trigger] list.instances@[k])@,
                )
        }),
{
    let start = before.start() as int;
    let n = list.batches@.len() as int;
    let staging = outcome.staging->0;
    lemma_drawn_bounds(replies.lookups@, n);
    lemma_instances_monotone(list.batches@, i + 1, drawn(replies.lookups@, n));
    lemma_instances_monotone(list.batches@, drawn(replies.lookups@, n), n);
    law_instances_keep_their_place(list.instances@, staging.bytes@, 0);
    assert forall|k: int| 0 <= k < list.instances@.len() implies memory_image(
        staging.bytes@.subrange(
            (start + k) * INSTANCE_SIZE - staging.offset,
            (start + k + 1) * INSTANCE_SIZE - staging.offset,
        ),
        (#[trigger] list.instances@[k])@,
    ) by {
        law_instances_keep_their_place(list.instances@, staging.bytes@, k);
        assert((start + k) * INSTANCE_SIZE - staging.offset == k * INSTANCE_SIZE);
        assert((start + k + 1) * INSTANCE_SIZE - staging.offset == (k + 1) * INSTANCE_SIZE);
    }
}

/// Where a list's batches hold as many instances as it has, and all of them were drawn, a later
/// list of the frame is written behind it, whatever is called in between; and right behind it,
/// without a gap, where only the user interface is drawn and the surface resized in between.
/// `states` begins where the first list left the renderer and ends where the later one finds it.
pub proof fn law_lists_follow_each_other(
    before: Kelp,
    list: RenderList,
    replies: ListReplies,
    outcome: ListOutcome,
    states: Seq<Kelp>,
    next_list: RenderList,
    next_replies: ListReplies,
    after: Kelp,
    next_outcome: ListOutcome,
)
    requires
        is_frame(states),
        list_rendered(before, list, replies, states[0], outcome),
        list_rendered(states.last(), next_list, next_replies, after, next_outcome),
        before.stages(list, replies),
        outcome.result is Ok,
        is_balanced(list),
        !next_list.is_empty(),
    ensures
        next_outcome.new_frame is None,
        next_outcome.staging is Some,
        next_outcome.staging->0.offset >= outcome.staging->0.offset
            + outcome.staging->0.bytes@.len(),
        draws_no_list(states) ==> next_outcome.staging->0.offset == outcome.staging->0.offset
            + outcome.staging->0.bytes@.len(),
{
    let between = states[0];
    lemma_drawn_bounds(replies.lookups@, list.batches@.len() as int);
    law_instances_keep_their_place(list.instances@, outcome.staging->0.bytes@, 0);
    lemma_start_grows(states);
    if draws_no_list(states) {
        lemma_start_stays(states);
    }
    assert(between.start() == before.start() + list.instances@.len());
    assert(between.start() * INSTANCE_SIZE == before.start() * INSTANCE_SIZE
        + list.instances@.len() * INSTANCE_SIZE);
}

proof fn lemma_start_stays(states: Seq<Kelp>)
    requires
        states.len() > 0,
        draws_no_list(states),
    ensures
        states.last().start() == states[0].start(),
    decreases states.len(),
{
    if states.len() > 1 {
        let earlier = states.drop_last();
        assert forall|i: int| 0 <= i < earlier.len() - 1 implies {
            ||| is_interface_step(#[trigger] earlier[i], earlier[i + 1])
            ||| is_resize(earlier[i], earlier[i + 1])
        } by {
            assert(earlier[i] == states[i]);
        }
        lemma_start_stays(earlier);
        let n = states.len() - 2;
        assert(earlier.last() == states[n]);
    }
}

proof fn lemma_draws_end(
    batches: Seq<InstanceBatch>,
    lookups: Seq<BatchLookup>,
    start: int,
    n: int,
)
    requires
        0 <= n,
        0 <= start,
        start + instances_before(batches, n) <= u32::MAX,
    ensures
        forall|k: int|
            #![trigger commands_before(batches, lookups, start, n)[k]]
            0 <= k < commands_before(batches, lookups, start, n).len() && commands_before(
                batches,
                lookups,
                start,
                n,
            )[k] is Draw ==> commands_before(batches, lookups, start, n)[k]->end_instance <= start
                + instances_before(batches, n),
    decreases n,
{
    if n > 0 {
        lemma_draws_end(batches, lookups, start, n - 1);
        let before = commands_before(batches, lookups, start, n - 1);
        let all = commands_before(batches, lookups, start, n);
        assert forall|k: int| 0 <= k < all.len() && (#[trigger] all[k]) is Draw implies all[k]
            ->end_instance <= start + instances_before(batches, n) by {
            if k < before.len() {
                assert(all[k] == before[k]);
            }
        }
    }
}

proof fn lemma_start_grows(states: Seq<Kelp>)
    requires
        is_frame(states),
        states[0].per_frame is Some,
    ensures
        states.last().per_frame is Some,
        states[0].start() <= states.last().start(),
    decreases states.len(),
{
    if states.len() > 1 {
        let earlier = states.drop_last();
        assert forall|i: int| 0 <= i < earlier.len() - 1 implies #[trigger] is_frame_step(
            earlier[i],
            earlier[i + 1],
        ) by {
            assert(is_frame_step(states[i], states[i + 1]));
        }
        lemma_start_grows(earlier);
        let n = states.len() - 2;
        assert(is_frame_step(states[n], states[n + 1]));
    }
}

/// Whatever is called in between, as long as the frame is not presented, a later list overwrites
/// no byte of an instance that an earlier list of the frame draws: it writes at or behind the end
/// of every earlier draw. `states` begins where the earlier list left the renderer and ends where
/// the later list finds it.
pub proof fn law_draws_are_never_overwritten(
    before: Kelp,
    list: RenderList,
    replies: ListReplies,
    outcome: ListOutcome,
    states: Seq<Kelp>,
    next_list: RenderList,
    next_replies: ListReplies,
    after: Kelp,
    next_outcome: ListOutcome,
)
    requires
        before.fits(list, replies),
        before.stages(list, replies),
        is_frame(states),
        list_rendered(before, list, replies, states[0], outcome),
        list_rendered(states.last(), next_list, next_replies, after, next_outcome),
        !next_list.is_empty(),
    ensures
        next_outcome.new_frame is None,
        next_outcome.staging is Some,
        outcome.pass matches Some(pass) ==> forall|k: int|
            0 <= k < pass.commands@.len() && (#[trigger] pass.commands@[k]) is Draw
                ==> pass.commands@[k]->end_instance * INSTANCE_SIZE
                <= next_outcome.staging->0.offset,
{
    lemma_start_grows(states);
    if before.draws(list, replies) {
        let start = before.start() as int;
        let batches = list.batches@;
        let lookups = replies.lookups@;
        let n = drawn(lookups, batches.len() as int);
        let all = outcome.pass->0.commands@;
        let part = commands_before(batches, lookups, start, n);
        lemma_drawn_bounds(lookups, batches.len() as int);
        lemma_draws_end(batches, lookups, start, n);
        assert forall|k: int| 0 <= k < all.len() && (#[trigger] all[k]) is Draw implies all[k]
            ->end_instance * INSTANCE_SIZE <= next_outcome.staging->0.offset by {
            assert(k < part.len() ==> all[k] == part[k]);
            assert(all[k]->end_instance <= states.last().start());
        }
    }
}

/// Everything that a list writes to the staging buffer lies in the part that presenting the frame
/// copies to the instance buffer, whatever is called in between. `states` begins where the list
/// left the renderer and ends where it is presented.
pub proof fn law_staged_bytes_are_copied(
    before: Kelp,
    list: RenderList,
    replies: ListReplies,
    outcome: ListOutcome,
    states: Seq<Kelp>,
    current: Option<Result<(), SurfaceError>>,
    presentation: Result<Presentation, KelpError>,
)
    requires
        before.fits(list, replies),
        is_frame(states),
        list_rendered(before, list, replies, states[0], outcome),
        before.stages(list, replies),
        frame_presented(states.last(), current, presentation),
    ensures
        presentation matches Ok(Presentation::Frame { copy, encoders }) && {
            &&& copy.source_offset == copy.destination_offset
            &&& copy.source_offset <= outcome.staging->0.offset
            &&& outcome.staging->0.offset + outcome.staging->0.bytes@.len() <= copy.source_offset
                + copy.size
        },
{
    lemma_start_grows(states);
    law_instances_keep_their_place(list.instances@, outcome.staging->0.bytes@, 0);
    assert((before.start() + list.instances@.len()) * INSTANCE_SIZE == before.start()
        * INSTANCE_SIZE + list.instances@.len() * INSTANCE_SIZE);
}

/// A list succeeds exactly where it is empty, or where there is a frame, its target is known, all
/// resources could be made ready and the caches hold what each batch needs.
pub proof fn law_success_is_owed(
    before: Kelp,
    list: RenderList,
    replies: ListReplies,
    after: Kelp,
    outcome: ListOutcome,
)
    requires
        list_rendered(before, list, replies, after, outcome),
    ensures
        outcome.result is Ok <==> list.is_empty() || (before.draws(list, replies) && forall|i: int|
            0 <= i < list.batches@.len() ==> #[trigger] failure(replies.lookups@, i) is None),
{
    lemma_drawn_bounds(replies.lookups@, list.batches@.len() as int);
}

/// Presenting a frame ends it: the next list with something to draw needs another frame from the
/// window, and its instances are numbered from zero.
pub proof fn law_presenting_starts_over(kelp: Kelp, list: RenderList, replies: ListReplies)
    requires
        !list.is_empty(),
        replies.surface is None,
    ensures
        kelp.without_frame().start() == 0,
        kelp.without_frame().question(list, replies) == Question::Surface,
        kelp.without_frame().without_frame() == kelp.without_frame(),
{
}

/// An empty list needs nothing, succeeds, and leaves the renderer as it was.
pub proof fn law_empty_lists_do_nothing(
    before: Kelp,
    list: RenderList,
    replies: ListReplies,
    after: Kelp,
    outcome: ListOutcome,
)
    requires
        list.is_empty(),
        list_rendered(before, list, replies, after, outcome),
    ensures
        before.question(list, replies) == Question::Nothing,
        before.fits(list, replies),
        after == before,
        outcome.new_frame is None,
        outcome.staging is None,
        outcome.pass is None,
        outcome.result is Ok,
{
}

/// A frame submits its buffer commands before its draws, and its draws before the user interface,
/// which is submitted where it was drawn and can be drawn.
pub proof fn law_interface_comes_last(
    kelp: Kelp,
    data: DrawDataId,
    current: Option<Result<(), SurfaceError>>,
    presentation: Result<Presentation, KelpError>,
)
    requires
        kelp.per_frame is Some,
        frame_presented(kelp.with_interface(data), current, presentation),
    ensures
        presentation matches Ok(Presentation::Frame { copy, encoders }) && {
            &&& encoders@.len() >= 2
            &&& encoders@[0] == FrameEncoder::Buffer
            &&& encoders@[1] == FrameEncoder::Draw
            &&& kelp.imgui_renderer ==> encoders@.len() == 3 && encoders@[2]
                == FrameEncoder::Imgui(data)
            &&& !kelp.imgui_renderer ==> encoders@ == frame_encoders(kelp.per_frame->0)
        },
{
}

/// Where the user interface is drawn twice in a frame, with lists or other calls in between or
/// without, only what was drawn last is submitted: presenting the frame submits three encoders,
/// and none with what was drawn first. `states` begins where the first drawing left the renderer
/// and ends where the second finds it.
pub proof fn law_last_interface_wins(
    kelp: Kelp,
    first: DrawDataId,
    states: Seq<Kelp>,
    second: DrawDataId,
    current: Option<Result<(), SurfaceError>>,
    presentation: Result<Presentation, KelpError>,
)
    requires
        kelp.imgui_renderer,
        kelp.per_frame is Some,
        is_frame(states),
        states[0] == kelp.with_interface(first),
        frame_presented(states.last().with_interface(second), current, presentation),
    ensures
        states.last().with_interface(second).per_frame is Some,
        states.last().with_interface(second).per_frame->0.imgui_encoder == Some(second),
        kelp.with_interface(first).with_interface(second) == kelp.with_interface(second),
        presentation matches Ok(Presentation::Frame { copy, encoders }) && {
            &&& encoders@ == seq![
                FrameEncoder::Buffer,
                FrameEncoder::Draw,
                FrameEncoder::Imgui(second),
            ]
            &&& first != second ==> !encoders@.contains(FrameEncoder::Imgui(first))
        },
{
    lemma_start_grows(states);
    assert forall|i: int| 0 <= i < states.len() - 1 implies #[trigger] is_step(
        states[i],
        states[i + 1],
    ) by {
        assert(is_frame_step(states[i], states[i + 1]));
    }
    law_configuration_is_kept(states);
}

/// The user interface stays in a frame when more lists are drawn, and a frame that a list begins
/// has none. Without a frame there is nothing to draw it into.
pub proof fn law_interface_belongs_to_a_frame(
    before: Kelp,
    list: RenderList,
    replies: ListReplies,
    after: Kelp,
    outcome: ListOutcome,
    data: DrawDataId,
)
    requires
        list_rendered(before, list, replies, after, outcome),
        before.stages(list, replies),
    ensures
        before.per_frame is Some ==> after.per_frame->0.imgui_encoder
            == before.per_frame->0.imgui_encoder,
        before.per_frame is None ==> after.per_frame->0.imgui_encoder is None
            && before.with_interface(data) == before,
{
}

/// A call of `render_list` takes the renderer from `before` to `after`.
pub open spec fn is_list_step(before: Kelp, after: Kelp) -> bool {
    exists|list: RenderList, replies: ListReplies, outcome: ListOutcome| #[trigger]
        list_rendered(before, list, replies, after, outcome)
}

/// A call of `render_imgui` takes the renderer from `before` to `after`.
pub open spec fn is_interface_step(before: Kelp, after: Kelp) -> bool {
    exists|data: DrawDataId| after == #[trigger] before.with_interface(data)
}

/// A call of `set_surface_size` takes the renderer from `before` to `after`.
pub open spec fn is_resize(before: Kelp, after: Kelp) -> bool {
    exists|width: u32, height: u32| after == #[trigger] before.resized(width, height)
}

/// A call of any operation but `present_frame` takes the renderer from `before` to `after`.
pub open spec fn is_frame_step(before: Kelp, after: Kelp) -> bool {
    ||| is_list_step(before, after)
    ||| is_interface_step(before, after)
    ||| is_resize(before, after)
}

/// A call of any operation takes the renderer from `before` to `after`.
pub open spec fn is_step(before: Kelp, after: Kelp) -> bool {
    ||| is_frame_step(before, after)
    ||| after == before.without_frame()
}

/// The renderer goes through `states`, one call after the other.
pub open spec fn is_history(states: Seq<Kelp>) -> bool {
    &&& states.len() > 0
    &&& forall|i: int| 0 <= i < states.len() - 1 ==> #[trigger] is_step(states[i], states[i + 1])
}

/// The renderer goes through `states`, one call after the other, and presents nothing meanwhile.
pub open spec fn is_frame(states: Seq<Kelp>) -> bool {
    &&& states.len() > 0
    &&& forall|i: int|
        0 <= i < states.len() - 1 ==> #[trigger] is_frame_step(states[i], states[i + 1])
}

/// In `states`, one call after the other only draws the user interface or resizes the surface.
pub open spec fn draws_no_list(states: Seq<Kelp>) -> bool {
    forall|i: int|
        0 <= i < states.len() - 1 ==> {
            ||| is_interface_step(#[trigger] states[i], states[i + 1])
            ||| is_resize(states[i], states[i + 1])
        }
}

proof fn lemma_earlier_history(states: Seq<Kelp>)
    requires
        is_history(states),
        states.len() > 1,
    ensures
        is_history(states.drop_last()),
        is_step(states.drop_last().last(), states.last()),
{
    let earlier = states.drop_last();
    assert forall|i: int| 0 <= i < earlier.len() - 1 implies #[trigger] is_step(
        earlier[i],
        earlier[i + 1],
    ) by {
        assert(is_step(states[i], states[i + 1]));
    }
    let n = states.len() - 2;
    assert(is_step(states[n], states[n + 1]));
}

/// `a` and `b` differ in their sizes at most.
pub open spec fn same_but_for_size(a: SurfaceConfiguration, b: SurfaceConfiguration) -> bool {
    a == SurfaceConfiguration { width: a.width, height: a.height, ..b }
}

/// Whatever is called, all of the surface's configuration but its size is kept, and the renderer
/// keeps or lacks the user interface.
pub proof fn law_configuration_is_kept(states: Seq<Kelp>)
    requires
        is_history(states),
    ensures
        same_but_for_size(states.last().window_surface_config, states[0].window_surface_config),
        states.last().imgui_renderer == states[0].imgui_renderer,
    decreases states.len(),
{
    if states.len() > 1 {
        lemma_earlier_history(states);
        law_configuration_is_kept(states.drop_last());
    }
}

/// Where the size is not set, the whole configuration of the surface stays as it is.
pub proof fn law_only_resizing_changes_the_surface(states: Seq<Kelp>)
    requires
        is_history(states),
        forall|i: int|
            0 <= i < states.len() - 1 ==> {
                ||| is_list_step(#[trigger] states[i], states[i + 1])
                ||| is_interface_step(states[i], states[i + 1])
                ||| states[i + 1] == states[i].without_frame()
            },
    ensures
        states.last().window_surface_config == states[0].window_surface_config,
    decreases states.len(),
{
    if states.len() > 1 {
        lemma_earlier_history(states);
        let earlier = states.drop_last();
        assert forall|i: int| 0 <= i < earlier.len() - 1 implies {
            ||| is_list_step(#[trigger] earlier[i], earlier[i + 1])
            ||| is_interface_step(earlier[i], earlier[i + 1])
            ||| earlier[i + 1] == earlier[i].without_frame()
        } by {
            assert(earlier[i] == states[i]);
        }
        law_only_resizing_changes_the_surface(earlier);
        let n = states.len() - 2;
        assert(earlier.last() == states[n]);
    }
}

/// The renderer has no frame with the user interface unless it has a renderer for it.
pub open spec fn interface_can_be_drawn(kelp: Kelp) -> bool {
    kelp.per_frame is Some && kelp.per_frame->0.imgui_encoder is Some ==> kelp.imgui_renderer
}

/// At any time after the start, a frame has the user interface only where there is a renderer for
/// it.
pub proof fn law_interface_needs_a_renderer(
    surface: SurfaceConfiguration,
    imgui: bool,
    states: Seq<Kelp>,
)
    requires
        is_history(states),
        states[0] == Kelp::initial(surface, imgui),
    ensures
        interface_can_be_drawn(states.last()),
    decreases states.len(),
{
    if states.len() > 1 {
        lemma_earlier_history(states);
        law_interface_needs_a_renderer(surface, imgui, states.drop_last());
    }
}

/// At any time after the start, the textures to draw to have the format that the pipelines were
/// made for, so the same pipelines draw to the window and to textures; and frames are presented in
/// step with the display.
pub proof fn law_pipelines_fit_render_textures(
    surface: SurfaceConfiguration,
    imgui: bool,
    setup: Setup,
    states: Seq<Kelp>,
    texture: TextureDescriptor,
    width: u32,
    height: u32,
)
    requires
        is_history(states),
        states[0] == Kelp::initial(surface, imgui),
        setup.formats_fit(states[0].window_surface_config.format, imgui),
        states.last().is_render_texture(texture, width, height),
    ensures
        texture.format == PixelFormat::Surface(setup.pipeline_format),
        setup.imgui_format is Some <==> states.last().imgui_renderer,
        states.last().window_surface_config.present_mode == PresentMode::Fifo,
{
    law_configuration_is_kept(states);
}

/// The size that was set last is the size of the surface, and setting it leaves the frame in
/// progress alone.
pub proof fn law_last_size_wins(kelp: Kelp, width: u32, height: u32, w: u32, h: u32)
    ensures
        kelp.resized(w, h).resized(width, height) == kelp.resized(width, height),
        kelp.resized(width, height).per_frame == kelp.per_frame,
        kelp.resized(width, height).window_surface_config.width == width,
        kelp.resized(width, height).window_surface_config.height == height,
{
}

/// `next` is what is known after `question` was answered, in whatever way, on top of `replies`.
pub open spec fn is_answered(question: Question, replies: ListReplies, next: ListReplies) -> bool {
    &&& next.surface == replies.surface || (question is Surface && replies.surface is None)
    &&& next.target == replies.target || (question is Target && replies.target is None)
    &&& match question {
        Question::Surface => next.surface is Some,
        Question::Target { .. } => next.target is Some,
        _ => true,
    }
    &&& if question is Pipeline || question is BindGroup {
        exists|reply: Result<(), CacheError>|
            next.resources@ == #[trigger] replies.resources@.push(reply)
    } else {
        next.resources@ == replies.resources@
    }
    &&& if question is Lookup {
        exists|reply: BatchLookup| next.lookups@ == #[trigger] replies.lookups@.push(reply)
    } else {
        next.lookups@ == replies.lookups@
    }
}

/// How many questions about `list` are left at most.
pub open spec fn questions_left(list: RenderList, replies: ListReplies) -> int {
    let n = list.batches@.len() as int;
    let surface: int = if replies.surface is None {
        1
    } else {
        0
    };
    let target: int = if replies.target is None {
        1
    } else {
        0
    };
    let resources: int = if replies.resources@.len() < 2 * n {
        2 * n - replies.resources@.len()
    } else {
        0
    };
    let lookups: int = if replies.lookups@.len() < n {
        n - replies.lookups@.len()
    } else {
        0
    };
    surface + target + resources + lookups
}

/// The questions about a list come to an end: however one is answered, fewer are left, and none is
/// asked where none is left.
pub proof fn law_questions_end(
    kelp: Kelp,
    list: RenderList,
    replies: ListReplies,
    next: ListReplies,
)
    requires
        is_answered(kelp.question(list, replies), replies, next),
    ensures
        questions_left(list, next) >= 0,
        kelp.question(list, replies) != Question::Nothing ==> questions_left(list, next)
            < questions_left(list, replies),
        questions_left(list, replies) == 0 ==> kelp.question(list, replies) == Question::Nothing,
{
}

/// A list whose batches hold as many instances as it has can begin a frame exactly where there is
/// room for its instances in the staging buffer, whatever the caches hold.
pub proof fn law_room_decides(kelp: Kelp, list: RenderList, replies: ListReplies)
    requires
        kelp.per_frame is None,
        kelp.stages(list, replies),
        is_balanced(list),
    ensures
        kelp.fits(list, replies) <==> list.instances@.len() <= INSTANCE_BUFFER_SIZE / INSTANCE_SIZE,
{
    let n = list.batches@.len() as int;
    lemma_drawn_bounds(replies.lookups@, n);
    lemma_instances_monotone(list.batches@, drawn(replies.lookups@, n), n);
}

/// The shader's binding is as large as one instance at least, and the buffer behind it is larger.
pub proof fn law_instances_fit_their_binding(setup: Setup, instance: InstanceGPU, bytes: Seq<u8>)
    requires
        setup.layouts_fit(),
        setup.buffers_fit(),
        memory_image(bytes, instance@),
    ensures
        setup.vertex_bind_layout.entries@[0].ty matches BindingType::StorageBuffer {
            min_binding_size,
            ..
        } && min_binding_size == bytes.len() && min_binding_size <= setup.instance_buffer.size,
        setup.vertex_bind_group.binding == setup.vertex_bind_layout.entries@[0].binding,
        setup.instance_buffer.size == setup.instance_staging_buffer.size,
{
}

} // verus!
