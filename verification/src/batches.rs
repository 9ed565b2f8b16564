//! Batches of instances, and the commands that draw them.

use crate::descriptors::ShaderStage;
use crate::error::CacheError;
use vstd::prelude::*;

verus! {

/// A texture in the texture cache.
#[derive(Clone, Copy, Debug, PartialEq, Eq, Structural)]
pub struct KelpTextureId {
    pub key: u64,
}

/// A way of blending, by the number under which the pipeline cache knows it.
#[derive(Clone, Copy, Debug, PartialEq, Eq, Structural)]
pub struct BlendMode {
    pub number: u32,
}

/// Consecutive instances that are drawn in the same way.
#[derive(Clone, Copy, Debug, PartialEq, Eq, Structural)]
pub struct InstanceBatch {
    pub texture: KelpTextureId,
    pub smooth: bool,
    pub blend_mode: BlendMode,
    pub instance_count: u32,
}

/// What the pipeline cache and the texture cache hold for one batch.
#[derive(Clone, Copy, Debug, PartialEq, Eq)]
pub struct BatchLookup {
    /// The index of the pipeline for the batch's blend mode.
    pub index: Result<usize, CacheError>,
    /// Whether there is a pipeline at that index.
    pub pipeline: Result<(), CacheError>,
    /// Whether there is a bind group for the batch's texture and smoothness.
    pub bind_group: Result<(), CacheError>,
}

/// A command inside a render pass.
#[derive(Clone, Copy, Debug, PartialEq, Eq, Structural)]
pub enum PassCommand {
    /// Use the pipeline at `index` of the pipeline cache.
    SetPipeline { index: usize },
    /// Hand the pass's push constants to a stage.
    SetPushConstants { stage: ShaderStage, offset: u32 },
    /// Use the whole vertex buffer.
    SetVertexBuffer { slot: u32 },
    /// Use the bind group of the instance buffer.
    SetInstanceBindGroup { slot: u32 },
    /// Use the bind group of a texture.
    SetTextureBindGroup { slot: u32, texture: KelpTextureId, smooth: bool },
    /// Draw the vertices once for each instance; both ranges leave out their end.
    Draw { first_vertex: u32, end_vertex: u32, first_instance: u32, end_instance: u32 },
}

/// How many instances the first `n` batches hold together.
pub open spec fn instances_before(batches: Seq<InstanceBatch>, n: int) -> nat
    decreases n,
{
    if n <= 0 {
        0
    } else {
        instances_before(batches, n - 1) + batches[n - 1].instance_count as nat
    }
}

/// The index of the pipeline that is in use when batch `i` begins. Before the first batch none is;
/// the largest index, which is not a valid one, stands for that.
pub open spec fn pipeline_before(lookups: Seq<BatchLookup>, i: int) -> usize {
    if i <= 0 {
        usize::MAX
    } else {
        lookups[i - 1].index->Ok_0
    }
}

/// Batch `i` has another index than the one in use.
pub open spec fn switches(lookups: Seq<BatchLookup>, i: int) -> bool {
    lookups[i].index->Ok_0 != pipeline_before(lookups, i)
}

/// What keeps batch `i` from being drawn: its pipeline is looked up only where it is not already
/// in use, and its bind group last.
pub open spec fn failure(lookups: Seq<BatchLookup>, i: int) -> Option<CacheError> {
    match lookups[i].index {
        Err(e) => Some(e),
        Ok(_) => if switches(lookups, i) && lookups[i].pipeline is Err {
            Some(lookups[i].pipeline->Err_0)
        } else {
            match lookups[i].bind_group {
                Err(e) => Some(e),
                Ok(_) => None,
            }
        },
    }
}

/// How many of the first `n` batches are drawn: all before the first that fails.
pub open spec fn drawn(lookups: Seq<BatchLookup>, n: int) -> int
    decreases n,
{
    if n <= 0 {
        0
    } else if drawn(lookups, n - 1) == n - 1 && failure(lookups, n - 1) is None {
        n
    } else {
        drawn(lookups, n - 1)
    }
}

/// The commands that put the pipeline at `index` to use.
pub open spec fn pipeline_commands(index: usize) -> Seq<PassCommand> {
    seq![
        PassCommand::SetPipeline { index },
        PassCommand::SetPushConstants { stage: ShaderStage::Vertex, offset: 0 },
        PassCommand::SetVertexBuffer { slot: 0 },
        PassCommand::SetInstanceBindGroup { slot: 0 },
    ]
}

/// The commands that put batch `i`'s pipeline to use, if it is not in use already.
pub open spec fn switch_commands(lookups: Seq<BatchLookup>, i: int) -> Seq<PassCommand> {
    if switches(lookups, i) {
        pipeline_commands(lookups[i].index->Ok_0)
    } else {
        seq![]
    }
}

/// The command that draws batch `i` when the list's first instance has the number `start`.
pub open spec fn draw_command(batches: Seq<InstanceBatch>, start: int, i: int) -> PassCommand {
    PassCommand::Draw {
        first_vertex: 0,
        end_vertex: 4,
        first_instance: (start + instances_before(batches, i)) as u32,
        end_instance: (start + instances_before(batches, i + 1)) as u32,
    }
}

/// All commands of batch `i`.
pub open spec fn batch_commands(
    batches: Seq<InstanceBatch>,
    lookups: Seq<BatchLookup>,
    start: int,
    i: int,
) -> Seq<PassCommand> {
    switch_commands(lookups, i) + seq![
        PassCommand::SetTextureBindGroup {
            slot: 1,
            texture: batches[i].texture,
            smooth: batches[i].smooth,
        },
        draw_command(batches, start, i),
    ]
}

/// The commands of the first `n` batches.
pub open spec fn commands_before(
    batches: Seq<InstanceBatch>,
    lookups: Seq<BatchLookup>,
    start: int,
    n: int,
) -> Seq<PassCommand>
    decreases n,
{
    if n <= 0 {
        seq![]
    } else {
        commands_before(batches, lookups, start, n - 1) + batch_commands(
            batches,
            lookups,
            start,
            n - 1,
        )
    }
}

/// The commands that are left in the pass by a batch that fails: a pipeline may have been put to
/// use before its bind group was missed.
pub open spec fn failed_commands(lookups: Seq<BatchLookup>, i: int) -> Seq<PassCommand> {
    if lookups[i].index is Ok && !(switches(lookups, i) && lookups[i].pipeline is Err) {
        switch_commands(lookups, i)
    } else {
        seq![]
    }
}

/// The commands of a pass over all batches.
pub open spec fn pass_commands(
    batches: Seq<InstanceBatch>,
    lookups: Seq<BatchLookup>,
    start: int,
) -> Seq<PassCommand> {
    let n = drawn(lookups, batches.len() as int);
    commands_before(batches, lookups, start, n) + if n < batches.len() {
        failed_commands(lookups, n)
    } else {
        seq![]
    }
}

/// How a pass over all batches ends: with the first batch's failure, if there is one.
pub open spec fn pass_result(batches: Seq<InstanceBatch>, lookups: Seq<BatchLookup>) -> Result<
    (),
    CacheError,
> {
    let n = drawn(lookups, batches.len() as int);
    if n < batches.len() {
        Err(failure(lookups, n)->0)
    } else {
        Ok(())
    }
}

/// The number of the instance after the last one that a pass over all batches draws.
pub open spec fn pass_end(
    batches: Seq<InstanceBatch>,
    lookups: Seq<BatchLookup>,
    start: int,
) -> int {
    start + instances_before(batches, drawn(lookups, batches.len() as int))
}

/// What a pass over the batches of a list comes to.
#[derive(Debug, PartialEq, Eq)]
pub struct Recording {
    pub commands: Vec<PassCommand>,
    /// The number of the instance after the last one drawn.
    pub end: u32,
    pub result: Result<(), CacheError>,
}

pub(crate) proof fn lemma_drawn_stops(lookups: Seq<BatchLookup>, i: int, n: int)
    requires
        0 <= i < n,
        drawn(lookups, i) == i,
        failure(lookups, i) is Some,
    ensures
        drawn(lookups, n) == i,
    decreases n,
{
    if n > i + 1 {
        lemma_drawn_stops(lookups, i, n - 1);
    }
}

proof fn lemma_drawn_grows(lookups: Seq<BatchLookup>, i: int, n: int)
    requires
        0 <= i <= n,
        drawn(lookups, i) == i,
    ensures
        drawn(lookups, n) >= i,
    decreases n,
{
    if i < n {
        lemma_drawn_grows(lookups, i, n - 1);
    }
}

pub(crate) proof fn lemma_drawn_bounds(lookups: Seq<BatchLookup>, n: int)
    requires
        0 <= n,
    ensures
        0 <= drawn(lookups, n) <= n,
        drawn(lookups, drawn(lookups, n)) == drawn(lookups, n),
        forall|i: int| 0 <= i < drawn(lookups, n) ==> #[trigger] failure(lookups, i) is None,
        drawn(lookups, n) < n ==> failure(lookups, drawn(lookups, n)) is Some,
    decreases n,
{
    if n > 0 {
        lemma_drawn_bounds(lookups, n - 1);
    }
}

pub(crate) proof fn lemma_instances_monotone(batches: Seq<InstanceBatch>, i: int, n: int)
    requires
        i <= n,
    ensures
        instances_before(batches, i) <= instances_before(batches, n),
    decreases n - i,
{
    if i < n {
        lemma_instances_monotone(batches, i, n - 1);
    }
}

/// Records the batches one after the other, up to the first one that fails.
pub fn record_batches(
    batches: &Vec<InstanceBatch>,
    lookups: &Vec<BatchLookup>,
    start: u32,
) -> (recording: Recording)
    requires
        lookups@.len() >= batches@.len(),
        pass_end(batches@, lookups@, start as int) <= u32::MAX,
    ensures
        recording.commands@ == pass_commands(batches@, lookups@, start as int),
        recording.end == pass_end(batches@, lookups@, start as int),
        recording.result == pass_result(batches@, lookups@),
{
    let mut commands: Vec<PassCommand> = Vec::new();
    let mut end: u32 = start;
    let mut pipeline_index: usize = usize::MAX;
    let mut i: usize = 0;
    while i < batches.len()
        invariant
            0 <= i <= batches@.len(),
            lookups@.len() >= batches@.len(),
            pass_end(batches@, lookups@, start as int) <= u32::MAX,
            drawn(lookups@, i as int) == i,
            pipeline_index == pipeline_before(lookups@, i as int),
            end == start + instances_before(batches@, i as int),
            commands@ == commands_before(batches@, lookups@, start as int, i as int),
        decreases batches.len() - i,
    {
        let ghost n = batches@.len() as int;
        let batch = batches[i];
        let lookup = lookups[i];
        let next_index: usize = match lookup.index {
            Ok(index) => index,
            Err(e) => {
                proof {
                    lemma_drawn_stops(lookups@, i as int, n);
                }
                assert(commands@ =~= pass_commands(batches@, lookups@, start as int));
                return Recording { commands, end, result: Err(e) };
            },
        };
        if pipeline_index != next_index {
            pipeline_index = next_index;
            if let Err(e) = lookup.pipeline {
                proof {
                    lemma_drawn_stops(lookups@, i as int, n);
                }
                assert(commands@ =~= pass_commands(batches@, lookups@, start as int));
                return Recording { commands, end, result: Err(e) };
            }
            commands.push(PassCommand::SetPipeline { index: next_index });
            commands.push(PassCommand::SetPushConstants { stage: ShaderStage::Vertex, offset: 0 });
            commands.push(PassCommand::SetVertexBuffer { slot: 0 });
            commands.push(PassCommand::SetInstanceBindGroup { slot: 0 });
        }
        assert(commands@ =~= commands_before(batches@, lookups@, start as int, i as int)
            + switch_commands(lookups@, i as int));
        if let Err(e) = lookup.bind_group {
            proof {
                lemma_drawn_stops(lookups@, i as int, n);
            }
            return Recording { commands, end, result: Err(e) };
        }
        commands.push(
            PassCommand::SetTextureBindGroup {
                slot: 1,
                texture: batch.texture,
                smooth: batch.smooth,
            },
        );
        proof {
            lemma_drawn_bounds(lookups@, n);
            assert(drawn(lookups@, i + 1) == i + 1);
            lemma_drawn_grows(lookups@, i + 1, n);
            lemma_instances_monotone(batches@, i + 1, drawn(lookups@, n));
        }
        let next: u32 = end + batch.instance_count;
        commands.push(
            PassCommand::Draw {
                first_vertex: 0,
                end_vertex: 4,
                first_instance: end,
                end_instance: next,
            },
        );
        end = next;
        i = i + 1;
        assert(commands@ =~= commands_before(batches@, lookups@, start as int, i as int));
    }
    assert(commands@ =~= pass_commands(batches@, lookups@, start as int));
    Recording { commands, end, result: Ok(()) }
}

/// The number of the instance after the last one that [`record_batches`] would draw, or nothing
/// where it is too large to be a number of an instance.
pub fn measure_batches(
    batches: &Vec<InstanceBatch>,
    lookups: &Vec<BatchLookup>,
    start: u32,
) -> (end: Option<u32>)
    requires
        lookups@.len() >= batches@.len(),
    ensures
        match end {
            Some(e) => e == pass_end(batches@, lookups@, start as int),
            None => pass_end(batches@, lookups@, start as int) > u32::MAX,
        },
{
    let mut end: u32 = start;
    let mut pipeline_index: usize = usize::MAX;
    let mut i: usize = 0;
    while i < batches.len()
        invariant
            0 <= i <= batches@.len(),
            lookups@.len() >= batches@.len(),
            drawn(lookups@, i as int) == i,
            pipeline_index == pipeline_before(lookups@, i as int),
            end == start + instances_before(batches@, i as int),
        decreases batches.len() - i,
    {
        let ghost n = batches@.len() as int;
        let lookup = lookups[i];
        let fails: bool = match lookup.index {
            Err(_) => true,
            Ok(index) => {
                let switched: bool = pipeline_index != index;
                pipeline_index = index;
                switched && lookup.pipeline.is_err() || lookup.bind_group.is_err()
            },
        };
        if fails {
            proof {
                lemma_drawn_stops(lookups@, i as int, n);
            }
            return Some(end);
        }
        proof {
            lemma_drawn_bounds(lookups@, n);
            assert(drawn(lookups@, i + 1) == i + 1);
            lemma_drawn_grows(lookups@, i + 1, n);
            lemma_instances_monotone(batches@, i + 1, drawn(lookups@, n));
        }
        match end.checked_add(batches[i].instance_count) {
            Some(next) => {
                end = next;
            },
            None => {
                return None;
            },
        }
        i = i + 1;
    }
    Some(end)
}

} // verus!
