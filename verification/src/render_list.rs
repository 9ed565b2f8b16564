//! Lists of instances to draw, what to find out for them, and the work that they come to.

use crate::batches::{BatchLookup, BlendMode, InstanceBatch, KelpTextureId, PassCommand};
use crate::bytes::InstanceGPU;
use crate::error::{CacheError, KelpError, SurfaceError};
use vstd::prelude::*;

verus! {

/// A colour, as the bit patterns of four double precision numbers.
#[derive(Clone, Copy, Debug, PartialEq, Eq, Structural)]
pub struct ClearColor {
    pub r: u64,
    pub g: u64,
    pub b: u64,
    pub a: u64,
}

/// What to draw in one pass.
#[derive(Debug, PartialEq, Eq)]
pub struct RenderList {
    /// The texture to draw to, or the window if there is none.
    pub target: Option<KelpTextureId>,
    /// The colour to fill the target with first, if any.
    pub clear: Option<ClearColor>,
    /// The bit patterns of the camera's matrix.
    pub camera: [u32; 16],
    pub instances: Vec<InstanceGPU>,
    pub batches: Vec<InstanceBatch>,
}

impl RenderList {
    /// There is nothing to draw.
    pub open spec fn is_empty(self) -> bool {
        self.batches@.len() == 0 || self.instances@.len() == 0
    }
}

/// What to know from outside before a list can be recorded.
#[derive(Clone, Copy, Debug, PartialEq, Eq, Structural)]
pub enum Question {
    /// Can the window's next frame be acquired?
    Surface,
    /// Does the texture cache hold this texture?
    Target { texture: KelpTextureId },
    /// Could the pipeline with the default shaders and this blend mode be made ready?
    Pipeline { blend_mode: BlendMode },
    /// Could the bind group for this texture be made ready?
    BindGroup { texture: KelpTextureId, smooth: bool },
    /// What do the caches hold for this batch?
    Lookup { batch: InstanceBatch },
    /// Everything is known.
    Nothing,
}

/// What is known from outside so far.
#[derive(Debug, PartialEq, Eq)]
pub struct ListReplies {
    /// Whether the window's next frame was acquired.
    pub surface: Option<Result<(), SurfaceError>>,
    /// Whether the texture cache holds the target.
    pub target: Option<Result<(), CacheError>>,
    /// Whether the pipeline and the bind group of each batch were made ready, in turn.
    pub resources: Vec<Result<(), CacheError>>,
    /// What the caches hold for each batch.
    pub lookups: Vec<BatchLookup>,
}

/// The first error among `results`.
pub open spec fn first_error(results: Seq<Result<(), CacheError>>) -> Option<CacheError>
    decreases results.len(),
{
    if results.len() == 0 {
        None
    } else if results[0] is Err {
        Some(results[0]->Err_0)
    } else {
        first_error(results.skip(1))
    }
}

/// What to ask for the resource number `k`: each batch needs its pipeline and its bind group.
pub open spec fn resource_question(batches: Seq<InstanceBatch>, k: int) -> Question {
    let batch = batches[k / 2];
    if k % 2 == 0 {
        Question::Pipeline { blend_mode: batch.blend_mode }
    } else {
        Question::BindGroup { texture: batch.texture, smooth: batch.smooth }
    }
}

impl ListReplies {
    /// Nothing is known yet.
    pub fn new() -> (replies: ListReplies)
        ensures
            replies.surface is None,
            replies.target is None,
            replies.resources@ == Seq::<Result<(), CacheError>>::empty(),
            replies.lookups@ == Seq::<BatchLookup>::empty(),
    {
        ListReplies { surface: None, target: None, resources: Vec::new(), lookups: Vec::new() }
    }

    /// The first error among the resources.
    pub fn resource_error(&self) -> (error: Option<CacheError>)
        ensures
            error == first_error(self.resources@),
    {
        let mut i: usize = 0;
        assert(self.resources@.skip(0) =~= self.resources@);
        while i < self.resources.len()
            invariant
                0 <= i <= self.resources@.len(),
                first_error(self.resources@) == first_error(self.resources@.skip(i as int)),
            decreases self.resources.len() - i,
        {
            assert(self.resources@.skip(i as int)[0] == self.resources@[i as int]);
            assert(self.resources@.skip(i as int).skip(1) =~= self.resources@.skip(i + 1));
            if let Err(e) = self.resources[i] {
                return Some(e);
            }
            i = i + 1;
        }
        None
    }
}

/// Where a pass draws to.
#[derive(Clone, Copy, Debug, PartialEq, Eq, Structural)]
pub enum PassTarget {
    /// The frame of the window.
    Surface,
    /// A texture of the texture cache.
    Texture(KelpTextureId),
}

/// What a pass finds in its target.
#[derive(Clone, Copy, Debug, PartialEq, Eq, Structural)]
pub enum LoadOp {
    /// What was there before.
    Load,
    /// One colour everywhere.
    Clear(ClearColor),
}

/// What becomes of what a pass drew.
#[derive(Clone, Copy, Debug, PartialEq, Eq, Structural)]
pub enum StoreOp {
    /// It is kept in the target.
    Store,
    /// It is thrown away.
    Discard,
}

/// Bytes to write to the staging buffer.
#[derive(Debug, PartialEq, Eq)]
pub struct StagingWrite {
    pub offset: u64,
    pub bytes: Vec<u8>,
}

/// A render pass.
#[derive(Debug, PartialEq, Eq)]
pub struct RenderPass {
    pub target: PassTarget,
    /// Where several samples of a pixel are brought together, if they are.
    pub resolve_target: Option<PassTarget>,
    pub load: LoadOp,
    pub store: StoreOp,
    pub push_constants: Vec<u8>,
    pub commands: Vec<PassCommand>,
}

/// The names of the two command encoders that a frame begins with.
#[derive(Clone, Copy, Debug, PartialEq, Eq)]
pub struct FrameEncoders {
    pub buffer_label: &'static str,
    pub draw_label: &'static str,
}

/// The work for one list, in this order, and how it ends.
#[derive(Debug, PartialEq, Eq)]
pub struct ListOutcome {
    /// The encoders to create, where the list begins a frame.
    pub new_frame: Option<FrameEncoders>,
    /// The instances to write.
    pub staging: Option<StagingWrite>,
    /// The pass to record.
    pub pass: Option<RenderPass>,
    pub result: Result<(), KelpError>,
}

} // verus!
