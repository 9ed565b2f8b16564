//! The decisions of a 2D renderer: what it asks of the GPU, in which order, and what it
//! remembers from one call to the next.
//!
//! Nothing here touches a device. Each operation takes what the outside world answered as
//! plain values, updates the state in [`kelp::Kelp`] and returns a description of the work to
//! perform.

pub mod batches;
pub mod bytes;
pub mod calls;
pub mod descriptors;
pub mod error;
pub mod kelp;
pub mod laws;
pub mod limits;
pub mod promises;
pub mod render_list;
pub mod setup;

pub use crate::batches::{BlendMode, InstanceBatch, KelpTextureId};
pub use crate::bytes::InstanceGPU;
pub use crate::error::{CacheError, KelpError};
pub use crate::kelp::{DrawDataId, Kelp};
pub use crate::render_list::RenderList;
