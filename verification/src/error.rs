//! Why an operation of the renderer fails.

use vstd::prelude::*;

verus! {

/// Why the window's next frame could not be acquired.
#[derive(Clone, Copy, Debug, PartialEq, Eq, Structural)]
pub enum SurfaceError {
    /// It took too long.
    Timeout,
    /// The surface has changed and must be configured anew.
    Outdated,
    /// The surface is gone and must be created anew.
    Lost,
    /// There is no memory left for another frame.
    OutOfMemory,
}

/// What a cache cannot find or make ready.
#[derive(Clone, Copy, Debug, PartialEq, Eq, Structural)]
pub enum CacheError {
    /// The texture cache does not know a texture.
    InvalidTexture,
    /// The texture cache has no bind group for a texture.
    InvalidBindGroup,
    /// The pipeline cache has no such pipeline.
    InvalidPipeline,
}

/// Why an operation of the renderer fails.
#[derive(Debug, PartialEq, Eq)]
pub enum KelpError {
    /// No adapter can draw to the window.
    NoAdapter,
    /// The adapter did not grant a device, for the reason that it gave.
    NoDevice(String),
    /// The window's next frame could not be acquired.
    Surface(SurfaceError),
    /// A cache lacks what a list needs.
    Cache(CacheError),
}

} // verus!
