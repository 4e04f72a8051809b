//! Error taxonomy of the capture pipeline.
//!
//! Transient "frame not ready" conditions are retried internally and never
//! surface here; everything below is fatal for the cycle it occurs in.

use vstd::prelude::*;

verus! {

/// Failure of the image compositor.
#[derive(Clone, Copy, Debug, PartialEq, Eq, Structural)]
pub enum CompositionError {
    /// Composition of zero images was requested; a zero-area canvas is
    /// never produced silently.
    NoInputImages,
}

/// Fatal errors of one capture cycle. None of these is retried: a partial
/// or corrupt artifact on disk is treated as worse than a visible failure.
#[derive(Clone, Copy, Debug, PartialEq, Eq, Structural)]
pub enum CycleError {
    /// Enumeration found no display at all.
    NoDisplaysFound,
    /// A display became unusable (any capture failure other than "not ready").
    SourceFatal,
    /// The compositor failed.
    Composition(CompositionError),
    /// An artifact could not be encoded or written.
    Persistence,
    /// The external recompressor or muxer exited abnormally.
    ExternalTool,
}

} // verus!
