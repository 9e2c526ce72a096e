//! Error taxonomy: fatal ingestion errors and per-frame rendering errors.

use vstd::prelude::*;

verus! {

/// A fatal asset-ingestion error. No partial geometry is produced when one
/// of these is raised; the whole load aborts.
#[derive(Clone, Copy, PartialEq, Eq, Structural, Debug)]
pub enum IngestError {
    /// The source primitive's topology is not a triangle list.
    UnsupportedTopology,
    /// The mandatory position stream is absent.
    MissingPositions,
    /// The mandatory normal stream is absent.
    MissingNormals,
    /// The normal stream's length differs from the position stream's length.
    AttributeLengthMismatch,
    /// The mandatory index stream is absent.
    MissingIndices,
    /// A referenced image's width or height is not a power of two.
    NonPowerOfTwoTexture,
    /// A referenced image's channel layout has no supported pixel format.
    UnsupportedImageFormat,
}

/// A fatal per-frame rendering error. The frame aborts; nothing is drawn.
#[derive(Clone, Copy, PartialEq, Eq, Structural, Debug)]
pub enum RenderError {
    /// The selected scene index is outside the scene registry.
    SceneIndexOutOfRange,
    /// The selected environment-map index is outside the registry.
    EnvmapIndexOutOfRange,
    /// The selected measured-reflectance-table index is outside the registry.
    BrdfIndexOutOfRange,
    /// A needed shader variant has not been compiled into the cache.
    ShaderVariantMissing,
}

} // verus!
