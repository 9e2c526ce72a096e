//! The scene-document model: the plain-value view of a parsed asset that
//! ingestion consumes.
//!
//! Scalar attributes are carried as IEEE-754 single-precision bit patterns
//! (`u32`), so the verified core moves them verbatim without performing any
//! floating-point arithmetic itself.

use vstd::prelude::*;

verus! {

/// A two-component float vector, each component an IEEE-754 bit pattern.
#[derive(Clone, Copy, PartialEq, Eq, Structural, Debug)]
pub struct Float2 {
    pub x: u32,
    pub y: u32,
}

/// A three-component float vector, each component an IEEE-754 bit pattern.
#[derive(Clone, Copy, PartialEq, Eq, Structural, Debug)]
pub struct Float3 {
    pub x: u32,
    pub y: u32,
    pub z: u32,
}

/// A four-component float vector, each component an IEEE-754 bit pattern.
#[derive(Clone, Copy, PartialEq, Eq, Structural, Debug)]
pub struct Float4 {
    pub x: u32,
    pub y: u32,
    pub z: u32,
    pub w: u32,
}

/// The topology of a source primitive. Only `Triangles` is renderable.
#[derive(Clone, Copy, PartialEq, Eq, Structural, Debug)]
pub enum Topology {
    Points,
    Lines,
    LineLoop,
    LineStrip,
    Triangles,
    TriangleStrip,
    TriangleFan,
}

/// A source index stream in its authored element width.
pub enum IndexStream {
    U8(Vec<u8>),
    U16(Vec<u16>),
    U32(Vec<u32>),
}

/// Minification filter named by the document's sampler.
#[derive(Clone, Copy, PartialEq, Eq, Structural, Debug)]
pub enum MinFilterDoc {
    Nearest,
    Linear,
    NearestMipmapNearest,
    LinearMipmapNearest,
    NearestMipmapLinear,
    LinearMipmapLinear,
}

/// Magnification filter named by the document's sampler.
#[derive(Clone, Copy, PartialEq, Eq, Structural, Debug)]
pub enum MagFilterDoc {
    Nearest,
    Linear,
}

/// Texture-coordinate wrapping mode named by the document's sampler.
#[derive(Clone, Copy, PartialEq, Eq, Structural, Debug)]
pub enum WrapDoc {
    ClampToEdge,
    MirroredRepeat,
    Repeat,
}

/// A document sampler: absent filters fall back to defaults at translation.
#[derive(Clone, Copy, PartialEq, Eq, Structural, Debug)]
pub struct SamplerDoc {
    pub min_filter: Option<MinFilterDoc>,
    pub mag_filter: Option<MagFilterDoc>,
    pub wrap_s: WrapDoc,
    pub wrap_t: WrapDoc,
}

/// A texture reference in the document: which source image it reads and how
/// it is sampled.
#[derive(Clone, Copy, PartialEq, Eq, Structural, Debug)]
pub struct TextureDoc {
    /// Index of the source image within the load bundle.
    pub image_index: usize,
    pub sampler: SamplerDoc,
}

/// The channel layout of a source image.
#[derive(Clone, Copy, PartialEq, Eq, Structural, Debug)]
pub enum ImageFormatDoc {
    R8,
    R8G8,
    R8G8B8,
    R8G8B8A8,
    /// Any layout with no 8-bit-per-channel equivalent.
    Unsupported,
}

/// A decoded source image, as far as the verified core reads it: its
/// dimensions and channel layout. Pixel bytes stay with the shell.
#[derive(Clone, Copy, PartialEq, Eq, Structural, Debug)]
pub struct ImageDoc {
    pub width: u32,
    pub height: u32,
    pub format: ImageFormatDoc,
}

/// Authored clearcoat feature block of a document material.
#[derive(Clone, Copy, PartialEq, Eq, Structural, Debug)]
pub struct ClearcoatDoc {
    pub intensity_factor: u32,
    pub roughness_factor: u32,
    pub normal_scale: u32,
    pub intensity_texture: Option<TextureDoc>,
    pub roughness_texture: Option<TextureDoc>,
    pub normal_texture: Option<TextureDoc>,
}

/// Authored standard material of a document primitive: scalar factors as
/// bit patterns plus optional texture references.
#[derive(Clone, Copy, PartialEq, Eq, Structural, Debug)]
pub struct MaterialDoc {
    pub base_color_factor: Float4,
    pub metallic_factor: u32,
    pub roughness_factor: u32,
    pub emissive_factor: Float3,
    pub normal_scale: u32,
    pub occlusion_strength: u32,
    pub base_color_texture: Option<TextureDoc>,
    pub mr_texture: Option<TextureDoc>,
    pub normal_texture: Option<TextureDoc>,
    pub occlusion_texture: Option<TextureDoc>,
    pub emissive_texture: Option<TextureDoc>,
    pub clearcoat: Option<ClearcoatDoc>,
}

/// One source primitive: attribute streams, indices and its material.
pub struct PrimitiveDoc {
    pub topology: Topology,
    pub positions: Option<Vec<Float3>>,
    pub normals: Option<Vec<Float3>>,
    /// Texture-coordinate set 0; further sets are ignored.
    pub texcoords: Option<Vec<Float2>>,
    /// How many texture-coordinate sets beyond set 0 the document carries.
    /// They are not read; the shell may warn about them.
    pub extra_texcoord_sets: usize,
    pub tangents: Option<Vec<Float4>>,
    pub indices: Option<IndexStream>,
    pub material: MaterialDoc,
}

/// One source mesh: its primitives and optional name.
pub struct MeshDoc {
    pub primitives: Vec<PrimitiveDoc>,
    pub name: Option<String>,
}

} // verus!
