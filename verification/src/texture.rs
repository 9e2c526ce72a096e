//! Texture materialization: power-of-two validation, pixel-format and
//! mip-chain planning, sampler translation, and per-load deduplication of
//! textures by source-image index.
//!
//! The verified core decides everything about a texture — whether it is
//! admissible, which formats and filters it uses, how many mip levels it
//! gets, and which GPU texture name it resolves to — and records the upload
//! work as plain data for the shell to execute.

use vstd::prelude::*;

use crate::doc::{ImageDoc, ImageFormatDoc, MagFilterDoc, MinFilterDoc, SamplerDoc, TextureDoc,
    WrapDoc};
use crate::error::IngestError;
use crate::glconst::{GL_CLAMP_TO_EDGE, GL_LINEAR, GL_LINEAR_MIPMAP_LINEAR,
    GL_LINEAR_MIPMAP_NEAREST, GL_MIRRORED_REPEAT, GL_NEAREST, GL_NEAREST_MIPMAP_LINEAR,
    GL_NEAREST_MIPMAP_NEAREST, GL_R8, GL_RED, GL_REPEAT, GL_RG, GL_RG8, GL_RGB, GL_RGB8,
    GL_RGBA, GL_RGBA8};

verus! {

/// A shared handle to one GPU-resident texture. Two references within one
/// load that name the same source image resolve to handles with the same
/// GPU texture name.
#[derive(Clone, Copy, PartialEq, Eq, Structural, Debug)]
pub struct Texture {
    /// The GPU texture name.
    pub id: u32,
}

/// Sampler state translated to graphics-API enumerants.
#[derive(Clone, Copy, PartialEq, Eq, Structural, Debug)]
pub struct SamplerParams {
    pub min_filter: u32,
    pub mag_filter: u32,
    pub wrap_s: u32,
    pub wrap_t: u32,
}

/// Everything the shell needs to allocate storage for and fill one texture:
/// formats chosen from the image's channel layout, the full mip-chain depth,
/// and the image dimensions.
#[derive(Clone, Copy, PartialEq, Eq, Structural, Debug)]
pub struct TexturePlan {
    pub internal_format: u32,
    pub format: u32,
    pub levels: u32,
    pub width: u32,
    pub height: u32,
}

/// One unit of texture-materialization work handed to the shell: which
/// source image to read, which GPU texture name receives it, and how.
#[derive(Clone, Copy, PartialEq, Eq, Structural, Debug)]
pub struct TextureUpload {
    pub image_index: usize,
    pub texture: Texture,
    pub plan: TexturePlan,
    pub sampler: SamplerParams,
}

/// Whether `n` is an exact power of two.
pub open spec fn spec_is_pow2(n: nat) -> bool
    decreases n,
{
    if n == 0 {
        false
    } else if n == 1 {
        true
    } else {
        n % 2 == 0 && spec_is_pow2(n / 2)
    }
}

/// Floor of the base-two logarithm; exact for powers of two.
pub open spec fn spec_log2(n: nat) -> nat
    decreases n,
{
    if n <= 1 {
        0
    } else {
        1 + spec_log2(n / 2)
    }
}

/// The internal (storage) format for a supported channel layout.
pub open spec fn spec_internal_format(f: ImageFormatDoc) -> u32 {
    match f {
        ImageFormatDoc::R8 => GL_R8,
        ImageFormatDoc::R8G8 => GL_RG8,
        ImageFormatDoc::R8G8B8 => GL_RGB8,
        ImageFormatDoc::R8G8B8A8 => GL_RGBA8,
        ImageFormatDoc::Unsupported => 0,
    }
}

/// The pixel-transfer format for a supported channel layout.
pub open spec fn spec_transfer_format(f: ImageFormatDoc) -> u32 {
    match f {
        ImageFormatDoc::R8 => GL_RED,
        ImageFormatDoc::R8G8 => GL_RG,
        ImageFormatDoc::R8G8B8 => GL_RGB,
        ImageFormatDoc::R8G8B8A8 => GL_RGBA,
        ImageFormatDoc::Unsupported => 0,
    }
}

/// What planning a texture for `img` yields: a dimension error for
/// non-power-of-two sizes, a format error for unsupported channel layouts,
/// and otherwise the chosen formats with a full mip chain.
pub open spec fn spec_texture_plan(img: ImageDoc) -> Result<TexturePlan, IngestError> {
    if !spec_is_pow2(img.width as nat) || !spec_is_pow2(img.height as nat) {
        Err(IngestError::NonPowerOfTwoTexture)
    } else if img.format is Unsupported {
        Err(IngestError::UnsupportedImageFormat)
    } else {
        Ok(TexturePlan {
            internal_format: spec_internal_format(img.format),
            format: spec_transfer_format(img.format),
            levels: (1 + spec_log2(if img.width >= img.height {
                img.width as nat
            } else {
                img.height as nat
            })) as u32,
            width: img.width,
            height: img.height,
        })
    }
}

/// The translated minification filter; absent means trilinear.
pub open spec fn spec_min_filter(f: Option<MinFilterDoc>) -> u32 {
    match f {
        Some(MinFilterDoc::Nearest) => GL_NEAREST,
        Some(MinFilterDoc::Linear) => GL_LINEAR,
        Some(MinFilterDoc::NearestMipmapNearest) => GL_NEAREST_MIPMAP_NEAREST,
        Some(MinFilterDoc::LinearMipmapNearest) => GL_LINEAR_MIPMAP_NEAREST,
        Some(MinFilterDoc::NearestMipmapLinear) => GL_NEAREST_MIPMAP_LINEAR,
        Some(MinFilterDoc::LinearMipmapLinear) => GL_LINEAR_MIPMAP_LINEAR,
        None => GL_LINEAR_MIPMAP_LINEAR,
    }
}

/// The translated magnification filter; absent means linear.
pub open spec fn spec_mag_filter(f: Option<MagFilterDoc>) -> u32 {
    match f {
        Some(MagFilterDoc::Nearest) => GL_NEAREST,
        Some(MagFilterDoc::Linear) => GL_LINEAR,
        None => GL_LINEAR,
    }
}

/// The translated wrap mode.
pub open spec fn spec_wrap(w: WrapDoc) -> u32 {
    match w {
        WrapDoc::ClampToEdge => GL_CLAMP_TO_EDGE,
        WrapDoc::MirroredRepeat => GL_MIRRORED_REPEAT,
        WrapDoc::Repeat => GL_REPEAT,
    }
}

/// The full sampler translation.
pub open spec fn spec_sampler_params(s: SamplerDoc) -> SamplerParams {
    SamplerParams {
        min_filter: spec_min_filter(s.min_filter),
        mag_filter: spec_mag_filter(s.mag_filter),
        wrap_s: spec_wrap(s.wrap_s),
        wrap_t: spec_wrap(s.wrap_t),
    }
}

/// Decides whether `n` is an exact power of two.
pub fn is_pow2(n: u32) -> (r: bool)
    ensures
        r == spec_is_pow2(n as nat),
{
    if n == 0 {
        return false;
    }
    let mut m: u32 = n;
    while m > 1
        invariant
            m >= 1,
            spec_is_pow2(n as nat) == spec_is_pow2(m as nat),
        decreases m,
    {
        if m % 2 == 1 {
            return false;
        }
        m = m / 2;
    }
    true
}

/// Computes the floor of the base-two logarithm.
pub fn log2_floor(n: u32) -> (r: u32)
    ensures
        r == spec_log2(n as nat),
{
    proof {
        lemma_log2_bound(n as nat);
    }
    let mut m: u32 = n;
    let mut l: u32 = 0;
    while m > 1
        invariant
            l + spec_log2(m as nat) == spec_log2(n as nat),
            spec_log2(n as nat) <= 31,
        decreases m,
    {
        m = m / 2;
        l = l + 1;
    }
    l
}

/// The logarithm grows by at most one when the argument doubles.
proof fn lemma_log2_lt(n: nat, k: nat)
    requires
        k >= 1,
        n < vstd::arithmetic::power2::pow2(k),
    ensures
        spec_log2(n) < k,
    decreases n,
{
    vstd::arithmetic::power2::lemma2_to64();
    vstd::arithmetic::power2::lemma_pow2_unfold(k);
    if n > 1 {
        assert(k > 1) by {
            vstd::arithmetic::power2::lemma2_to64();
        }
        lemma_log2_lt(n / 2, (k - 1) as nat);
    }
}

/// The base-two logarithm of a `u32` quantity never exceeds 31.
proof fn lemma_log2_bound(n: nat)
    requires
        n <= u32::MAX,
    ensures
        spec_log2(n) <= 31,
{
    vstd::arithmetic::power2::lemma2_to64();
    lemma_log2_lt(n, 32);
}

/// Plans one texture: validates dimensions and channel layout, chooses the
/// storage and transfer formats, and sizes the full mip chain.
pub fn texture_plan(img: &ImageDoc) -> (r: Result<TexturePlan, IngestError>)
    ensures
        r == spec_texture_plan(*img),
{
    if !is_pow2(img.width) || !is_pow2(img.height) {
        return Err(IngestError::NonPowerOfTwoTexture);
    }
    let (internal_format, format) = match img.format {
        ImageFormatDoc::R8 => (GL_R8, GL_RED),
        ImageFormatDoc::R8G8 => (GL_RG8, GL_RG),
        ImageFormatDoc::R8G8B8 => (GL_RGB8, GL_RGB),
        ImageFormatDoc::R8G8B8A8 => (GL_RGBA8, GL_RGBA),
        ImageFormatDoc::Unsupported => {
            return Err(IngestError::UnsupportedImageFormat);
        },
    };
    let larger: u32 = if img.width >= img.height {
        img.width
    } else {
        img.height
    };
    proof {
        lemma_log2_bound(larger as nat);
    }
    let levels: u32 = 1 + log2_floor(larger);
    Ok(TexturePlan { internal_format, format, levels, width: img.width, height: img.height })
}

/// Translates a document sampler to graphics-API filter and wrap enumerants,
/// applying the trilinear/linear defaults where the document names none.
pub fn sampler_params(s: &SamplerDoc) -> (r: SamplerParams)
    ensures
        r == spec_sampler_params(*s),
{
    let min_filter: u32 = match s.min_filter {
        Some(MinFilterDoc::Nearest) => GL_NEAREST,
        Some(MinFilterDoc::Linear) => GL_LINEAR,
        Some(MinFilterDoc::NearestMipmapNearest) => GL_NEAREST_MIPMAP_NEAREST,
        Some(MinFilterDoc::LinearMipmapNearest) => GL_LINEAR_MIPMAP_NEAREST,
        Some(MinFilterDoc::NearestMipmapLinear) => GL_NEAREST_MIPMAP_LINEAR,
        Some(MinFilterDoc::LinearMipmapLinear) => GL_LINEAR_MIPMAP_LINEAR,
        None => GL_LINEAR_MIPMAP_LINEAR,
    };
    let mag_filter: u32 = match s.mag_filter {
        Some(MagFilterDoc::Nearest) => GL_NEAREST,
        Some(MagFilterDoc::Linear) => GL_LINEAR,
        None => GL_LINEAR,
    };
    let wrap_s: u32 = match s.wrap_s {
        WrapDoc::ClampToEdge => GL_CLAMP_TO_EDGE,
        WrapDoc::MirroredRepeat => GL_MIRRORED_REPEAT,
        WrapDoc::Repeat => GL_REPEAT,
    };
    let wrap_t: u32 = match s.wrap_t {
        WrapDoc::ClampToEdge => GL_CLAMP_TO_EDGE,
        WrapDoc::MirroredRepeat => GL_MIRRORED_REPEAT,
        WrapDoc::Repeat => GL_REPEAT,
    };
    SamplerParams { min_filter, mag_filter, wrap_s, wrap_t }
}

/// The per-load bundle that texture resolution works against: the source
/// images, the registry of already-materialized textures (one slot per
/// image), the GPU texture names the shell pre-allocated (one per image),
/// and the upload work recorded so far.
pub struct DataBundle {
    pub images: Vec<ImageDoc>,
    /// Registry slot `i` holds the texture materialized for image `i`, once
    /// some reference has resolved it.
    pub gl_textures: Vec<Option<Texture>>,
    /// GPU texture names pre-allocated by the shell, one per source image.
    pub tex_ids: Vec<u32>,
    /// Texture-materialization work for the shell, in resolution order.
    pub uploads: Vec<TextureUpload>,
}

impl DataBundle {
    /// One registry slot and one pre-allocated GPU name per source image.
    pub open spec fn wf(self) -> bool {
        &&& self.gl_textures@.len() == self.images@.len()
        &&& self.tex_ids@.len() == self.images@.len()
    }

    /// Creates a bundle with an empty registry and no uploads recorded.
    pub fn new(images: Vec<ImageDoc>, tex_ids: Vec<u32>) -> (r: DataBundle)
        requires
            images@.len() == tex_ids@.len(),
        ensures
            r.wf(),
            r.images == images,
            r.tex_ids == tex_ids,
            r.gl_textures@.len() == images@.len(),
            forall|i: int| 0 <= i < r.gl_textures@.len() ==> r.gl_textures@[i] is None,
            r.uploads@.len() == 0,
            uploads_consistent(r),
            uploads_distinct(r),
    {
        let n = images.len();
        let mut slots: Vec<Option<Texture>> = Vec::new();
        let mut i: usize = 0;
        while i < n
            invariant
                i <= n,
                slots@.len() == i,
                forall|j: int| 0 <= j < i ==> slots@[j] is None,
            decreases n - i,
        {
            slots.push(None);
            i = i + 1;
        }
        DataBundle { images, gl_textures: slots, tex_ids, uploads: Vec::new() }
    }
}

/// Every recorded upload names an image of the bundle, targets the
/// texture its registry slot holds, and carries the plan of that image.
pub open spec fn uploads_consistent(b: DataBundle) -> bool {
    forall|k: int|
        0 <= k < b.uploads@.len() ==> ((#[trigger] b.uploads@[k]).image_index < b.images@.len()
            && b.gl_textures@[b.uploads@[k].image_index as int] == Some(b.uploads@[k].texture)
            && Ok::<TexturePlan, IngestError>(b.uploads@[k].plan) == spec_texture_plan(
            b.images@[b.uploads@[k].image_index as int],
        ))
}

/// The earlier upload list is an unchanged prefix of the later one:
/// recorded work is never altered or dropped, only appended to.
pub open spec fn uploads_extended(old_u: Seq<TextureUpload>, new_u: Seq<TextureUpload>) -> bool {
    new_u.len() >= old_u.len() && forall|k: int|
        0 <= k < old_u.len() ==> #[trigger] new_u[k] == old_u[k]
}

/// No image is uploaded twice within one load.
pub open spec fn uploads_distinct(b: DataBundle) -> bool {
    forall|k: int, l: int|
        0 <= k < b.uploads@.len() && 0 <= l < b.uploads@.len() && k != l ==> (
        #[trigger] b.uploads@[k]).image_index != (#[trigger] b.uploads@[l]).image_index
}

/// The model of resolving one texture reference: what comes back, as a
/// function of the source images, the registry slots and the pre-allocated
/// GPU names.
pub open spec fn spec_resolve(
    images: Seq<ImageDoc>,
    slots: Seq<Option<Texture>>,
    ids: Seq<u32>,
    tex: TextureDoc,
) -> Result<Texture, IngestError> {
    let i = tex.image_index as int;
    match slots[i] {
        Some(t) => Ok(t),
        None => match spec_texture_plan(images[i]) {
            Err(e) => Err(e),
            Ok(plan) => Ok(Texture { id: ids[i] }),
        },
    }
}

/// The registry slots after resolving one texture reference.
pub open spec fn spec_resolve_slots(
    images: Seq<ImageDoc>,
    slots: Seq<Option<Texture>>,
    ids: Seq<u32>,
    tex: TextureDoc,
) -> Seq<Option<Texture>> {
    let i = tex.image_index as int;
    match spec_resolve(images, slots, ids, tex) {
        Ok(t) => if slots[i] is None {
            slots.update(i, Some(t))
        } else {
            slots
        },
        Err(e) => slots,
    }
}

/// Resolves one texture reference: the first reference to a source image
/// validates and plans it, records the upload, and claims the image's
/// pre-allocated GPU name; every later reference to the same image returns
/// the very texture the first one made, and changes nothing.
pub fn create_texture(bundle: &mut DataBundle, tex: &TextureDoc) -> (r: Result<
    Texture,
    IngestError,
>)
    requires
        old(bundle).wf(),
        tex.image_index < old(bundle).images@.len(),
    ensures
        final (bundle).wf(),
        final (bundle).images == old(bundle).images,
        final (bundle).tex_ids == old(bundle).tex_ids,
        r == spec_resolve(
            old(bundle).images@,
            old(bundle).gl_textures@,
            old(bundle).tex_ids@,
            *tex,
        ),
        final (bundle).gl_textures@ == spec_resolve_slots(
            old(bundle).images@,
            old(bundle).gl_textures@,
            old(bundle).tex_ids@,
            *tex,
        ),
        // A registry hit, or a failed plan, records no new upload; a first
        // successful resolution records exactly one.
        old(bundle).gl_textures@[tex.image_index as int] is None && r is Ok
            ==> final (bundle).uploads@ == old(bundle).uploads@.push(
            TextureUpload {
                image_index: tex.image_index,
                texture: r->Ok_0,
                plan: spec_texture_plan(old(bundle).images@[tex.image_index as int])->Ok_0,
                sampler: spec_sampler_params(tex.sampler),
            },
        ),
        !(old(bundle).gl_textures@[tex.image_index as int] is None && r is Ok)
            ==> final (bundle).uploads@ == old(bundle).uploads@,
        uploads_extended(old(bundle).uploads@, final (bundle).uploads@),
        uploads_consistent(*old(bundle)) && uploads_distinct(*old(bundle)) ==> uploads_consistent(
            *final (bundle),
        ) && uploads_distinct(*final (bundle)),
{
    let i = tex.image_index;
    match bundle.gl_textures[i] {
        Some(t) => Ok(t),
        None => {
            let plan = match texture_plan(&bundle.images[i]) {
                Ok(p) => p,
                Err(e) => {
                    return Err(e);
                },
            };
            let t = Texture { id: bundle.tex_ids[i] };
            let upload = TextureUpload {
                image_index: i,
                texture: t,
                plan,
                sampler: sampler_params(&tex.sampler),
            };
            bundle.gl_textures[i] = Some(t);
            bundle.uploads.push(upload);
            Ok(t)
        },
    }
}

/// Every materialized registry slot holds the texture made from that
/// image's pre-allocated GPU name.
pub open spec fn registry_consistent(slots: Seq<Option<Texture>>, ids: Seq<u32>) -> bool {
    forall|i: int|
        0 <= i < slots.len() ==> (#[trigger] slots[i] matches Some(t) ==> t == Texture {
            id: ids[i],
        })
}

/// Resolving a reference keeps the registry consistent with the
/// pre-allocated GPU names.
pub proof fn lemma_resolve_keeps_consistency(
    images: Seq<ImageDoc>,
    slots: Seq<Option<Texture>>,
    ids: Seq<u32>,
    tex: TextureDoc,
)
    requires
        registry_consistent(slots, ids),
        tex.image_index < slots.len(),
    ensures
        registry_consistent(spec_resolve_slots(images, slots, ids, tex), ids),
{
}

/// Two texture references sharing a source-image index, within one load,
/// resolve to the same texture instance: whatever handle the first
/// reference resolves, a second reference to the same image, made against
/// the registry the first one left behind, resolves that very handle.
pub proof fn lemma_texture_dedup(
    images: Seq<ImageDoc>,
    slots: Seq<Option<Texture>>,
    ids: Seq<u32>,
    t1: TextureDoc,
    t2: TextureDoc,
)
    requires
        t1.image_index == t2.image_index,
        t1.image_index < slots.len(),
        spec_resolve(images, slots, ids, t1) is Ok,
    ensures
        spec_resolve(images, spec_resolve_slots(images, slots, ids, t1), ids, t2)
            == spec_resolve(images, slots, ids, t1),
{
}

/// References to distinct source images resolve to distinct texture
/// instances, as long as the pre-allocated GPU names are pairwise distinct
/// and the registry is consistent with them.
pub proof fn lemma_texture_distinct(
    images: Seq<ImageDoc>,
    slots: Seq<Option<Texture>>,
    ids: Seq<u32>,
    t1: TextureDoc,
    t2: TextureDoc,
)
    requires
        registry_consistent(slots, ids),
        slots.len() == ids.len(),
        forall|i: int, j: int|
            0 <= i < ids.len() && 0 <= j < ids.len() && i != j ==> ids[i] != ids[j],
        t1.image_index < slots.len(),
        t2.image_index < slots.len(),
        t1.image_index != t2.image_index,
        spec_resolve(images, slots, ids, t1) is Ok,
        spec_resolve(images, slots, ids, t2) is Ok,
    ensures
        spec_resolve(images, slots, ids, t1)->Ok_0.id != spec_resolve(
            images,
            slots,
            ids,
            t2,
        )->Ok_0.id,
{
    let i1 = t1.image_index as int;
    let i2 = t2.image_index as int;
    assert(spec_resolve(images, slots, ids, t1)->Ok_0.id == ids[i1]);
    assert(spec_resolve(images, slots, ids, t2)->Ok_0.id == ids[i2]);
}

} // verus!
