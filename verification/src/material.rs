//! Ingested material values: authored factors carried verbatim and texture
//! references resolved through the per-load texture registry.

use vstd::prelude::*;

use crate::doc::{ClearcoatDoc, Float3, Float4, ImageDoc, MaterialDoc, TextureDoc};
use crate::error::IngestError;
use crate::texture::{create_texture, spec_texture_plan, uploads_consistent, uploads_distinct,
    uploads_extended, DataBundle, Texture};

verus! {

/// The standard material of an ingested primitive.
#[derive(Clone, Copy, PartialEq, Eq, Structural, Debug)]
pub struct StdPbrMaterial {
    pub base_color_factor: Float4,
    pub metallic_factor: u32,
    pub roughness_factor: u32,
    pub emissive_factor: Float3,
    pub normal_scale: u32,
    pub occlusion_strength: u32,
    pub base_color_texture: Option<Texture>,
    pub mr_texture: Option<Texture>,
    pub normal_texture: Option<Texture>,
    pub occlusion_texture: Option<Texture>,
    pub emissive_texture: Option<Texture>,
}

/// The clearcoat feature block of an ingested primitive.
#[derive(Clone, Copy, PartialEq, Eq, Structural, Debug)]
pub struct Clearcoat {
    pub intensity_factor: u32,
    pub roughness_factor: u32,
    pub normal_scale: u32,
    pub intensity_texture: Option<Texture>,
    pub roughness_texture: Option<Texture>,
    pub normal_texture: Option<Texture>,
}

/// The anisotropy feature block of an ingested primitive.
#[derive(Clone, Copy, PartialEq, Eq, Structural, Debug)]
pub struct Anisotropy {
    /// Anisotropy strength, an IEEE-754 bit pattern.
    pub anisotropy: u32,
}

impl Anisotropy {
    /// The neutral block: zero strength (the all-zero bit pattern).
    pub fn new() -> (r: Anisotropy)
        ensures
            r == (Anisotropy { anisotropy: 0u32 }),
    {
        Anisotropy { anisotropy: 0 }
    }
}

/// Whether one optional texture reference stays within the bundle's images.
pub open spec fn spec_ref_in_bounds(r: Option<TextureDoc>, n_images: nat) -> bool {
    r matches Some(td) ==> td.image_index < n_images
}

/// Whether a reference to image `idx` resolves: either the image is already
/// materialized, or its plan succeeds.
pub open spec fn spec_ref_ok(
    images: Seq<ImageDoc>,
    slots: Seq<Option<Texture>>,
    idx: int,
) -> bool {
    slots[idx] is Some || spec_texture_plan(images[idx]) is Ok
}

/// The handle a reference to image `idx` resolves to, when it resolves: the
/// already-materialized texture, or the one made from the image's
/// pre-allocated GPU name.
pub open spec fn spec_resolved_tex(slots: Seq<Option<Texture>>, ids: Seq<u32>, idx: int) -> Texture {
    match slots[idx] {
        Some(t) => t,
        None => Texture { id: ids[idx] },
    }
}

/// Resolution of one optional reference, as a value: `None` stays `None`.
pub open spec fn spec_resolved_opt(
    slots: Seq<Option<Texture>>,
    ids: Seq<u32>,
    r: Option<TextureDoc>,
) -> Option<Texture> {
    match r {
        Some(td) => Some(spec_resolved_tex(slots, ids, td.image_index as int)),
        None => None,
    }
}

/// Whether one optional reference resolves (an absent reference does).
pub open spec fn spec_opt_ref_ok(
    images: Seq<ImageDoc>,
    slots: Seq<Option<Texture>>,
    r: Option<TextureDoc>,
) -> bool {
    match r {
        Some(td) => spec_ref_ok(images, slots, td.image_index as int),
        None => true,
    }
}

/// The error a failing reference raises: the plan error of its image.
pub open spec fn spec_ref_error(images: Seq<ImageDoc>, idx: int) -> IngestError {
    spec_texture_plan(images[idx])->Err_0
}

/// The texture references of a material in resolution order: the five
/// standard slots, then the clearcoat block's three when it is present.
pub open spec fn spec_material_refs(doc: MaterialDoc) -> Seq<Option<TextureDoc>> {
    let base = seq![
        doc.base_color_texture,
        doc.mr_texture,
        doc.normal_texture,
        doc.occlusion_texture,
        doc.emissive_texture,
    ];
    match doc.clearcoat {
        Some(cc) => base + seq![cc.intensity_texture, cc.roughness_texture, cc.normal_texture],
        None => base,
    }
}

/// Every reference of the material stays within the bundle's images.
pub open spec fn spec_material_refs_in_bounds(doc: MaterialDoc, n_images: nat) -> bool {
    forall|k: int|
        0 <= k < spec_material_refs(doc).len() ==> spec_ref_in_bounds(
            #[trigger] spec_material_refs(doc)[k],
            n_images,
        )
}

/// The first failing reference of the list, if any.
pub open spec fn spec_refs_first_error(
    images: Seq<ImageDoc>,
    slots: Seq<Option<Texture>>,
    refs: Seq<Option<TextureDoc>>,
) -> Result<(), IngestError>
    decreases refs.len(),
{
    if refs.len() == 0 {
        Ok(())
    } else {
        match refs[0] {
            None => spec_refs_first_error(images, slots, refs.drop_first()),
            Some(td) => if spec_ref_ok(images, slots, td.image_index as int) {
                spec_refs_first_error(images, slots, refs.drop_first())
            } else {
                Err(spec_ref_error(images, td.image_index as int))
            },
        }
    }
}

/// What the standard material resolves to when every reference resolves.
pub open spec fn spec_material_value(
    slots: Seq<Option<Texture>>,
    ids: Seq<u32>,
    doc: MaterialDoc,
) -> StdPbrMaterial {
    StdPbrMaterial {
        base_color_factor: doc.base_color_factor,
        metallic_factor: doc.metallic_factor,
        roughness_factor: doc.roughness_factor,
        emissive_factor: doc.emissive_factor,
        normal_scale: doc.normal_scale,
        occlusion_strength: doc.occlusion_strength,
        base_color_texture: spec_resolved_opt(slots, ids, doc.base_color_texture),
        mr_texture: spec_resolved_opt(slots, ids, doc.mr_texture),
        normal_texture: spec_resolved_opt(slots, ids, doc.normal_texture),
        occlusion_texture: spec_resolved_opt(slots, ids, doc.occlusion_texture),
        emissive_texture: spec_resolved_opt(slots, ids, doc.emissive_texture),
    }
}

/// What the clearcoat block resolves to when every reference resolves.
pub open spec fn spec_clearcoat_value(
    slots: Seq<Option<Texture>>,
    ids: Seq<u32>,
    cc: ClearcoatDoc,
) -> Clearcoat {
    Clearcoat {
        intensity_factor: cc.intensity_factor,
        roughness_factor: cc.roughness_factor,
        normal_scale: cc.normal_scale,
        intensity_texture: spec_resolved_opt(slots, ids, cc.intensity_texture),
        roughness_texture: spec_resolved_opt(slots, ids, cc.roughness_texture),
        normal_texture: spec_resolved_opt(slots, ids, cc.normal_texture),
    }
}

/// How a bundle's registry may have grown relative to an earlier state of
/// the same load: materialized slots never change, and every newly
/// materialized slot holds the texture made from the image's pre-allocated
/// name, for an image whose plan succeeds.
pub open spec fn spec_slots_grown(
    images: Seq<ImageDoc>,
    old_slots: Seq<Option<Texture>>,
    new_slots: Seq<Option<Texture>>,
    ids: Seq<u32>,
) -> bool {
    &&& new_slots.len() == old_slots.len()
    &&& forall|i: int|
        0 <= i < old_slots.len() && old_slots[i] is Some ==> #[trigger] new_slots[i]
            == old_slots[i]
    &&& forall|i: int|
        0 <= i < old_slots.len() && old_slots[i] is None && #[trigger] new_slots[i] is Some
            ==> new_slots[i] == Some(Texture { id: ids[i] }) && spec_texture_plan(images[i]) is Ok
}

/// Resolves one optional texture reference against the bundle.
pub fn resolve_opt_texture(bundle: &mut DataBundle, r: &Option<TextureDoc>) -> (res: Result<
    Option<Texture>,
    IngestError,
>)
    requires
        old(bundle).wf(),
        spec_ref_in_bounds(*r, old(bundle).images@.len()),
    ensures
        final (bundle).wf(),
        final (bundle).images == old(bundle).images,
        final (bundle).tex_ids == old(bundle).tex_ids,
        spec_slots_grown(
            old(bundle).images@,
            old(bundle).gl_textures@,
            final (bundle).gl_textures@,
            old(bundle).tex_ids@,
        ),
        uploads_extended(old(bundle).uploads@, final (bundle).uploads@),
        uploads_consistent(*old(bundle)) && uploads_distinct(*old(bundle))
            ==> uploads_consistent(*final (bundle)) && uploads_distinct(*final (bundle)),
        res is Ok <==> spec_opt_ref_ok(old(bundle).images@, old(bundle).gl_textures@, *r),
        res is Ok ==> res->Ok_0 == spec_resolved_opt(
            old(bundle).gl_textures@,
            old(bundle).tex_ids@,
            *r,
        ),
        res is Err ==> (*r matches Some(td) && res->Err_0 == spec_ref_error(
            old(bundle).images@,
            td.image_index as int,
        ) && final (bundle).gl_textures@ == old(bundle).gl_textures@
            && final (bundle).uploads@ == old(bundle).uploads@),
        // The slot of a resolved reference is materialized afterwards.
        (res is Ok && *r is Some) ==> final (bundle).gl_textures@[(*r)->Some_0.image_index as int] is Some,
        // No slot beyond the referenced one changes.
        forall|i: int|
            0 <= i < old(bundle).gl_textures@.len() && !(*r matches Some(td) && td.image_index == i)
                ==> final (bundle).gl_textures@[i] == old(bundle).gl_textures@[i],
{
    match r {
        None => Ok(None),
        Some(td) => match create_texture(bundle, td) {
            Ok(t) => Ok(Some(t)),
            Err(e) => Err(e),
        },
    }
}

/// Growth of a registry is reflexive and composes.
pub proof fn lemma_grown_trans(
    images: Seq<ImageDoc>,
    s0: Seq<Option<Texture>>,
    s1: Seq<Option<Texture>>,
    s2: Seq<Option<Texture>>,
    ids: Seq<u32>,
)
    requires
        spec_slots_grown(images, s0, s1, ids),
        spec_slots_grown(images, s1, s2, ids),
    ensures
        spec_slots_grown(images, s0, s2, ids),
{
    assert forall|i: int|
        0 <= i < s0.len() && s0[i] is None && #[trigger] s2[i] is Some implies s2[i] == Some(
        Texture { id: ids[i] },
    ) && spec_texture_plan(images[i]) is Ok by {
        if s1[i] is Some {
            assert(s2[i] == s1[i]);
        }
    }
}

/// Against a grown registry of the same load, a reference resolves exactly
/// when it resolved against the earlier registry, and to the same handle.
pub proof fn lemma_grown_same_resolution(
    images: Seq<ImageDoc>,
    s0: Seq<Option<Texture>>,
    s1: Seq<Option<Texture>>,
    ids: Seq<u32>,
    r: Option<TextureDoc>,
)
    requires
        spec_slots_grown(images, s0, s1, ids),
        spec_ref_in_bounds(r, s0.len()),
    ensures
        spec_opt_ref_ok(images, s1, r) == spec_opt_ref_ok(images, s0, r),
        spec_opt_ref_ok(images, s0, r) ==> spec_resolved_opt(s1, ids, r) == spec_resolved_opt(
            s0,
            ids,
            r,
        ),
{
}

/// Resolves one optional reference mid-material: the bundle has grown from
/// the registry state `slots0` that the enclosing resolution started from,
/// and the outcome is stated against that starting state.
fn resolve_step(
    bundle: &mut DataBundle,
    r: &Option<TextureDoc>,
    Ghost(slots0): Ghost<Seq<Option<Texture>>>,
) -> (res: Result<Option<Texture>, IngestError>)
    requires
        old(bundle).wf(),
        slots0.len() == old(bundle).images@.len(),
        spec_ref_in_bounds(*r, old(bundle).images@.len()),
        spec_slots_grown(
            old(bundle).images@,
            slots0,
            old(bundle).gl_textures@,
            old(bundle).tex_ids@,
        ),
    ensures
        final (bundle).wf(),
        final (bundle).images == old(bundle).images,
        final (bundle).tex_ids == old(bundle).tex_ids,
        spec_slots_grown(
            final (bundle).images@,
            slots0,
            final (bundle).gl_textures@,
            final (bundle).tex_ids@,
        ),
        uploads_extended(old(bundle).uploads@, final (bundle).uploads@),
        uploads_consistent(*old(bundle)) && uploads_distinct(*old(bundle))
            ==> uploads_consistent(*final (bundle)) && uploads_distinct(*final (bundle)),
        res is Ok <==> spec_opt_ref_ok(old(bundle).images@, slots0, *r),
        res is Ok ==> res->Ok_0 == spec_resolved_opt(slots0, old(bundle).tex_ids@, *r),
        res is Err ==> (*r matches Some(td) && res->Err_0 == spec_ref_error(
            old(bundle).images@,
            td.image_index as int,
        )),
        (res is Ok && *r is Some) ==> final (bundle).gl_textures@[(*r)->Some_0.image_index as int] is Some,
{
    let ghost images = old(bundle).images@;
    let ghost cur = old(bundle).gl_textures@;
    let ghost ids = old(bundle).tex_ids@;
    let res = resolve_opt_texture(bundle, r);
    proof {
        lemma_grown_same_resolution(images, slots0, cur, ids, *r);
        lemma_grown_trans(images, slots0, cur, bundle.gl_textures@, ids);
    }
    res
}

impl StdPbrMaterial {
    /// Resolves a document material: factors are carried verbatim and each
    /// texture reference is materialized through the registry, failing with
    /// the first unresolvable reference's plan error.
    pub fn from_doc(doc: &MaterialDoc, bundle: &mut DataBundle) -> (r: Result<
        (StdPbrMaterial, Option<Clearcoat>),
        IngestError,
    >)
        requires
            old(bundle).wf(),
            spec_material_refs_in_bounds(*doc, old(bundle).images@.len()),
        ensures
            final (bundle).wf(),
            final (bundle).images == old(bundle).images,
            final (bundle).tex_ids == old(bundle).tex_ids,
            spec_slots_grown(
                old(bundle).images@,
                old(bundle).gl_textures@,
                final (bundle).gl_textures@,
                old(bundle).tex_ids@,
            ),
        uploads_extended(old(bundle).uploads@, final (bundle).uploads@),
        uploads_consistent(*old(bundle)) && uploads_distinct(*old(bundle))
            ==> uploads_consistent(*final (bundle)) && uploads_distinct(*final (bundle)),
            r is Ok <==> spec_refs_first_error(
                old(bundle).images@,
                old(bundle).gl_textures@,
                spec_material_refs(*doc),
            ) is Ok,
            r is Err ==> Err::<(), IngestError>(r->Err_0) == spec_refs_first_error(
                old(bundle).images@,
                old(bundle).gl_textures@,
                spec_material_refs(*doc),
            ),
            r is Ok ==> r->Ok_0.0 == spec_material_value(
                old(bundle).gl_textures@,
                old(bundle).tex_ids@,
                *doc,
            ),
            r is Ok ==> r->Ok_0.1 == match doc.clearcoat {
                Some(cc) => Some(
                    spec_clearcoat_value(old(bundle).gl_textures@, old(bundle).tex_ids@, cc),
                ),
                None => None,
            },
    {
        let ghost images = old(bundle).images@;
        let ghost slots0 = old(bundle).gl_textures@;
        let ghost ids = old(bundle).tex_ids@;
        let ghost refs = spec_material_refs(*doc);
        proof {
            assert(refs[0] == doc.base_color_texture);
            assert(refs[1] == doc.mr_texture);
            assert(refs[2] == doc.normal_texture);
            assert(refs[3] == doc.occlusion_texture);
            assert(refs[4] == doc.emissive_texture);
        }

        let base_color_texture = match resolve_step(bundle, &doc.base_color_texture, Ghost(slots0)) {
            Ok(t) => t,
            Err(e) => {
                proof {
                    lemma_first_error_here(images, slots0, refs, 0);
                }
                return Err(e);
            },
        };
        let mr_texture = match resolve_step(bundle, &doc.mr_texture, Ghost(slots0)) {
            Ok(t) => t,
            Err(e) => {
                proof {
                    lemma_first_error_here(images, slots0, refs, 1);
                }
                return Err(e);
            },
        };
        let normal_texture = match resolve_step(bundle, &doc.normal_texture, Ghost(slots0)) {
            Ok(t) => t,
            Err(e) => {
                proof {
                    lemma_first_error_here(images, slots0, refs, 2);
                }
                return Err(e);
            },
        };
        let occlusion_texture = match resolve_step(bundle, &doc.occlusion_texture, Ghost(slots0)) {
            Ok(t) => t,
            Err(e) => {
                proof {
                    lemma_first_error_here(images, slots0, refs, 3);
                }
                return Err(e);
            },
        };
        let emissive_texture = match resolve_step(bundle, &doc.emissive_texture, Ghost(slots0)) {
            Ok(t) => t,
            Err(e) => {
                proof {
                    lemma_first_error_here(images, slots0, refs, 4);
                }
                return Err(e);
            },
        };
        let material = StdPbrMaterial {
            base_color_factor: doc.base_color_factor,
            metallic_factor: doc.metallic_factor,
            roughness_factor: doc.roughness_factor,
            emissive_factor: doc.emissive_factor,
            normal_scale: doc.normal_scale,
            occlusion_strength: doc.occlusion_strength,
            base_color_texture,
            mr_texture,
            normal_texture,
            occlusion_texture,
            emissive_texture,
        };
        let clearcoat = match &doc.clearcoat {
            None => {
                proof {
                    lemma_no_first_error(images, slots0, refs);
                }
                None
            },
            Some(cc) => {
                proof {
                    assert(refs[5] == cc.intensity_texture);
                    assert(refs[6] == cc.roughness_texture);
                    assert(refs[7] == cc.normal_texture);
                }
                let intensity_texture = match resolve_step(
                    bundle,
                    &cc.intensity_texture,
                    Ghost(slots0),
                ) {
                    Ok(t) => t,
                    Err(e) => {
                        proof {
                            lemma_first_error_here(images, slots0, refs, 5);
                        }
                        return Err(e);
                    },
                };
                let roughness_texture = match resolve_step(
                    bundle,
                    &cc.roughness_texture,
                    Ghost(slots0),
                ) {
                    Ok(t) => t,
                    Err(e) => {
                        proof {
                            lemma_first_error_here(images, slots0, refs, 6);
                        }
                        return Err(e);
                    },
                };
                let normal_texture = match resolve_step(bundle, &cc.normal_texture, Ghost(slots0)) {
                    Ok(t) => t,
                    Err(e) => {
                        proof {
                            lemma_first_error_here(images, slots0, refs, 7);
                        }
                        return Err(e);
                    },
                };
                proof {
                    lemma_no_first_error(images, slots0, refs);
                }
                Some(
                    Clearcoat {
                        intensity_factor: cc.intensity_factor,
                        roughness_factor: cc.roughness_factor,
                        normal_scale: cc.normal_scale,
                        intensity_texture,
                        roughness_texture,
                        normal_texture,
                    },
                )
            },
        };
        Ok((material, clearcoat))
    }
}

/// If every reference before position `k` resolves against the initial
/// registry and the one at `k` does not, the first error of the list is the
/// plan error of that reference's image.
proof fn lemma_first_error_here(
    images: Seq<ImageDoc>,
    slots: Seq<Option<Texture>>,
    refs: Seq<Option<TextureDoc>>,
    k: int,
)
    requires
        0 <= k < refs.len(),
        forall|j: int| 0 <= j < k ==> spec_opt_ref_ok(images, slots, #[trigger] refs[j]),
        refs[k] is Some,
        !spec_ref_ok(images, slots, refs[k]->Some_0.image_index as int),
    ensures
        spec_refs_first_error(images, slots, refs) == Err::<(), IngestError>(
            spec_ref_error(images, refs[k]->Some_0.image_index as int),
        ),
    decreases refs.len(),
{
    if k > 0 {
        assert(forall|j: int|
            0 <= j < k - 1 ==> refs.drop_first()[j] == #[trigger] refs[j + 1]);
        lemma_first_error_here(images, slots, refs.drop_first(), k - 1);
    }
}

/// If every reference of the list resolves against the initial registry,
/// the list has no first error.
proof fn lemma_no_first_error(
    images: Seq<ImageDoc>,
    slots: Seq<Option<Texture>>,
    refs: Seq<Option<TextureDoc>>,
)
    requires
        forall|j: int| 0 <= j < refs.len() ==> spec_opt_ref_ok(images, slots, #[trigger] refs[j]),
    ensures
        spec_refs_first_error(images, slots, refs) is Ok,
    decreases refs.len(),
{
    if refs.len() > 0 {
        lemma_no_first_error(images, slots, refs.drop_first());
    }
}

} // verus!
