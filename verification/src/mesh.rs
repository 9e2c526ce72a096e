//! Geometry ingestion: vertex-stream zipping with defaults, topology
//! checking, index widening, the tangent-synthesis decision, and the
//! per-primitive and per-mesh ingestion drivers.

use vstd::prelude::*;

use crate::doc::{Float2, Float3, Float4, ImageDoc, IndexStream, MeshDoc, PrimitiveDoc, Topology};
use crate::error::IngestError;
use crate::glconst::GL_UNSIGNED_INT;
use crate::material::{spec_clearcoat_value, spec_material_refs, spec_material_refs_in_bounds,
    spec_material_value, spec_opt_ref_ok, spec_refs_first_error, spec_ref_in_bounds,
    spec_slots_grown, Anisotropy, Clearcoat, StdPbrMaterial};
use crate::texture::{uploads_consistent, uploads_distinct, uploads_extended, DataBundle,
    Texture};

verus! {

/// One interleaved vertex record: position, normal, texture coordinates and
/// tangent, each component an IEEE-754 bit pattern.
#[derive(Clone, Copy, PartialEq, Eq, Structural, Debug)]
pub struct Vertex {
    pub pos: Float3,
    pub normal: Float3,
    pub texcoords: Float2,
    pub tangent: Float4,
}

/// GPU buffer names the shell pre-allocated for one primitive.
#[derive(Clone, Copy, PartialEq, Eq, Structural, Debug)]
pub struct GpuHandles {
    pub vao: u32,
    pub vertex_buffer: u32,
    pub index_buffer: u32,
}

/// One ingested, renderable primitive: interleaved vertices, widened
/// indices, its material and feature blocks, and the GPU names that carry
/// them.
pub struct Primitive {
    pub vao: u32,
    pub vertex_buffer: u32,
    pub index_buffer: u32,
    pub num_indices: usize,
    pub indices_type: u32,
    pub vertices: Vec<Vertex>,
    pub indices: Vec<u32>,
    pub pbr_material: StdPbrMaterial,
    pub clearcoat: Option<Clearcoat>,
    pub anisotropy: Option<Anisotropy>,
    /// Whether the primitive still needs tangents synthesized: it had no
    /// authored tangent stream and its material consumes tangents.
    pub needs_tangent_synthesis: bool,
}

/// An ingested mesh: its primitives and optional name.
pub struct Mesh {
    pub primitives: Vec<Primitive>,
    pub name: Option<String>,
}

/// The texture coordinates vertex `i` receives: stream entry `i` when the
/// set-0 stream reaches it, else (0, 0).
pub open spec fn spec_texcoord_at(tc: Option<Seq<Float2>>, i: int) -> Float2 {
    match tc {
        Some(s) => if i < s.len() {
            s[i]
        } else {
            Float2 { x: 0, y: 0 }
        },
        None => Float2 { x: 0, y: 0 },
    }
}

/// The tangent vertex `i` receives from the authored stream: entry `i` when
/// the stream reaches it, else (0, 0, 0, 0).
pub open spec fn spec_tangent_at(tg: Option<Seq<Float4>>, i: int) -> Float4 {
    match tg {
        Some(s) => if i < s.len() {
            s[i]
        } else {
            Float4 { x: 0, y: 0, z: 0, w: 0 }
        },
        None => Float4 { x: 0, y: 0, z: 0, w: 0 },
    }
}

/// The view of an optional texture-coordinate stream.
pub open spec fn spec_texcoords_view(doc: PrimitiveDoc) -> Option<Seq<Float2>> {
    match doc.texcoords {
        Some(v) => Some(v@),
        None => None,
    }
}

/// The view of an optional tangent stream.
pub open spec fn spec_tangents_view(doc: PrimitiveDoc) -> Option<Seq<Float4>> {
    match doc.tangents {
        Some(v) => Some(v@),
        None => None,
    }
}

/// The vertex record built for position `i` of the document.
pub open spec fn spec_vertex_at(doc: PrimitiveDoc, i: int) -> Vertex {
    Vertex {
        pos: doc.positions->Some_0@[i],
        normal: doc.normals->Some_0@[i],
        texcoords: spec_texcoord_at(spec_texcoords_view(doc), i),
        tangent: spec_tangent_at(spec_tangents_view(doc), i),
    }
}

/// An index stream widened to a uniform 32-bit width.
pub open spec fn spec_widened(s: IndexStream) -> Seq<u32> {
    match s {
        IndexStream::U8(v) => v@.map_values(|x: u8| x as u32),
        IndexStream::U16(v) => v@.map_values(|x: u16| x as u32),
        IndexStream::U32(v) => v@,
    }
}

/// The checks a primitive passes before any texture is touched, in order:
/// triangle topology, both mandatory streams present and of equal length,
/// and an index stream present.
pub open spec fn spec_prim_precheck(doc: PrimitiveDoc) -> Result<(), IngestError> {
    if !(doc.topology is Triangles) {
        Err(IngestError::UnsupportedTopology)
    } else if doc.positions is None {
        Err(IngestError::MissingPositions)
    } else if doc.normals is None {
        Err(IngestError::MissingNormals)
    } else if doc.positions->Some_0@.len() != doc.normals->Some_0@.len() {
        Err(IngestError::AttributeLengthMismatch)
    } else if doc.indices is None {
        Err(IngestError::MissingIndices)
    } else {
        Ok(())
    }
}

/// What ingesting a primitive against registry state `slots` yields: the
/// stream prechecks first, then the first unresolvable texture reference.
pub open spec fn spec_prim_result(
    images: Seq<ImageDoc>,
    slots: Seq<Option<Texture>>,
    doc: PrimitiveDoc,
) -> Result<(), IngestError> {
    match spec_prim_precheck(doc) {
        Err(e) => Err(e),
        Ok(u) => spec_refs_first_error(images, slots, spec_material_refs(doc.material)),
    }
}

/// Whether the material's feature set consumes tangents: a normal map, a
/// clearcoat normal map, or an anisotropy block — the anisotropy block
/// counts unconditionally, a deliberately conservative trigger.
pub open spec fn spec_needs_tangents(
    m: StdPbrMaterial,
    cc: Option<Clearcoat>,
    an: Option<Anisotropy>,
) -> bool {
    m.normal_texture is Some || an is Some || (cc matches Some(c) && c.normal_texture is Some)
}

/// What an ingested primitive is, in terms of its document, the GPU names
/// it was given and the registry state the load started from.
pub open spec fn spec_prim_matches(
    p: Primitive,
    doc: PrimitiveDoc,
    gpu: GpuHandles,
    slots: Seq<Option<Texture>>,
    ids: Seq<u32>,
) -> bool {
    &&& p.vao == gpu.vao
    &&& p.vertex_buffer == gpu.vertex_buffer
    &&& p.index_buffer == gpu.index_buffer
    &&& p.vertices@.len() == doc.positions->Some_0@.len()
    &&& forall|i: int| 0 <= i < p.vertices@.len() ==> p.vertices@[i] == spec_vertex_at(doc, i)
    &&& p.indices@ == spec_widened(doc.indices->Some_0)
    &&& p.num_indices == p.indices@.len()
    &&& p.indices_type == GL_UNSIGNED_INT
    &&& p.pbr_material == spec_material_value(slots, ids, doc.material)
    &&& p.clearcoat == match doc.material.clearcoat {
        Some(cc) => Some(spec_clearcoat_value(slots, ids, cc)),
        None => None,
    }
    &&& p.anisotropy == Some(Anisotropy { anisotropy: 0u32 })
    &&& p.needs_tangent_synthesis == (doc.tangents is None && spec_needs_tangents(
        spec_material_value(slots, ids, doc.material),
        match doc.material.clearcoat {
            Some(cc) => Some(spec_clearcoat_value(slots, ids, cc)),
            None => None,
        },
        Some(Anisotropy { anisotropy: 0u32 }),
    ))
}

/// Zips the mandatory position and normal streams into vertex records,
/// defaulting texture coordinates and tangents where their streams end or
/// are absent; fails when a mandatory stream is absent or the two mandatory
/// streams differ in length.
pub fn build_vertices(doc: &PrimitiveDoc) -> (r: Result<Vec<Vertex>, IngestError>)
    ensures
        doc.positions is None ==> r == Err::<Vec<Vertex>, IngestError>(
            IngestError::MissingPositions,
        ),
        doc.positions is Some && doc.normals is None ==> r == Err::<Vec<Vertex>, IngestError>(
            IngestError::MissingNormals,
        ),
        doc.positions is Some && doc.normals is Some && doc.positions->Some_0@.len()
            != doc.normals->Some_0@.len() ==> r == Err::<Vec<Vertex>, IngestError>(
            IngestError::AttributeLengthMismatch,
        ),
        doc.positions is Some && doc.normals is Some && doc.positions->Some_0@.len()
            == doc.normals->Some_0@.len() ==> r is Ok && r->Ok_0@.len()
            == doc.positions->Some_0@.len() && forall|i: int|
            0 <= i < r->Ok_0@.len() ==> r->Ok_0@[i] == spec_vertex_at(*doc, i),
{
    let positions = match &doc.positions {
        Some(p) => p,
        None => {
            return Err(IngestError::MissingPositions);
        },
    };
    let normals = match &doc.normals {
        Some(n) => n,
        None => {
            return Err(IngestError::MissingNormals);
        },
    };
    if positions.len() != normals.len() {
        return Err(IngestError::AttributeLengthMismatch);
    }
    let n = positions.len();
    let mut buf: Vec<Vertex> = Vec::new();
    let mut i: usize = 0;
    while i < n
        invariant
            i <= n,
            n == doc.positions->Some_0@.len(),
            n == doc.normals->Some_0@.len(),
            doc.positions matches Some(p) && p == positions,
            doc.normals matches Some(nn) && nn == normals,
            buf@.len() == i,
            forall|j: int| 0 <= j < i ==> buf@[j] == spec_vertex_at(*doc, j),
        decreases n - i,
    {
        let texcoords = match &doc.texcoords {
            Some(tc) => if i < tc.len() {
                tc[i]
            } else {
                Float2 { x: 0, y: 0 }
            },
            None => Float2 { x: 0, y: 0 },
        };
        let tangent = match &doc.tangents {
            Some(tg) => if i < tg.len() {
                tg[i]
            } else {
                Float4 { x: 0, y: 0, z: 0, w: 0 }
            },
            None => Float4 { x: 0, y: 0, z: 0, w: 0 },
        };
        let vertex = Vertex { pos: positions[i], normal: normals[i], texcoords, tangent };
        buf.push(vertex);
        i = i + 1;
    }
    Ok(buf)
}

/// Widens an index stream of any authored element width to 32 bits,
/// preserving order and every value.
pub fn widen_indices(s: &IndexStream) -> (r: Vec<u32>)
    ensures
        r@ == spec_widened(*s),
{
    match s {
        IndexStream::U8(v) => {
            let mut out: Vec<u32> = Vec::new();
            let mut i: usize = 0;
            while i < v.len()
                invariant
                    i <= v@.len(),
                    out@.len() == i,
                    forall|j: int| 0 <= j < i ==> out@[j] == v@[j] as u32,
                decreases v@.len() - i,
            {
                out.push(v[i] as u32);
                i = i + 1;
            }
            proof {
                assert(out@ =~= v@.map_values(|x: u8| x as u32));
            }
            out
        },
        IndexStream::U16(v) => {
            let mut out: Vec<u32> = Vec::new();
            let mut i: usize = 0;
            while i < v.len()
                invariant
                    i <= v@.len(),
                    out@.len() == i,
                    forall|j: int| 0 <= j < i ==> out@[j] == v@[j] as u32,
                decreases v@.len() - i,
            {
                out.push(v[i] as u32);
                i = i + 1;
            }
            proof {
                assert(out@ =~= v@.map_values(|x: u16| x as u32));
            }
            out
        },
        IndexStream::U32(v) => {
            let mut out: Vec<u32> = Vec::new();
            let mut i: usize = 0;
            while i < v.len()
                invariant
                    i <= v@.len(),
                    out@.len() == i,
                    forall|j: int| 0 <= j < i ==> out@[j] == v@[j],
                decreases v@.len() - i,
            {
                out.push(v[i]);
                i = i + 1;
            }
            proof {
                assert(out@ =~= v@);
            }
            out
        },
    }
}

/// Decides whether tangents must be synthesized for a primitive with this
/// material: any tangent-consuming feature is active. The anisotropy block
/// triggers unconditionally — a conservative choice kept as designed.
pub fn needs_tangents(
    m: &StdPbrMaterial,
    cc: &Option<Clearcoat>,
    an: &Option<Anisotropy>,
) -> (r: bool)
    ensures
        r == spec_needs_tangents(*m, *cc, *an),
{
    if m.normal_texture.is_some() {
        return true;
    }
    if an.is_some() {
        return true;
    }
    match cc {
        Some(c) => c.normal_texture.is_some(),
        None => false,
    }
}

impl Primitive {
    /// Ingests one document primitive: rejects non-triangle topology,
    /// builds the interleaved vertex records and the widened index stream,
    /// resolves the material's textures through the load's registry, and
    /// decides whether tangents still need synthesis.
    pub fn from_gltf(doc: &PrimitiveDoc, gpu: GpuHandles, bundle: &mut DataBundle) -> (r: Result<
        Primitive,
        IngestError,
    >)
        requires
            old(bundle).wf(),
            spec_material_refs_in_bounds(doc.material, old(bundle).images@.len()),
        ensures
            final (bundle).wf(),
            final (bundle).images == old(bundle).images,
            final (bundle).tex_ids == old(bundle).tex_ids,
            spec_slots_grown(
                old(bundle).images@,
                old(bundle).gl_textures@,
                final (bundle).gl_textures@,
                old(bundle).tex_ids@,
            ),
        uploads_extended(old(bundle).uploads@, final (bundle).uploads@),
        uploads_consistent(*old(bundle)) && uploads_distinct(*old(bundle))
            ==> uploads_consistent(*final (bundle)) && uploads_distinct(*final (bundle)),
            r is Ok <==> spec_prim_result(old(bundle).images@, old(bundle).gl_textures@, *doc)
                is Ok,
            r is Err ==> Err::<(), IngestError>(r->Err_0) == spec_prim_result(
                old(bundle).images@,
                old(bundle).gl_textures@,
                *doc,
            ),
            spec_prim_precheck(*doc) is Err ==> final (bundle).gl_textures@ == old(
                bundle,
            ).gl_textures@ && final (bundle).uploads@ == old(bundle).uploads@,
            r is Ok ==> spec_prim_matches(
                r->Ok_0,
                *doc,
                gpu,
                old(bundle).gl_textures@,
                old(bundle).tex_ids@,
            ),
    {
        match doc.topology {
            Topology::Triangles => {},
            _ => {
                return Err(IngestError::UnsupportedTopology);
            },
        }
        let vertices = match build_vertices(doc) {
            Ok(v) => v,
            Err(e) => {
                return Err(e);
            },
        };
        let indices = match &doc.indices {
            Some(s) => widen_indices(s),
            None => {
                return Err(IngestError::MissingIndices);
            },
        };
        let (pbr_material, clearcoat) = match StdPbrMaterial::from_doc(&doc.material, bundle) {
            Ok(x) => x,
            Err(e) => {
                return Err(e);
            },
        };
        let anisotropy = Some(Anisotropy::new());
        let needs_tangent_synthesis = doc.tangents.is_none() && needs_tangents(
            &pbr_material,
            &clearcoat,
            &anisotropy,
        );
        let num_indices = indices.len();
        Ok(
            Primitive {
                vao: gpu.vao,
                vertex_buffer: gpu.vertex_buffer,
                index_buffer: gpu.index_buffer,
                num_indices,
                indices_type: GL_UNSIGNED_INT,
                vertices,
                indices,
                pbr_material,
                clearcoat,
                anisotropy,
                needs_tangent_synthesis,
            },
        )
    }

    /// Installs synthesized tangents: every vertex keeps its position,
    /// normal and texture coordinates and receives the tangent at its own
    /// index; the primitive no longer needs synthesis.
    pub fn install_tangents(&mut self, tangents: &Vec<Float4>)
        requires
            tangents@.len() == old(self).vertices@.len(),
        ensures
            final (self).vertices@.len() == old(self).vertices@.len(),
            forall|i: int|
                0 <= i < final (self).vertices@.len() ==> final (self).vertices@[i] == (Vertex {
                    pos: old(self).vertices@[i].pos,
                    normal: old(self).vertices@[i].normal,
                    texcoords: old(self).vertices@[i].texcoords,
                    tangent: tangents@[i],
                }),
            final (self).needs_tangent_synthesis == false,
            final (self).vao == old(self).vao,
            final (self).vertex_buffer == old(self).vertex_buffer,
            final (self).index_buffer == old(self).index_buffer,
            final (self).num_indices == old(self).num_indices,
            final (self).indices_type == old(self).indices_type,
            final (self).indices@ == old(self).indices@,
            final (self).pbr_material == old(self).pbr_material,
            final (self).clearcoat == old(self).clearcoat,
            final (self).anisotropy == old(self).anisotropy,
    {
        let n = self.vertices.len();
        let mut i: usize = 0;
        while i < n
            invariant
                i <= n,
                n == self.vertices@.len(),
                n == tangents@.len(),
                forall|j: int|
                    0 <= j < i ==> self.vertices@[j] == (Vertex {
                        pos: old(self).vertices@[j].pos,
                        normal: old(self).vertices@[j].normal,
                        texcoords: old(self).vertices@[j].texcoords,
                        tangent: tangents@[j],
                    }),
                forall|j: int| i <= j < n ==> self.vertices@[j] == old(self).vertices@[j],
                self.needs_tangent_synthesis == old(self).needs_tangent_synthesis,
                self.vao == old(self).vao,
                self.vertex_buffer == old(self).vertex_buffer,
                self.index_buffer == old(self).index_buffer,
                self.num_indices == old(self).num_indices,
                self.indices_type == old(self).indices_type,
                self.indices@ == old(self).indices@,
                self.pbr_material == old(self).pbr_material,
                self.clearcoat == old(self).clearcoat,
                self.anisotropy == old(self).anisotropy,
            decreases n - i,
        {
            let v = self.vertices[i];
            self.vertices[i] = Vertex {
                pos: v.pos,
                normal: v.normal,
                texcoords: v.texcoords,
                tangent: tangents[i],
            };
            i = i + 1;
        }
        self.needs_tangent_synthesis = false;
    }
}

} // verus!

verus! {

/// Against a grown registry of the same load, a reference list has the same
/// first error (or none) as against the earlier registry.
pub proof fn lemma_grown_same_refs_error(
    images: Seq<ImageDoc>,
    s0: Seq<Option<Texture>>,
    s1: Seq<Option<Texture>>,
    ids: Seq<u32>,
    refs: Seq<Option<crate::doc::TextureDoc>>,
)
    requires
        spec_slots_grown(images, s0, s1, ids),
        forall|k: int| 0 <= k < refs.len() ==> spec_ref_in_bounds(#[trigger] refs[k], s0.len()),
    ensures
        spec_refs_first_error(images, s1, refs) == spec_refs_first_error(images, s0, refs),
    decreases refs.len(),
{
    if refs.len() > 0 {
        crate::material::lemma_grown_same_resolution(images, s0, s1, ids, refs[0]);
        lemma_grown_same_refs_error(images, s0, s1, ids, refs.drop_first());
    }
}

/// Against a grown registry of the same load, a primitive ingests with the
/// same outcome as against the earlier registry, and its material resolves
/// to the same values.
pub proof fn lemma_grown_same_prim(
    images: Seq<ImageDoc>,
    s0: Seq<Option<Texture>>,
    s1: Seq<Option<Texture>>,
    ids: Seq<u32>,
    doc: PrimitiveDoc,
)
    requires
        spec_slots_grown(images, s0, s1, ids),
        spec_material_refs_in_bounds(doc.material, s0.len()),
    ensures
        spec_prim_result(images, s1, doc) == spec_prim_result(images, s0, doc),
        spec_prim_result(images, s0, doc) is Ok ==> spec_material_value(s1, ids, doc.material)
            == spec_material_value(s0, ids, doc.material),
        spec_prim_result(images, s0, doc) is Ok ==> match doc.material.clearcoat {
            Some(cc) => spec_clearcoat_value(s1, ids, cc) == spec_clearcoat_value(s0, ids, cc),
            None => true,
        },
    decreases 0int,
{
    let refs = spec_material_refs(doc.material);
    assert(refs[0] == doc.material.base_color_texture);
    assert(refs[1] == doc.material.mr_texture);
    assert(refs[2] == doc.material.normal_texture);
    assert(refs[3] == doc.material.occlusion_texture);
    assert(refs[4] == doc.material.emissive_texture);
    lemma_grown_same_refs_error(images, s0, s1, ids, refs);
    if spec_prim_result(images, s0, doc) is Ok {
        lemma_refs_ok_all(images, s0, refs);
        crate::material::lemma_grown_same_resolution(images, s0, s1, ids, doc.material.base_color_texture);
        crate::material::lemma_grown_same_resolution(images, s0, s1, ids, doc.material.mr_texture);
        crate::material::lemma_grown_same_resolution(images, s0, s1, ids, doc.material.normal_texture);
        crate::material::lemma_grown_same_resolution(images, s0, s1, ids, doc.material.occlusion_texture);
        crate::material::lemma_grown_same_resolution(images, s0, s1, ids, doc.material.emissive_texture);
        match doc.material.clearcoat {
            Some(cc) => {
                assert(refs[5] == cc.intensity_texture);
                assert(refs[6] == cc.roughness_texture);
                assert(refs[7] == cc.normal_texture);
                crate::material::lemma_grown_same_resolution(images, s0, s1, ids, cc.intensity_texture);
                crate::material::lemma_grown_same_resolution(images, s0, s1, ids, cc.roughness_texture);
                crate::material::lemma_grown_same_resolution(images, s0, s1, ids, cc.normal_texture);
            },
            None => {},
        }
    }
}

/// When a reference list has no first error, every reference in it
/// resolves.
pub proof fn lemma_refs_ok_all(
    images: Seq<ImageDoc>,
    slots: Seq<Option<Texture>>,
    refs: Seq<Option<crate::doc::TextureDoc>>,
)
    requires
        spec_refs_first_error(images, slots, refs) is Ok,
    ensures
        forall|k: int| 0 <= k < refs.len() ==> spec_opt_ref_ok(images, slots, #[trigger] refs[k]),
    decreases refs.len(),
{
    if refs.len() > 0 {
        lemma_refs_ok_all(images, slots, refs.drop_first());
        assert forall|k: int|
            0 <= k < refs.len() implies spec_opt_ref_ok(images, slots, #[trigger] refs[k]) by {
            if k > 0 {
                assert(refs.drop_first()[k - 1] == refs[k]);
            }
        }
    }
}

/// Every primitive's material references stay within the bundle's images.
pub open spec fn spec_mesh_refs_in_bounds(doc: MeshDoc, n_images: nat) -> bool {
    forall|k: int|
        0 <= k < doc.primitives@.len() ==> spec_material_refs_in_bounds(
            (#[trigger] doc.primitives@[k]).material,
            n_images,
        )
}

/// The first failing primitive of a mesh against the load's starting
/// registry, if any.
pub open spec fn spec_mesh_first_error(
    images: Seq<ImageDoc>,
    slots: Seq<Option<Texture>>,
    docs: Seq<PrimitiveDoc>,
) -> Result<(), IngestError>
    decreases docs.len(),
{
    if docs.len() == 0 {
        Ok(())
    } else {
        match spec_prim_result(images, slots, docs[0]) {
            Err(e) => Err(e),
            Ok(u) => spec_mesh_first_error(images, slots, docs.drop_first()),
        }
    }
}

/// If every primitive before position `k` ingests cleanly and the one at
/// `k` does not, the mesh's first error is that primitive's.
proof fn lemma_mesh_first_error_here(
    images: Seq<ImageDoc>,
    slots: Seq<Option<Texture>>,
    docs: Seq<PrimitiveDoc>,
    k: int,
)
    requires
        0 <= k < docs.len(),
        forall|j: int| 0 <= j < k ==> spec_prim_result(images, slots, #[trigger] docs[j]) is Ok,
        spec_prim_result(images, slots, docs[k]) is Err,
    ensures
        spec_mesh_first_error(images, slots, docs) == spec_prim_result(images, slots, docs[k]),
    decreases docs.len(),
{
    if k > 0 {
        assert(forall|j: int| 0 <= j < k - 1 ==> docs.drop_first()[j] == #[trigger] docs[j + 1]);
        lemma_mesh_first_error_here(images, slots, docs.drop_first(), k - 1);
    }
}

/// If every primitive ingests cleanly, the mesh has no first error.
proof fn lemma_mesh_no_first_error(
    images: Seq<ImageDoc>,
    slots: Seq<Option<Texture>>,
    docs: Seq<PrimitiveDoc>,
)
    requires
        forall|j: int|
            0 <= j < docs.len() ==> spec_prim_result(images, slots, #[trigger] docs[j]) is Ok,
    ensures
        spec_mesh_first_error(images, slots, docs) is Ok,
    decreases docs.len(),
{
    if docs.len() > 0 {
        lemma_mesh_no_first_error(images, slots, docs.drop_first());
    }
}

impl Mesh {
    /// Ingests one document mesh: each primitive in order, failing with the
    /// first primitive's error and producing no partial mesh. On success,
    /// primitive `i` is ingested from document primitive `i` with GPU names
    /// `gpus[i]`, its textures resolved through the shared registry.
    pub fn from_gltf(doc: MeshDoc, gpus: &Vec<GpuHandles>, bundle: &mut DataBundle) -> (r: Result<
        Mesh,
        IngestError,
    >)
        requires
            old(bundle).wf(),
            gpus@.len() == doc.primitives@.len(),
            spec_mesh_refs_in_bounds(doc, old(bundle).images@.len()),
        ensures
            final (bundle).wf(),
            final (bundle).images == old(bundle).images,
            final (bundle).tex_ids == old(bundle).tex_ids,
            spec_slots_grown(
                old(bundle).images@,
                old(bundle).gl_textures@,
                final (bundle).gl_textures@,
                old(bundle).tex_ids@,
            ),
        uploads_extended(old(bundle).uploads@, final (bundle).uploads@),
        uploads_consistent(*old(bundle)) && uploads_distinct(*old(bundle))
            ==> uploads_consistent(*final (bundle)) && uploads_distinct(*final (bundle)),
            r is Ok <==> spec_mesh_first_error(
                old(bundle).images@,
                old(bundle).gl_textures@,
                doc.primitives@,
            ) is Ok,
            r is Err ==> Err::<(), IngestError>(r->Err_0) == spec_mesh_first_error(
                old(bundle).images@,
                old(bundle).gl_textures@,
                doc.primitives@,
            ),
            r is Ok ==> r->Ok_0.primitives@.len() == doc.primitives@.len(),
            r is Ok ==> forall|i: int|
                0 <= i < doc.primitives@.len() ==> spec_prim_matches(
                    r->Ok_0.primitives@[i],
                    doc.primitives@[i],
                    gpus@[i],
                    old(bundle).gl_textures@,
                    old(bundle).tex_ids@,
                ),
            r is Ok ==> r->Ok_0.name == doc.name,
    {
        let ghost images = old(bundle).images@;
        let ghost slots0 = old(bundle).gl_textures@;
        let ghost ids = old(bundle).tex_ids@;
        let MeshDoc { primitives: prim_docs, name } = doc;
        let ghost docs = prim_docs@;

        let mut primitives: Vec<Primitive> = Vec::new();
        let n = prim_docs.len();
        let mut i: usize = 0;
        while i < n
            invariant
                i <= n,
                n == docs.len(),
                prim_docs@ == docs,
                images == old(bundle).images@,
                slots0 == old(bundle).gl_textures@,
                ids == old(bundle).tex_ids@,
                docs == doc.primitives@,
                gpus@.len() == n,
                bundle.wf(),
                bundle.images@ == images,
                bundle.images == old(bundle).images,
                bundle.tex_ids == old(bundle).tex_ids,
                bundle.tex_ids@ == ids,
                slots0.len() == images.len(),
                spec_slots_grown(images, slots0, bundle.gl_textures@, ids),
                uploads_extended(old(bundle).uploads@, bundle.uploads@),
                uploads_consistent(*old(bundle)) && uploads_distinct(*old(bundle))
                    ==> uploads_consistent(*bundle) && uploads_distinct(*bundle),
                spec_mesh_refs_in_bounds(MeshDoc { primitives: prim_docs, name: None }, images.len()),
                primitives@.len() == i,
                forall|j: int| 0 <= j < i ==> spec_prim_result(images, slots0, #[trigger] docs[j]) is Ok,
                forall|j: int|
                    0 <= j < i ==> spec_prim_matches(
                        #[trigger] primitives@[j],
                        docs[j],
                        gpus@[j],
                        slots0,
                        ids,
                    ),
            decreases n - i,
        {
            let ghost slots_before = bundle.gl_textures@;
            let prim = match Primitive::from_gltf(&prim_docs[i], gpus[i], bundle) {
                Ok(p) => p,
                Err(e) => {
                    proof {
                        lemma_grown_same_prim(images, slots0, slots_before, ids, docs[i as int]);
                        lemma_mesh_first_error_here(images, slots0, docs, i as int);
                        crate::material::lemma_grown_trans(
                            images,
                            slots0,
                            slots_before,
                            bundle.gl_textures@,
                            ids,
                        );
                    }
                    return Err(e);
                },
            };
            proof {
                lemma_grown_same_prim(images, slots0, slots_before, ids, docs[i as int]);
                crate::material::lemma_grown_trans(
                    images,
                    slots0,
                    slots_before,
                    bundle.gl_textures@,
                    ids,
                );
            }
            primitives.push(prim);
            i = i + 1;
        }
        proof {
            lemma_mesh_no_first_error(images, slots0, docs);
        }
        Ok(Mesh { primitives, name })
    }
}

/// The interleaved vertex record's attribute layout: component counts and
/// byte offsets of position, normal, texture coordinates and tangent, and
/// the record stride. Twelve 32-bit components in all.
#[derive(Clone, Copy, PartialEq, Eq, Structural, Debug)]
pub struct VertexLayout {
    pub pos_components: u32,
    pub pos_offset: u32,
    pub normal_components: u32,
    pub normal_offset: u32,
    pub texcoord_components: u32,
    pub texcoord_offset: u32,
    pub tangent_components: u32,
    pub tangent_offset: u32,
    pub stride: u32,
}

/// The layout of the `Vertex` record as it is uploaded: three position
/// components at byte 0, three normal components at 12, two texture
/// coordinates at 24, four tangent components at 32, 48 bytes per record.
pub fn vertex_layout() -> (r: VertexLayout)
    ensures
        r.pos_components == 3 && r.pos_offset == 0,
        r.normal_components == 3 && r.normal_offset == 12,
        r.texcoord_components == 2 && r.texcoord_offset == 24,
        r.tangent_components == 4 && r.tangent_offset == 32,
        r.stride == 48,
        r.stride == 4 * (r.pos_components + r.normal_components + r.texcoord_components
            + r.tangent_components),
{
    VertexLayout {
        pos_components: 3,
        pos_offset: 0,
        normal_components: 3,
        normal_offset: 12,
        texcoord_components: 2,
        texcoord_offset: 24,
        tangent_components: 4,
        tangent_offset: 32,
        stride: 48,
    }
}

} // verus!
