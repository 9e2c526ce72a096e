//! The per-frame rendering pipeline: fixed-function state reset, uniform
//! sequencing, light markers, scene-graph traversal with accumulated
//! transforms, material-driven shader-variant selection, texture-unit
//! binding and draw dispatch.
//!
//! A frame is computed, not performed: `render` turns the renderer state
//! and a render context into an exact sequence of graphics commands (plus a
//! feed of transform snapshots), which the unverified shell plays against
//! the graphics API. A failed frame produces an error and no commands.

use vstd::prelude::*;

use crate::doc::{Float3, Float4};
use crate::error::RenderError;
use crate::glconst::GL_UNSIGNED_BYTE;
use crate::mat::{identity_mat, mat_mul, mat_mul_of, spec_identity_mat, translation_mat,
    translation_mat_of, uniform_scale_mat, uniform_scale_mat_of, Mat, ONE_F32_BITS,
    TENTH_F32_BITS};
use crate::mesh::{Mesh, Primitive};
use crate::shaders::{spec_cache_lookup, spec_data_defines, spec_encode_data, spec_encode_pbr,
    spec_pbr_defines, BrdfType, DataDrivenDefines, PbrDefines, Shaders};
use crate::Viewport;

verus! {

/// How many light markers a session can carry.
pub const MAX_LIGHTS: usize = 4;

/// Texture-unit assignments, fixed for every draw.
pub const TP_ALBEDO: u32 = 2;

pub const TP_MR: u32 = 3;

pub const TP_NORMAL: u32 = 4;

pub const TP_OCCLUSION: u32 = 5;

pub const TP_EMISSIVE: u32 = 6;

pub const TP_CLEARCOAT_INTENSITY: u32 = 7;

pub const TP_CLEARCOAT_ROUGHNESS: u32 = 8;

pub const TP_CLEARCOAT_NORMAL: u32 = 9;

pub const TP_IRRADIANCE: u32 = 10;

pub const TP_PREFILTER: u32 = 11;

pub const TP_BRDF: u32 = 12;

/// The transform uniform value: projection, view and model matrices.
#[derive(Clone, Copy, PartialEq, Debug)]
pub struct Transforms {
    pub projection: Mat,
    pub view: Mat,
    pub model: Mat,
}

/// The material uniform value: the factors a draw reads.
#[derive(Clone, Copy, PartialEq, Eq, Structural, Debug)]
pub struct PbrMaterial {
    pub base_color_factor: Float4,
    pub emissive_factor: Float3,
    pub metallic_factor: u32,
    pub roughness_factor: u32,
    pub normal_scale: u32,
    pub occlusion_strength: u32,
    pub clearcoat_intensity_factor: u32,
    pub clearcoat_roughness_factor: u32,
    pub clearcoat_normal_scale: u32,
    pub anisotropy: u32,
}

impl PbrMaterial {
    /// The neutral material: unit factors for the base model, zero for the
    /// feature blocks.
    pub fn new() -> (r: PbrMaterial)
        ensures
            r == spec_default_material(),
    {
        PbrMaterial {
            base_color_factor: Float4 {
                x: ONE_F32_BITS,
                y: ONE_F32_BITS,
                z: ONE_F32_BITS,
                w: ONE_F32_BITS,
            },
            emissive_factor: Float3 { x: 0, y: 0, z: 0 },
            metallic_factor: ONE_F32_BITS,
            roughness_factor: ONE_F32_BITS,
            normal_scale: ONE_F32_BITS,
            occlusion_strength: ONE_F32_BITS,
            clearcoat_intensity_factor: 0,
            clearcoat_roughness_factor: 0,
            clearcoat_normal_scale: 0,
            anisotropy: 0,
        }
    }
}

/// The neutral material value.
pub open spec fn spec_default_material() -> PbrMaterial {
    PbrMaterial {
        base_color_factor: Float4 {
            x: ONE_F32_BITS,
            y: ONE_F32_BITS,
            z: ONE_F32_BITS,
            w: ONE_F32_BITS,
        },
        emissive_factor: Float3 { x: 0, y: 0, z: 0 },
        metallic_factor: ONE_F32_BITS,
        roughness_factor: ONE_F32_BITS,
        normal_scale: ONE_F32_BITS,
        occlusion_strength: ONE_F32_BITS,
        clearcoat_intensity_factor: 0,
        clearcoat_roughness_factor: 0,
        clearcoat_normal_scale: 0,
        anisotropy: 0,
    }
}

/// The lighting uniform value: active light count, per-light position and
/// color, and the camera position.
#[derive(Clone, Copy, PartialEq, Debug)]
pub struct Lighting {
    pub lights: u32,
    pub light_pos: [Float4; MAX_LIGHTS],
    pub light_color: [Float4; MAX_LIGHTS],
    pub cam_pos: Float3,
}

impl Lighting {
    /// No lights, everything at the origin.
    pub fn new() -> (r: Lighting)
        ensures
            r.lights == 0,
            r.cam_pos == (Float3 { x: 0, y: 0, z: 0 }),
    {
        let zero = Float4 { x: 0, y: 0, z: 0, w: 0 };
        Lighting {
            lights: 0,
            light_pos: [zero, zero, zero, zero],
            light_color: [zero, zero, zero, zero],
            cam_pos: Float3 { x: 0, y: 0, z: 0 },
        }
    }
}

/// The runtime tunables pushed verbatim to the GPU, as opaque words.
#[derive(Clone, Copy, PartialEq, Debug)]
pub struct PbrSettings {
    pub words: [u32; 8],
}

impl PbrSettings {
    /// All-zero tunables.
    pub fn new() -> (r: PbrSettings) {
        PbrSettings { words: [0u32; 8] }
    }
}

/// Where a draw's material factors come from.
#[derive(Clone, Copy, PartialEq, Eq, Structural, Debug)]
pub enum MaterialSrc {
    /// The authored document material of each primitive.
    Gltf,
    /// The global override material.
    PbrOverride,
    /// The measured table family A (data-driven shading).
    MerlBrdf,
    /// The measured table family B (data-driven shading).
    UtiaBrdf,
}

/// One environment map: sharp cube texture, blurred irradiance variant and
/// prefiltered specular variant.
#[derive(Clone, Copy, PartialEq, Eq, Structural, Debug)]
pub struct EnvMap {
    pub cubemap_tex: u32,
    pub irradiance_tex: u32,
    pub prefilter_tex: u32,
}

/// One measured-reflectance table, resident in a GPU data buffer.
#[derive(Clone, Copy, PartialEq, Eq, Structural, Debug)]
pub struct BrdfTable {
    pub ssbo: u32,
}

/// One scene-graph node: a local transform, an optional mesh, children.
pub struct Node {
    pub transform: Mat,
    pub mesh: Option<Mesh>,
    pub children: Vec<Node>,
}

/// One loaded scene: its root node and its scene-level transform.
pub struct Scene {
    pub root: Node,
    pub transform: Mat,
}

/// The resident registries a frame selects from by index.
pub struct Resources {
    pub scenes: Vec<Scene>,
    pub envmaps: Vec<EnvMap>,
    pub merl_brdfs: Vec<BrdfTable>,
    pub utia_brdfs: Vec<BrdfTable>,
}

/// The application settings a frame reads.
pub struct AppSettings {
    pub selected_scene: usize,
    pub selected_envmap: usize,
    pub selected_merl_brdf: usize,
    pub selected_utia_brdf: usize,
    pub material_src: MaterialSrc,
    pub pbr_material_override: PbrMaterial,
    pub pbr_settings: PbrSettings,
    pub viewport: Viewport,
    pub blur_background: bool,
}

/// The per-frame render context: settings, resident resources, and the
/// camera and placement values the collaborators supply. The projection,
/// view and placement matrices are built outside the core (their
/// construction is floating-point work) and flow through it verbatim.
pub struct RenderCtx {
    pub app_settings: AppSettings,
    pub res: Resources,
    /// The camera collaborator's view matrix.
    pub view_mat: Mat,
    /// The camera collaborator's eye position.
    pub cam_pos: Float3,
    /// The projection matrix for the current viewport.
    pub projection: Mat,
    /// The model-placement matrix from the settings' scale, rotation and
    /// translation overrides.
    pub placement_mat: Mat,
}

/// One graphics command. The shell performs them in order; every
/// `UpdateTransforms` consumes the next snapshot of the frame's transform
/// feed.
#[derive(Clone, Copy, PartialEq, Debug)]
pub enum Cmd {
    /// Reset the fixed-function state: depth test (pass if less or equal),
    /// back-face culling with counter-clockwise fronts, the given viewport,
    /// clear color and depth, seamless cube-map sampling, and source-alpha
    /// blending.
    ResetState { viewport: Viewport },
    /// Bind a measured-reflectance table's data buffer.
    BindBrdfBuffer { ssbo: u32 },
    /// Push the runtime tunables.
    UpdatePbrSettings { settings: PbrSettings },
    /// Push the next snapshot of the transform feed.
    UpdateTransforms,
    /// Push the lighting uniform value.
    UpdateLighting { lighting: Lighting },
    /// Push the material uniform value.
    UpdateMaterial { material: PbrMaterial },
    /// Select a compiled program.
    UseProgram { program: u32 },
    /// Hand a light marker's color to the light program.
    SetLightColor { program: u32, color: Float4 },
    /// Bind a texture to a fixed unit.
    BindTextureUnit { unit: u32, texture: u32 },
    /// Issue an indexed triangle draw from a vertex array.
    DrawIndexed { vao: u32, count: usize, index_type: u32 },
}

/// What a frame produces: the command sequence and the transform snapshots
/// the `UpdateTransforms` commands consume in order.
pub struct FrameOutput {
    pub cmds: Vec<Cmd>,
    pub transform_feed: Vec<Transforms>,
}

/// The three matrix views of a transform snapshot.
pub open spec fn spec_tview(t: Transforms) -> (Seq<u32>, Seq<u32>, Seq<u32>) {
    (t.projection@, t.view@, t.model@)
}

/// The views of a whole transform feed.
pub open spec fn spec_tviews(s: Seq<Transforms>) -> Seq<(Seq<u32>, Seq<u32>, Seq<u32>)> {
    s.map_values(|t: Transforms| spec_tview(t))
}

/// Appending one snapshot appends its views.
pub proof fn lemma_tviews_push(s: Seq<Transforms>, t: Transforms)
    ensures
        spec_tviews(s.push(t)) == spec_tviews(s).push(spec_tview(t)),
{
    assert(spec_tviews(s.push(t)) =~= spec_tviews(s).push(spec_tview(t)));
}

/// The renderer: shader caches, the CPU side of each uniform channel, and
/// the fixed GPU resources the shell created for it.
pub struct Renderer {
    pub shaders: Shaders,
    /// Current transformation matrices.
    pub transforms: Transforms,
    /// Current mesh material.
    pub material: PbrMaterial,
    /// Current lighting settings.
    pub lighting: Lighting,
    /// Runtime rendering settings.
    pub pbr_settings: PbrSettings,
    /// The unit cube used for light markers and the background.
    pub cube_vao: u32,
    /// How many indices the unit cube draws with.
    pub cube_index_count: usize,
    /// The precomputed split-sum lookup texture for ambient shading.
    pub dfg_lut: u32,
}

/// The handles the shell hands a fresh renderer: the unit-cube vertex
/// array, its index count, the ambient lookup texture, and the two fixed
/// programs.
#[derive(Clone, Copy, PartialEq, Eq, Structural, Debug)]
pub struct RendererGpu {
    pub cube_vao: u32,
    pub cube_index_count: usize,
    pub dfg_lut: u32,
    pub cubemap_program: u32,
    pub light_program: u32,
}

/// Which table the selected material source resolves, if any, together
/// with whether its index is in range.
pub open spec fn spec_brdf_selection(ctx: RenderCtx) -> Option<Result<BrdfTable, RenderError>> {
    match ctx.app_settings.material_src {
        MaterialSrc::MerlBrdf => Some(
            if ctx.app_settings.selected_merl_brdf < ctx.res.merl_brdfs@.len() {
                Ok(ctx.res.merl_brdfs@[ctx.app_settings.selected_merl_brdf as int])
            } else {
                Err(RenderError::BrdfIndexOutOfRange)
            },
        ),
        MaterialSrc::UtiaBrdf => Some(
            if ctx.app_settings.selected_utia_brdf < ctx.res.utia_brdfs@.len() {
                Ok(ctx.res.utia_brdfs@[ctx.app_settings.selected_utia_brdf as int])
            } else {
                Err(RenderError::BrdfIndexOutOfRange)
            },
        ),
        _ => None,
    }
}

/// The commands the table binding stage emits when it succeeds.
pub open spec fn spec_brdf_cmds(ctx: RenderCtx) -> Seq<Cmd> {
    match spec_brdf_selection(ctx) {
        Some(Ok(t)) => seq![Cmd::BindBrdfBuffer { ssbo: t.ssbo }],
        _ => Seq::empty(),
    }
}

/// Whether the table binding stage succeeds.
pub open spec fn spec_brdf_ok(ctx: RenderCtx) -> bool {
    !(spec_brdf_selection(ctx) matches Some(Err(e)))
}

/// The lighting value with the camera position written in.
pub open spec fn spec_lighting_with_cam(l: Lighting, c: Float3) -> Lighting {
    Lighting { lights: l.lights, light_pos: l.light_pos, light_color: l.light_color, cam_pos: c }
}

/// The binding command for one optional texture at its unit.
pub open spec fn spec_bind_opt(t: Option<crate::texture::Texture>, unit: u32) -> Seq<Cmd> {
    match t {
        Some(tex) => seq![Cmd::BindTextureUnit { unit, texture: tex.id }],
        None => Seq::empty(),
    }
}

/// Every texture-unit binding one primitive's draw needs: the supplied
/// material textures at their fixed units, the clearcoat block's when it is
/// present, then the environment's ambient textures and the split-sum
/// lookup.
pub open spec fn spec_bind_cmds(p: Primitive, env: EnvMap, dfg_lut: u32) -> Seq<Cmd> {
    spec_bind_opt(p.pbr_material.base_color_texture, TP_ALBEDO) + spec_bind_opt(
        p.pbr_material.mr_texture,
        TP_MR,
    ) + spec_bind_opt(p.pbr_material.normal_texture, TP_NORMAL) + spec_bind_opt(
        p.pbr_material.occlusion_texture,
        TP_OCCLUSION,
    ) + spec_bind_opt(p.pbr_material.emissive_texture, TP_EMISSIVE) + (match p.clearcoat {
        Some(cc) => spec_bind_opt(cc.intensity_texture, TP_CLEARCOAT_INTENSITY) + spec_bind_opt(
            cc.roughness_texture,
            TP_CLEARCOAT_ROUGHNESS,
        ) + spec_bind_opt(cc.normal_texture, TP_CLEARCOAT_NORMAL),
        None => Seq::empty(),
    }) + seq![
        Cmd::BindTextureUnit { unit: TP_IRRADIANCE, texture: env.irradiance_tex },
        Cmd::BindTextureUnit { unit: TP_PREFILTER, texture: env.prefilter_tex },
        Cmd::BindTextureUnit { unit: TP_BRDF, texture: dfg_lut },
    ]
}

/// The material value after one primitive's factors are applied: the
/// override verbatim, the primitive's authored factors (feature-block
/// factors only where the primitive carries that block), or the previous
/// value untouched for the measured sources.
pub open spec fn spec_material_after(m: PbrMaterial, p: Primitive, s: AppSettings) -> PbrMaterial {
    if s.material_src is PbrOverride {
        s.pbr_material_override
    } else if s.material_src is Gltf {
        PbrMaterial {
            base_color_factor: p.pbr_material.base_color_factor,
            emissive_factor: p.pbr_material.emissive_factor,
            metallic_factor: p.pbr_material.metallic_factor,
            roughness_factor: p.pbr_material.roughness_factor,
            normal_scale: p.pbr_material.normal_scale,
            occlusion_strength: p.pbr_material.occlusion_strength,
            clearcoat_intensity_factor: match p.clearcoat {
                Some(cc) => cc.intensity_factor,
                None => m.clearcoat_intensity_factor,
            },
            clearcoat_roughness_factor: match p.clearcoat {
                Some(cc) => cc.roughness_factor,
                None => m.clearcoat_roughness_factor,
            },
            clearcoat_normal_scale: match p.clearcoat {
                Some(cc) => cc.normal_scale,
                None => m.clearcoat_normal_scale,
            },
            anisotropy: match p.anisotropy {
                Some(a) => a.anisotropy,
                None => m.anisotropy,
            },
        }
    } else {
        m
    }
}

/// The program the frame selects for one primitive: the data-driven cache
/// keyed by (table kind, supplied channels) for a measured source, the
/// standard cache keyed by the primitive's own feature flags otherwise.
pub open spec fn spec_selected_shader(sh: Shaders, src: MaterialSrc, p: Primitive) -> Option<
    u32,
> {
    match src {
        MaterialSrc::MerlBrdf => spec_cache_lookup(
            sh.data_based_shaders.entries@,
            spec_encode_data(spec_data_defines(p, BrdfType::Merl)) as u64,
        ),
        MaterialSrc::UtiaBrdf => spec_cache_lookup(
            sh.data_based_shaders.entries@,
            spec_encode_data(spec_data_defines(p, BrdfType::Utia)) as u64,
        ),
        _ => spec_cache_lookup(
            sh.pbr_shaders.entries@,
            spec_encode_pbr(spec_pbr_defines(p)) as u64,
        ),
    }
}

impl Renderer {
    /// Creates a renderer around the shell's fixed GPU resources: empty
    /// shader caches, identity transforms, the neutral material, no lights
    /// and zeroed tunables.
    pub fn new(gpu: RendererGpu) -> (r: Renderer)
        ensures
            r.shaders.pbr_shaders.entries@.len() == 0,
            r.shaders.data_based_shaders.entries@.len() == 0,
            r.shaders.cubemap_program == gpu.cubemap_program,
            r.shaders.light_program == gpu.light_program,
            r.transforms.projection@ == spec_identity_mat(),
            r.transforms.view@ == spec_identity_mat(),
            r.transforms.model@ == spec_identity_mat(),
            r.material == spec_default_material(),
            r.lighting.lights == 0,
            r.cube_vao == gpu.cube_vao,
            r.cube_index_count == gpu.cube_index_count,
            r.dfg_lut == gpu.dfg_lut,
    {
        let id = identity_mat();
        Renderer {
            shaders: Shaders::new(gpu.cubemap_program, gpu.light_program),
            transforms: Transforms { projection: id, view: id, model: id },
            material: PbrMaterial::new(),
            lighting: Lighting::new(),
            pbr_settings: PbrSettings::new(),
            cube_vao: gpu.cube_vao,
            cube_index_count: gpu.cube_index_count,
            dfg_lut: gpu.dfg_lut,
        }
    }

    /// Emits the per-frame fixed-function state reset for the context's
    /// viewport.
    pub fn reset_gl_state(&self, ctx: &RenderCtx, cmds: &mut Vec<Cmd>)
        ensures
            final (cmds)@ == old(cmds)@.push(
                Cmd::ResetState { viewport: ctx.app_settings.viewport },
            ),
    {
        cmds.push(Cmd::ResetState { viewport: ctx.app_settings.viewport });
    }

    /// Resolves the selected measured table, if the material source names
    /// one, and emits the binding of its data buffer; an out-of-range table
    /// index fails the frame.
    pub fn update_brdf(&self, ctx: &RenderCtx, cmds: &mut Vec<Cmd>) -> (r: Result<
        (),
        RenderError,
    >)
        ensures
            r is Ok <==> spec_brdf_ok(*ctx),
            r is Ok ==> final (cmds)@ == old(cmds)@ + spec_brdf_cmds(*ctx),
            r is Err ==> r->Err_0 == RenderError::BrdfIndexOutOfRange && final (cmds)@ == old(
                cmds,
            )@,
    {
        match ctx.app_settings.material_src {
            MaterialSrc::MerlBrdf => {
                let i = ctx.app_settings.selected_merl_brdf;
                if i >= ctx.res.merl_brdfs.len() {
                    return Err(RenderError::BrdfIndexOutOfRange);
                }
                cmds.push(Cmd::BindBrdfBuffer { ssbo: ctx.res.merl_brdfs[i].ssbo });
                proof {
                    assert(final (cmds)@ =~= old(cmds)@ + spec_brdf_cmds(*ctx));
                }
                Ok(())
            },
            MaterialSrc::UtiaBrdf => {
                let i = ctx.app_settings.selected_utia_brdf;
                if i >= ctx.res.utia_brdfs.len() {
                    return Err(RenderError::BrdfIndexOutOfRange);
                }
                cmds.push(Cmd::BindBrdfBuffer { ssbo: ctx.res.utia_brdfs[i].ssbo });
                proof {
                    assert(final (cmds)@ =~= old(cmds)@ + spec_brdf_cmds(*ctx));
                }
                Ok(())
            },
            _ => {
                proof {
                    assert(final (cmds)@ =~= old(cmds)@ + spec_brdf_cmds(*ctx));
                }
                Ok(())
            },
        }
    }

    /// The model transform of the active scene: the settings' placement
    /// matrix times the scene-level transform.
    pub fn calc_model_transform(placement: &Mat, scene_transform: &Mat) -> (r: Mat)
        ensures
            r@ == mat_mul_of(placement@, scene_transform@),
    {
        mat_mul(placement, scene_transform)
    }

    /// Pushes one primitive's factors into the material channel according
    /// to the configured source, and emits the channel update.
    pub fn set_material(&mut self, prim: &Primitive, ctx: &RenderCtx, cmds: &mut Vec<Cmd>)
        ensures
            final (self).material == spec_material_after(
                old(self).material,
                *prim,
                ctx.app_settings,
            ),
            final (cmds)@ == old(cmds)@.push(
                Cmd::UpdateMaterial { material: final (self).material },
            ),
            final (self).shaders == old(self).shaders,
            final (self).transforms == old(self).transforms,
            final (self).lighting == old(self).lighting,
            final (self).pbr_settings == old(self).pbr_settings,
            final (self).cube_vao == old(self).cube_vao,
            final (self).cube_index_count == old(self).cube_index_count,
            final (self).dfg_lut == old(self).dfg_lut,
    {
        match ctx.app_settings.material_src {
            MaterialSrc::PbrOverride => {
                self.material = ctx.app_settings.pbr_material_override;
            },
            MaterialSrc::Gltf => {
                self.material.base_color_factor = prim.pbr_material.base_color_factor;
                self.material.emissive_factor = prim.pbr_material.emissive_factor;
                self.material.metallic_factor = prim.pbr_material.metallic_factor;
                self.material.roughness_factor = prim.pbr_material.roughness_factor;
                self.material.normal_scale = prim.pbr_material.normal_scale;
                self.material.occlusion_strength = prim.pbr_material.occlusion_strength;
                match &prim.clearcoat {
                    Some(cc) => {
                        self.material.clearcoat_intensity_factor = cc.intensity_factor;
                        self.material.clearcoat_roughness_factor = cc.roughness_factor;
                        self.material.clearcoat_normal_scale = cc.normal_scale;
                    },
                    None => {},
                }
                match &prim.anisotropy {
                    Some(a) => {
                        self.material.anisotropy = a.anisotropy;
                    },
                    None => {},
                }
            },
            _ => {},
        }
        cmds.push(Cmd::UpdateMaterial { material: self.material });
    }

    /// Selects the shader variant for one primitive: the data-driven cache
    /// for a measured source, keyed by table kind and supplied channels;
    /// the standard cache otherwise, keyed by the primitive's feature
    /// flags. A variant not yet compiled fails the frame.
    pub fn select_shader(&self, prim: &Primitive, src: MaterialSrc) -> (r: Result<
        u32,
        RenderError,
    >)
        ensures
            r is Ok <==> spec_selected_shader(self.shaders, src, *prim) is Some,
            r is Ok ==> Some(r->Ok_0) == spec_selected_shader(self.shaders, src, *prim),
            r is Err ==> r->Err_0 == RenderError::ShaderVariantMissing,
    {
        let looked: Option<u32> = match src {
            MaterialSrc::MerlBrdf => {
                let defines = DataDrivenDefines::from_prim_brdf(prim, BrdfType::Merl);
                self.shaders.data_based_shaders.get(defines.encode())
            },
            MaterialSrc::UtiaBrdf => {
                let defines = DataDrivenDefines::from_prim_brdf(prim, BrdfType::Utia);
                self.shaders.data_based_shaders.get(defines.encode())
            },
            _ => {
                let defines = PbrDefines::from_prim(prim);
                self.shaders.pbr_shaders.get(defines.encode())
            },
        };
        match looked {
            Some(program) => Ok(program),
            None => Err(RenderError::ShaderVariantMissing),
        }
    }

    /// Emits one primitive's indexed draw from its vertex array.
    pub fn draw_mesh(prim: &Primitive, cmds: &mut Vec<Cmd>)
        ensures
            final (cmds)@ == old(cmds)@.push(
                Cmd::DrawIndexed {
                    vao: prim.vao,
                    count: prim.num_indices,
                    index_type: prim.indices_type,
                },
            ),
    {
        cmds.push(
            Cmd::DrawIndexed {
                vao: prim.vao,
                count: prim.num_indices,
                index_type: prim.indices_type,
            },
        );
    }

    /// Emits the texture-unit bindings one primitive's draw needs; an
    /// out-of-range environment-map index fails the frame.
    #[verifier::rlimit(50)]
    pub fn bind_textures(&self, prim: &Primitive, ctx: &RenderCtx, cmds: &mut Vec<Cmd>) -> (r:
        Result<(), RenderError>)
        ensures
            r is Ok <==> ctx.app_settings.selected_envmap < ctx.res.envmaps@.len(),
            r is Ok ==> final (cmds)@ == old(cmds)@ + spec_bind_cmds(
                *prim,
                ctx.res.envmaps@[ctx.app_settings.selected_envmap as int],
                self.dfg_lut,
            ),
            r is Err ==> r->Err_0 == RenderError::EnvmapIndexOutOfRange && final (cmds)@ == old(
                cmds,
            )@,
    {
        let selected = ctx.app_settings.selected_envmap;
        if selected >= ctx.res.envmaps.len() {
            return Err(RenderError::EnvmapIndexOutOfRange);
        }
        let env = ctx.res.envmaps[selected];
        let ghost base = cmds@;

        bind_texture_unit_opt(&prim.pbr_material.base_color_texture, TP_ALBEDO, cmds);
        bind_texture_unit_opt(&prim.pbr_material.mr_texture, TP_MR, cmds);
        bind_texture_unit_opt(&prim.pbr_material.normal_texture, TP_NORMAL, cmds);
        bind_texture_unit_opt(&prim.pbr_material.occlusion_texture, TP_OCCLUSION, cmds);
        bind_texture_unit_opt(&prim.pbr_material.emissive_texture, TP_EMISSIVE, cmds);
        let ghost mat_part = spec_bind_opt(prim.pbr_material.base_color_texture, TP_ALBEDO)
            + spec_bind_opt(prim.pbr_material.mr_texture, TP_MR) + spec_bind_opt(
            prim.pbr_material.normal_texture,
            TP_NORMAL,
        ) + spec_bind_opt(prim.pbr_material.occlusion_texture, TP_OCCLUSION) + spec_bind_opt(
            prim.pbr_material.emissive_texture,
            TP_EMISSIVE,
        );
        proof {
            assert(cmds@ =~= base + mat_part);
        }

        match &prim.clearcoat {
            Some(cc) => {
                bind_texture_unit_opt(&cc.intensity_texture, TP_CLEARCOAT_INTENSITY, cmds);
                bind_texture_unit_opt(&cc.roughness_texture, TP_CLEARCOAT_ROUGHNESS, cmds);
                bind_texture_unit_opt(&cc.normal_texture, TP_CLEARCOAT_NORMAL, cmds);
            },
            None => {},
        }
        let ghost cc_part = match prim.clearcoat {
            Some(cc) => spec_bind_opt(cc.intensity_texture, TP_CLEARCOAT_INTENSITY)
                + spec_bind_opt(cc.roughness_texture, TP_CLEARCOAT_ROUGHNESS) + spec_bind_opt(
                cc.normal_texture,
                TP_CLEARCOAT_NORMAL,
            ),
            None => Seq::empty(),
        };
        proof {
            assert(cmds@ =~= base + mat_part + cc_part);
        }

        cmds.push(Cmd::BindTextureUnit { unit: TP_IRRADIANCE, texture: env.irradiance_tex });
        cmds.push(Cmd::BindTextureUnit { unit: TP_PREFILTER, texture: env.prefilter_tex });
        cmds.push(Cmd::BindTextureUnit { unit: TP_BRDF, texture: self.dfg_lut });

        proof {
            let tail = seq![
                Cmd::BindTextureUnit { unit: TP_IRRADIANCE, texture: env.irradiance_tex },
                Cmd::BindTextureUnit { unit: TP_PREFILTER, texture: env.prefilter_tex },
                Cmd::BindTextureUnit { unit: TP_BRDF, texture: self.dfg_lut },
            ];
            assert(cmds@ =~= base + mat_part + cc_part + tail);
            assert(spec_bind_cmds(*prim, env, self.dfg_lut) =~= mat_part + cc_part + tail);
            assert(final (cmds)@ =~= old(cmds)@ + spec_bind_cmds(*prim, env, self.dfg_lut));
        }
        Ok(())
    }
}

/// Emits the binding of one optional texture at its unit.
pub fn bind_texture_unit_opt(t: &Option<crate::texture::Texture>, unit: u32, cmds: &mut Vec<Cmd>)
    ensures
        final (cmds)@ == old(cmds)@ + spec_bind_opt(*t, unit),
{
    match t {
        Some(tex) => {
            cmds.push(Cmd::BindTextureUnit { unit, texture: tex.id });
            proof {
                assert(final (cmds)@ =~= old(cmds)@ + spec_bind_opt(*t, unit));
            }
        },
        None => {
            proof {
                assert(final (cmds)@ =~= old(cmds)@ + spec_bind_opt(*t, unit));
            }
        },
    }
}

} // verus!

verus! {

/// Whether the selected environment map is in range.
pub open spec fn spec_env_ok(ctx: RenderCtx) -> bool {
    ctx.app_settings.selected_envmap < ctx.res.envmaps@.len()
}

/// The selected environment map (immaterial when out of range: every use
/// is guarded by `spec_env_ok`).
pub open spec fn spec_env(ctx: RenderCtx) -> EnvMap {
    if spec_env_ok(ctx) {
        ctx.res.envmaps@[ctx.app_settings.selected_envmap as int]
    } else {
        EnvMap { cubemap_tex: 0, irradiance_tex: 0, prefilter_tex: 0 }
    }
}

/// How many light markers the frame draws: the active count, capped by
/// the marker storage.
pub open spec fn spec_light_count(l: Lighting) -> int {
    if l.lights <= 4 {
        l.lights as int
    } else {
        4
    }
}

/// The commands and transform snapshots of the first `n` light markers:
/// per light, the light program, the marker transform (its position,
/// scaled down), the light's color, and a small cube draw.
pub open spec fn spec_lights_trace(
    l: Lighting,
    program: u32,
    cube_vao: u32,
    cube_count: usize,
    proj: Seq<u32>,
    view: Seq<u32>,
    n: int,
) -> (Seq<Cmd>, Seq<(Seq<u32>, Seq<u32>, Seq<u32>)>)
    decreases n,
{
    if n <= 0 {
        (Seq::empty(), Seq::empty())
    } else {
        let (c, t) = spec_lights_trace(l, program, cube_vao, cube_count, proj, view, n - 1);
        let p = l.light_pos@[n - 1];
        let model_v = mat_mul_of(
            translation_mat_of(p.x, p.y, p.z),
            uniform_scale_mat_of(TENTH_F32_BITS),
        );
        (
            c + seq![
                Cmd::UseProgram { program },
                Cmd::UpdateTransforms,
                Cmd::SetLightColor { program, color: l.light_color@[n - 1] },
                Cmd::DrawIndexed { vao: cube_vao, count: cube_count, index_type: GL_UNSIGNED_BYTE },
            ],
            t + seq![(proj, view, model_v)],
        )
    }
}

/// The background commands: the cube program, the sharp or blurred
/// environment texture at unit zero by the blur toggle, and a unit cube
/// draw.
pub open spec fn spec_cubemap_cmds(r: Renderer, ctx: RenderCtx) -> Seq<Cmd> {
    let texid = if ctx.app_settings.blur_background {
        spec_env(ctx).irradiance_tex
    } else {
        spec_env(ctx).cubemap_tex
    };
    seq![
        Cmd::UseProgram { program: r.shaders.cubemap_program },
        Cmd::BindTextureUnit { unit: 0, texture: texid },
        Cmd::DrawIndexed {
            vao: r.cube_vao,
            count: r.cube_index_count,
            index_type: GL_UNSIGNED_BYTE,
        },
    ]
}

impl Renderer {
    /// Updates the frame's uniform channels in order: the measured table
    /// binding when one is selected, the runtime tunables, the
    /// transforms (projection from the context, view from the camera,
    /// model from placement times the scene transform), and the lighting
    /// with the camera position written in. Fails on an out-of-range
    /// table or scene index.
    pub fn update_uniforms(
        &mut self,
        ctx: &RenderCtx,
        cmds: &mut Vec<Cmd>,
        snaps: &mut Vec<Transforms>,
    ) -> (r: Result<(), RenderError>)
        ensures
            r is Ok <==> spec_brdf_ok(*ctx) && ctx.app_settings.selected_scene
                < ctx.res.scenes@.len(),
            !spec_brdf_ok(*ctx) ==> r == Err::<(), RenderError>(RenderError::BrdfIndexOutOfRange)
                && final (cmds)@ == old(cmds)@ && final (snaps)@ == old(snaps)@ && *final (self)
                == *old(self),
            spec_brdf_ok(*ctx) && ctx.app_settings.selected_scene >= ctx.res.scenes@.len() ==> r
                == Err::<(), RenderError>(RenderError::SceneIndexOutOfRange) && final (cmds)@
                == old(cmds)@ + spec_brdf_cmds(*ctx) + seq![
                Cmd::UpdatePbrSettings { settings: ctx.app_settings.pbr_settings },
            ] && final (snaps)@ == old(snaps)@,
            r is Ok ==> final (cmds)@ == old(cmds)@ + spec_brdf_cmds(*ctx) + seq![
                Cmd::UpdatePbrSettings { settings: ctx.app_settings.pbr_settings },
                Cmd::UpdateTransforms,
                Cmd::UpdateLighting {
                    lighting: spec_lighting_with_cam(old(self).lighting, ctx.cam_pos),
                },
            ],
            r is Ok ==> spec_tviews(final (snaps)@) == spec_tviews(old(snaps)@).push(
                (
                    ctx.projection@,
                    ctx.view_mat@,
                    mat_mul_of(
                        ctx.placement_mat@,
                        ctx.res.scenes@[ctx.app_settings.selected_scene as int].transform@,
                    ),
                ),
            ),
            r is Ok ==> final (self).transforms.projection == ctx.projection
                && final (self).transforms.view == ctx.view_mat
                && final (self).transforms.model@ == mat_mul_of(
                ctx.placement_mat@,
                ctx.res.scenes@[ctx.app_settings.selected_scene as int].transform@,
            ),
            r is Ok ==> final (self).lighting == spec_lighting_with_cam(
                old(self).lighting,
                ctx.cam_pos,
            ) && final (self).pbr_settings == ctx.app_settings.pbr_settings,
            final (self).shaders == old(self).shaders,
            final (self).material == old(self).material,
            final (self).cube_vao == old(self).cube_vao,
            final (self).cube_index_count == old(self).cube_index_count,
            final (self).dfg_lut == old(self).dfg_lut,
            r is Err ==> final (self).lighting == old(self).lighting && final (self).transforms
                == old(self).transforms,
    {
        match self.update_brdf(ctx, cmds) {
            Ok(u) => {},
            Err(e) => {
                return Err(e);
            },
        }
        self.pbr_settings = ctx.app_settings.pbr_settings;
        cmds.push(Cmd::UpdatePbrSettings { settings: self.pbr_settings });

        let selected_scene = ctx.app_settings.selected_scene;
        if selected_scene >= ctx.res.scenes.len() {
            proof {
                assert(cmds@ =~= old(cmds)@ + spec_brdf_cmds(*ctx) + seq![
                    Cmd::UpdatePbrSettings { settings: ctx.app_settings.pbr_settings },
                ]);
            }
            return Err(RenderError::SceneIndexOutOfRange);
        }
        let scene = &ctx.res.scenes[selected_scene];

        self.transforms.projection = ctx.projection;
        self.transforms.view = ctx.view_mat;
        self.transforms.model = Self::calc_model_transform(&ctx.placement_mat, &scene.transform);
        snaps.push(self.transforms);
        cmds.push(Cmd::UpdateTransforms);

        self.lighting.cam_pos = ctx.cam_pos;
        cmds.push(Cmd::UpdateLighting { lighting: self.lighting });

        proof {
            lemma_tviews_push(old(snaps)@, final (snaps)@[final (snaps)@.len() - 1]);
            assert(final (snaps)@ =~= old(snaps)@.push(
                final (snaps)@[final (snaps)@.len() - 1],
            ));
            assert(cmds@ =~= old(cmds)@ + spec_brdf_cmds(*ctx) + seq![
                Cmd::UpdatePbrSettings { settings: ctx.app_settings.pbr_settings },
                Cmd::UpdateTransforms,
                Cmd::UpdateLighting {
                    lighting: spec_lighting_with_cam(old(self).lighting, ctx.cam_pos),
                },
            ]);
        }
        Ok(())
    }

    /// Draws the light markers: for each active light (bounded by the
    /// per-session marker count), a small cube at the light's position
    /// under the light program, in the light's color.
    pub fn render_lights(&mut self, cmds: &mut Vec<Cmd>, snaps: &mut Vec<Transforms>)
        ensures
            final (cmds)@ == old(cmds)@ + spec_lights_trace(
                old(self).lighting,
                old(self).shaders.light_program,
                old(self).cube_vao,
                old(self).cube_index_count,
                old(self).transforms.projection@,
                old(self).transforms.view@,
                spec_light_count(old(self).lighting),
            ).0,
            spec_tviews(final (snaps)@) == spec_tviews(old(snaps)@) + spec_lights_trace(
                old(self).lighting,
                old(self).shaders.light_program,
                old(self).cube_vao,
                old(self).cube_index_count,
                old(self).transforms.projection@,
                old(self).transforms.view@,
                spec_light_count(old(self).lighting),
            ).1,
            final (self).shaders == old(self).shaders,
            final (self).material == old(self).material,
            final (self).lighting == old(self).lighting,
            final (self).pbr_settings == old(self).pbr_settings,
            final (self).cube_vao == old(self).cube_vao,
            final (self).cube_index_count == old(self).cube_index_count,
            final (self).dfg_lut == old(self).dfg_lut,
            final (self).transforms.projection == old(self).transforms.projection,
            final (self).transforms.view == old(self).transforms.view,
    {
        let lights = self.lighting.lights;
        let n: usize = if lights > 4 {
            4
        } else {
            lights as usize
        };
        let ghost l = self.lighting;
        let ghost program = self.shaders.light_program;
        let ghost proj = self.transforms.projection@;
        let ghost view = self.transforms.view@;
        let ghost base_cmds = cmds@;
        let ghost base_tv = spec_tviews(snaps@);

        let mut i: usize = 0;
        while i < n
            invariant
                i <= n,
                n == spec_light_count(l),
                self.lighting == l,
                self.shaders == old(self).shaders,
                program == self.shaders.light_program,
                self.material == old(self).material,
                self.pbr_settings == old(self).pbr_settings,
                self.cube_vao == old(self).cube_vao,
                self.cube_index_count == old(self).cube_index_count,
                self.dfg_lut == old(self).dfg_lut,
                self.transforms.projection == old(self).transforms.projection,
                self.transforms.view == old(self).transforms.view,
                proj == self.transforms.projection@,
                view == self.transforms.view@,
                cmds@ == base_cmds + spec_lights_trace(
                    l,
                    program,
                    self.cube_vao,
                    self.cube_index_count,
                    proj,
                    view,
                    i as int,
                ).0,
                spec_tviews(snaps@) == base_tv + spec_lights_trace(
                    l,
                    program,
                    self.cube_vao,
                    self.cube_index_count,
                    proj,
                    view,
                    i as int,
                ).1,
            decreases n - i,
        {
            let ghost prev_cmds = cmds@;
            let ghost prev_snaps = snaps@;
            let ghost prev_tv = spec_tviews(snaps@);

            cmds.push(Cmd::UseProgram { program: self.shaders.light_program });

            let pos = self.lighting.light_pos[i];
            let t = translation_mat(pos.x, pos.y, pos.z);
            let s = uniform_scale_mat(TENTH_F32_BITS);
            self.transforms.model = mat_mul(&t, &s);
            snaps.push(self.transforms);
            cmds.push(Cmd::UpdateTransforms);

            cmds.push(
                Cmd::SetLightColor {
                    program: self.shaders.light_program,
                    color: self.lighting.light_color[i],
                },
            );
            cmds.push(
                Cmd::DrawIndexed {
                    vao: self.cube_vao,
                    count: self.cube_index_count,
                    index_type: GL_UNSIGNED_BYTE,
                },
            );

            proof {
                assert(snaps@ =~= prev_snaps.push(snaps@[snaps@.len() - 1]));
                lemma_tviews_push(prev_snaps, snaps@[snaps@.len() - 1]);
                assert(spec_tviews(snaps@) =~= prev_tv.push(
                    (proj, view, self.transforms.model@),
                ));
                assert(l.light_pos@[i as int] == pos);
                assert(l.light_color@[i as int] == self.lighting.light_color@[i as int]);
                assert(cmds@ =~= base_cmds + spec_lights_trace(
                    l,
                    program,
                    self.cube_vao,
                    self.cube_index_count,
                    proj,
                    view,
                    i as int + 1,
                ).0);
                assert(spec_tviews(snaps@) =~= base_tv + spec_lights_trace(
                    l,
                    program,
                    self.cube_vao,
                    self.cube_index_count,
                    proj,
                    view,
                    i as int + 1,
                ).1);
            }
            i = i + 1;
        }
    }

    /// Draws the background: the sharp environment cube or its blurred
    /// irradiance variant at unit zero, behind all geometry. Fails on an
    /// out-of-range environment-map index.
    pub fn draw_cubemap(&self, ctx: &RenderCtx, cmds: &mut Vec<Cmd>) -> (r: Result<
        (),
        RenderError,
    >)
        ensures
            r is Ok <==> spec_env_ok(*ctx),
            r is Ok ==> final (cmds)@ == old(cmds)@ + spec_cubemap_cmds(*self, *ctx),
            r is Err ==> r->Err_0 == RenderError::EnvmapIndexOutOfRange && final (cmds)@ == old(
                cmds,
            )@,
    {
        let selected = ctx.app_settings.selected_envmap;
        if selected >= ctx.res.envmaps.len() {
            return Err(RenderError::EnvmapIndexOutOfRange);
        }
        let env = ctx.res.envmaps[selected];
        let texid = if ctx.app_settings.blur_background {
            env.irradiance_tex
        } else {
            env.cubemap_tex
        };
        cmds.push(Cmd::UseProgram { program: self.shaders.cubemap_program });
        cmds.push(Cmd::BindTextureUnit { unit: 0, texture: texid });
        cmds.push(
            Cmd::DrawIndexed {
                vao: self.cube_vao,
                count: self.cube_index_count,
                index_type: GL_UNSIGNED_BYTE,
            },
        );
        proof {
            assert(final (cmds)@ =~= old(cmds)@ + spec_cubemap_cmds(*self, *ctx));
        }
        Ok(())
    }
}

} // verus!

verus! {

/// The commands one primitive's draw contributes, the material value it
/// leaves behind, and its error, if any: texture bindings, the material
/// push, then program selection and the draw.
pub open spec fn spec_prim_trace(
    m0: PbrMaterial,
    p: Primitive,
    s: AppSettings,
    env: EnvMap,
    dfg: u32,
    sh: Shaders,
) -> (Seq<Cmd>, PbrMaterial, Option<RenderError>) {
    let bind = spec_bind_cmds(p, env, dfg);
    let m1 = spec_material_after(m0, p, s);
    let c1 = bind.push(Cmd::UpdateMaterial { material: m1 });
    match spec_selected_shader(sh, s.material_src, p) {
        None => (c1, m1, Some(RenderError::ShaderVariantMissing)),
        Some(prog) => (
            c1.push(Cmd::UseProgram { program: prog }).push(
                Cmd::DrawIndexed { vao: p.vao, count: p.num_indices, index_type: p.indices_type },
            ),
            m1,
            None,
        ),
    }
}

/// The contribution of a primitive list, threading the material value and
/// stopping at the first failure; an out-of-range environment map fails
/// before the first primitive touches it.
pub open spec fn spec_prims_trace(
    m0: PbrMaterial,
    prims: Seq<Primitive>,
    s: AppSettings,
    env_ok: bool,
    env: EnvMap,
    dfg: u32,
    sh: Shaders,
) -> (Seq<Cmd>, PbrMaterial, Option<RenderError>)
    decreases prims.len(),
{
    if prims.len() == 0 {
        (Seq::empty(), m0, None)
    } else if !env_ok {
        (Seq::empty(), m0, Some(RenderError::EnvmapIndexOutOfRange))
    } else {
        let head = spec_prim_trace(m0, prims[0], s, env, dfg, sh);
        if head.2 is Some {
            head
        } else {
            let tail = spec_prims_trace(head.1, prims.drop_first(), s, env_ok, env, dfg, sh);
            (head.0 + tail.0, tail.1, tail.2)
        }
    }
}

/// The contribution of one mesh under an accumulated transform: the
/// transform push, then each primitive in order.
pub open spec fn spec_mesh_trace(
    m0: PbrMaterial,
    mesh: Mesh,
    s: AppSettings,
    env_ok: bool,
    env: EnvMap,
    dfg: u32,
    sh: Shaders,
    proj: Seq<u32>,
    view: Seq<u32>,
    model_v: Seq<u32>,
) -> (Seq<Cmd>, Seq<(Seq<u32>, Seq<u32>, Seq<u32>)>, PbrMaterial, Option<RenderError>) {
    let prims = spec_prims_trace(m0, mesh.primitives@, s, env_ok, env, dfg, sh);
    (seq![Cmd::UpdateTransforms] + prims.0, seq![(proj, view, model_v)], prims.1, prims.2)
}

/// The contribution of one node in depth-first pre-order: its accumulated
/// transform is the outer transform times its local transform; its own
/// mesh renders first, then its children in order, stopping at the first
/// failure.
pub open spec fn spec_node_trace(
    m0: PbrMaterial,
    node: Node,
    outer_v: Seq<u32>,
    s: AppSettings,
    env_ok: bool,
    env: EnvMap,
    dfg: u32,
    sh: Shaders,
    proj: Seq<u32>,
    view: Seq<u32>,
) -> (Seq<Cmd>, Seq<(Seq<u32>, Seq<u32>, Seq<u32>)>, PbrMaterial, Option<RenderError>)
    decreases node, 0int,
{
    let next_v = mat_mul_of(outer_v, node.transform@);
    let head = match node.mesh {
        Some(mesh) => spec_mesh_trace(m0, mesh, s, env_ok, env, dfg, sh, proj, view, next_v),
        None => (Seq::empty(), Seq::empty(), m0, None),
    };
    if head.3 is Some {
        head
    } else {
        let tail = spec_children_trace(
            head.2,
            node.children,
            0,
            next_v,
            s,
            env_ok,
            env,
            dfg,
            sh,
            proj,
            view,
        );
        (head.0 + tail.0, head.1 + tail.1, tail.2, tail.3)
    }
}

/// The contribution of a node's children from position `i` on.
pub open spec fn spec_children_trace(
    m0: PbrMaterial,
    children: Vec<Node>,
    i: int,
    outer_v: Seq<u32>,
    s: AppSettings,
    env_ok: bool,
    env: EnvMap,
    dfg: u32,
    sh: Shaders,
    proj: Seq<u32>,
    view: Seq<u32>,
) -> (Seq<Cmd>, Seq<(Seq<u32>, Seq<u32>, Seq<u32>)>, PbrMaterial, Option<RenderError>)
    decreases children, children@.len() - i + 1,
{
    if i < 0 || i >= children@.len() {
        (Seq::empty(), Seq::empty(), m0, None)
    } else {
        let head = spec_node_trace(
            m0,
            children@[i],
            outer_v,
            s,
            env_ok,
            env,
            dfg,
            sh,
            proj,
            view,
        );
        if head.3 is Some {
            head
        } else {
            let tail = spec_children_trace(
                head.2,
                children,
                i + 1,
                outer_v,
                s,
                env_ok,
                env,
                dfg,
                sh,
                proj,
                view,
            );
            (head.0 + tail.0, head.1 + tail.1, tail.2, tail.3)
        }
    }
}

impl Renderer {
    /// Renders one node's mesh under the node's accumulated transform:
    /// re-writes the model transform, then, for every primitive, binds its
    /// textures, pushes its material factors, selects its shader variant
    /// and issues its draw.
    pub fn render_mesh(
        &mut self,
        mesh: &Mesh,
        node_transform: Mat,
        ctx: &RenderCtx,
        cmds: &mut Vec<Cmd>,
        snaps: &mut Vec<Transforms>,
    ) -> (r: Result<(), RenderError>)
        ensures
            ({
                let tr = spec_mesh_trace(
                    old(self).material,
                    *mesh,
                    ctx.app_settings,
                    spec_env_ok(*ctx),
                    spec_env(*ctx),
                    old(self).dfg_lut,
                    old(self).shaders,
                    old(self).transforms.projection@,
                    old(self).transforms.view@,
                    node_transform@,
                );
                &&& (r is Ok <==> tr.3 is None)
                &&& (r is Err ==> Some(r->Err_0) == tr.3)
                &&& final (cmds)@ == old(cmds)@ + tr.0
                &&& spec_tviews(final (snaps)@) == spec_tviews(old(snaps)@) + tr.1
                &&& final (self).material == tr.2
            }),
            final (self).shaders == old(self).shaders,
            final (self).lighting == old(self).lighting,
            final (self).pbr_settings == old(self).pbr_settings,
            final (self).cube_vao == old(self).cube_vao,
            final (self).cube_index_count == old(self).cube_index_count,
            final (self).dfg_lut == old(self).dfg_lut,
            final (self).transforms.projection == old(self).transforms.projection,
            final (self).transforms.view == old(self).transforms.view,
            final (self).transforms.model == node_transform,
    {
        let ghost m0 = self.material;
        let ghost s = ctx.app_settings;
        let ghost env_ok = spec_env_ok(*ctx);
        let ghost env = spec_env(*ctx);
        let ghost dfg = self.dfg_lut;
        let ghost sh = self.shaders;
        let ghost proj = self.transforms.projection@;
        let ghost view = self.transforms.view@;
        let ghost full = spec_prims_trace(m0, mesh.primitives@, s, env_ok, env, dfg, sh);

        self.transforms.model = node_transform;
        let ghost presnaps = snaps@;
        snaps.push(self.transforms);
        cmds.push(Cmd::UpdateTransforms);
        proof {
            lemma_tviews_push(presnaps, snaps@[snaps@.len() - 1]);
            assert(snaps@ =~= presnaps.push(snaps@[snaps@.len() - 1]));
            assert(spec_tviews(snaps@) =~= spec_tviews(old(snaps)@) + seq![
                (proj, view, node_transform@),
            ]);
        }
        let ghost base = cmds@;
        let ghost snap_t = Transforms {
            projection: old(self).transforms.projection,
            view: old(self).transforms.view,
            model: node_transform,
        };
        proof {
            assert(mesh.primitives@.skip(0) =~= mesh.primitives@);
        }

        let n = mesh.primitives.len();
        let mut i: usize = 0;
        while i < n
            invariant
                i <= n,
                n == mesh.primitives@.len(),
                self.shaders == old(self).shaders,
                self.lighting == old(self).lighting,
                self.pbr_settings == old(self).pbr_settings,
                self.cube_vao == old(self).cube_vao,
                self.cube_index_count == old(self).cube_index_count,
                self.dfg_lut == old(self).dfg_lut,
                self.transforms.projection == old(self).transforms.projection,
                self.transforms.view == old(self).transforms.view,
                self.transforms.model == node_transform,
                sh == self.shaders,
                dfg == self.dfg_lut,
                s == ctx.app_settings,
                m0 == old(self).material,
                env_ok == spec_env_ok(*ctx),
                env == spec_env(*ctx),
                full == spec_prims_trace(m0, mesh.primitives@, s, env_ok, env, dfg, sh),
                snaps@ == presnaps.push(snap_t),
                snap_t == (Transforms {
                    projection: old(self).transforms.projection,
                    view: old(self).transforms.view,
                    model: node_transform,
                }),
                presnaps == old(snaps)@,
                proj == old(self).transforms.projection@,
                view == old(self).transforms.view@,
                base + full.0 == cmds@ + spec_prims_trace(
                    self.material,
                    mesh.primitives@.skip(i as int),
                    s,
                    env_ok,
                    env,
                    dfg,
                    sh,
                ).0,
                full.1 == spec_prims_trace(
                    self.material,
                    mesh.primitives@.skip(i as int),
                    s,
                    env_ok,
                    env,
                    dfg,
                    sh,
                ).1,
                full.2 == spec_prims_trace(
                    self.material,
                    mesh.primitives@.skip(i as int),
                    s,
                    env_ok,
                    env,
                    dfg,
                    sh,
                ).2,
                base == old(cmds)@ + seq![Cmd::UpdateTransforms],
            decreases n - i,
        {
            let ghost rest = spec_prims_trace(
                self.material,
                mesh.primitives@.skip(i as int),
                s,
                env_ok,
                env,
                dfg,
                sh,
            );
            proof {
                assert(mesh.primitives@.skip(i as int)[0] == mesh.primitives@[i as int]);
                assert(mesh.primitives@.skip(i as int).drop_first() =~= mesh.primitives@.skip(
                    i as int + 1,
                ));
            }
            let prim = &mesh.primitives[i];
            let ghost mcur = self.material;
            let ghost precmds = cmds@;

            match self.bind_textures(prim, ctx, cmds) {
                Ok(u) => {},
                Err(e) => {
                    proof {
                        assert(!env_ok);
                        assert(rest.2 is Some);
                        assert(cmds@ =~= precmds + rest.0);
                        assert(cmds@ =~= old(cmds)@ + (seq![Cmd::UpdateTransforms] + full.0));
                        lemma_tviews_push(presnaps, snap_t);
                        assert(spec_tviews(snaps@) =~= spec_tviews(old(snaps)@) + seq![
                            (proj, view, node_transform@),
                        ]);
                    }
                    return Err(e);
                },
            }
            self.set_material(prim, ctx, cmds);
            let ghost head = spec_prim_trace(mcur, mesh.primitives@[i as int], s, env, dfg, sh);
            proof {
                assert(self.material == head.1);
                assert(cmds@ =~= precmds + spec_bind_cmds(
                    mesh.primitives@[i as int],
                    env,
                    dfg,
                ).push(Cmd::UpdateMaterial { material: head.1 }));
            }
            let program = match self.select_shader(prim, ctx.app_settings.material_src) {
                Ok(p) => p,
                Err(e) => {
                    proof {
                        assert(head.2 == Some(RenderError::ShaderVariantMissing));
                        assert(rest.0 =~= head.0);
                        assert(cmds@ =~= precmds + rest.0);
                        assert(cmds@ =~= old(cmds)@ + (seq![Cmd::UpdateTransforms] + full.0));
                        lemma_tviews_push(presnaps, snap_t);
                        assert(spec_tviews(snaps@) =~= spec_tviews(old(snaps)@) + seq![
                            (proj, view, node_transform@),
                        ]);
                    }
                    return Err(e);
                },
            };
            cmds.push(Cmd::UseProgram { program });
            Self::draw_mesh(prim, cmds);
            proof {
                assert(head.2 is None);
                assert(cmds@ =~= precmds + head.0);
                let newrest = spec_prims_trace(
                    self.material,
                    mesh.primitives@.skip(i as int + 1),
                    s,
                    env_ok,
                    env,
                    dfg,
                    sh,
                );
                assert(rest.0 =~= head.0 + newrest.0);
                assert(base + full.0 =~= cmds@ + newrest.0);
            }
            i = i + 1;
        }
        proof {
            assert(mesh.primitives@.skip(n as int) =~= Seq::<Primitive>::empty());
            assert(cmds@ =~= base + full.0);
            assert(cmds@ =~= old(cmds)@ + (seq![Cmd::UpdateTransforms] + full.0));
            lemma_tviews_push(presnaps, snap_t);
            assert(spec_tviews(snaps@) =~= spec_tviews(old(snaps)@) + seq![
                (proj, view, node_transform@),
            ]);
        }
        Ok(())
    }
}

} // verus!

verus! {

impl Renderer {
    /// Traverses one node depth-first pre-order: multiplies the
    /// accumulated transform by the node's local transform, renders the
    /// node's own mesh under it, then each child in order. Stops at the
    /// first failure.
    pub fn render_gltf_node(
        &mut self,
        node: &Node,
        outer_transform: Mat,
        ctx: &RenderCtx,
        cmds: &mut Vec<Cmd>,
        snaps: &mut Vec<Transforms>,
    ) -> (r: Result<(), RenderError>)
        ensures
            ({
                let tr = spec_node_trace(
                    old(self).material,
                    *node,
                    outer_transform@,
                    ctx.app_settings,
                    spec_env_ok(*ctx),
                    spec_env(*ctx),
                    old(self).dfg_lut,
                    old(self).shaders,
                    old(self).transforms.projection@,
                    old(self).transforms.view@,
                );
                &&& (r is Ok <==> tr.3 is None)
                &&& (r is Err ==> Some(r->Err_0) == tr.3)
                &&& final (cmds)@ == old(cmds)@ + tr.0
                &&& spec_tviews(final (snaps)@) == spec_tviews(old(snaps)@) + tr.1
                &&& final (self).material == tr.2
            }),
            final (self).shaders == old(self).shaders,
            final (self).lighting == old(self).lighting,
            final (self).pbr_settings == old(self).pbr_settings,
            final (self).cube_vao == old(self).cube_vao,
            final (self).cube_index_count == old(self).cube_index_count,
            final (self).dfg_lut == old(self).dfg_lut,
            final (self).transforms.projection == old(self).transforms.projection,
            final (self).transforms.view == old(self).transforms.view,
        decreases *node,
    {
        let ghost m0 = self.material;
        let ghost s = ctx.app_settings;
        let ghost env_ok = spec_env_ok(*ctx);
        let ghost env = spec_env(*ctx);
        let ghost dfg = self.dfg_lut;
        let ghost sh = self.shaders;
        let ghost proj = self.transforms.projection@;
        let ghost view = self.transforms.view@;

        let next = mat_mul(&outer_transform, &node.transform);
        let ghost next_v = mat_mul_of(outer_transform@, node.transform@);

        let ghost head = if node.mesh is Some {
            spec_mesh_trace(m0, node.mesh->Some_0, s, env_ok, env, dfg, sh, proj, view, next_v)
        } else {
            (
                Seq::<Cmd>::empty(),
                Seq::<(Seq<u32>, Seq<u32>, Seq<u32>)>::empty(),
                m0,
                None::<RenderError>,
            )
        };

        match &node.mesh {
            Some(mesh) => {
                match self.render_mesh(mesh, next, ctx, cmds, snaps) {
                    Ok(u) => {},
                    Err(e) => {
                        return Err(e);
                    },
                }
            },
            None => {},
        }

        let ghost base = cmds@;
        let ghost basetv = spec_tviews(snaps@);
        let ghost m1 = self.material;
        let ghost fullc = spec_children_trace(
            m1,
            node.children,
            0,
            next_v,
            s,
            env_ok,
            env,
            dfg,
            sh,
            proj,
            view,
        );
        proof {
            assert(base =~= old(cmds)@ + head.0);
            assert(basetv =~= spec_tviews(old(snaps)@) + head.1);
            assert(m1 == head.2);
        }

        let n = node.children.len();
        let mut i: usize = 0;
        while i < n
            invariant
                i <= n,
                n == node.children@.len(),
                self.shaders == old(self).shaders,
                self.lighting == old(self).lighting,
                self.pbr_settings == old(self).pbr_settings,
                self.cube_vao == old(self).cube_vao,
                self.cube_index_count == old(self).cube_index_count,
                self.dfg_lut == old(self).dfg_lut,
                self.transforms.projection == old(self).transforms.projection,
                self.transforms.view == old(self).transforms.view,
                sh == self.shaders,
                dfg == self.dfg_lut,
                s == ctx.app_settings,
                env_ok == spec_env_ok(*ctx),
                env == spec_env(*ctx),
                proj == old(self).transforms.projection@,
                view == old(self).transforms.view@,
                m0 == old(self).material,
                base == old(cmds)@ + head.0,
                basetv == spec_tviews(old(snaps)@) + head.1,
                head == match node.mesh {
                    Some(mesh) => spec_mesh_trace(
                        m0,
                        mesh,
                        s,
                        env_ok,
                        env,
                        dfg,
                        sh,
                        proj,
                        view,
                        next_v,
                    ),
                    None => (
                        Seq::<Cmd>::empty(),
                        Seq::<(Seq<u32>, Seq<u32>, Seq<u32>)>::empty(),
                        m0,
                        None::<RenderError>,
                    ),
                },
                head.3 is None,
                next_v == mat_mul_of(outer_transform@, node.transform@),
                next@ == next_v,
                fullc == spec_children_trace(
                    head.2,
                    node.children,
                    0,
                    next_v,
                    s,
                    env_ok,
                    env,
                    dfg,
                    sh,
                    proj,
                    view,
                ),
                base + fullc.0 == cmds@ + spec_children_trace(
                    self.material,
                    node.children,
                    i as int,
                    next_v,
                    s,
                    env_ok,
                    env,
                    dfg,
                    sh,
                    proj,
                    view,
                ).0,
                basetv + fullc.1 == spec_tviews(snaps@) + spec_children_trace(
                    self.material,
                    node.children,
                    i as int,
                    next_v,
                    s,
                    env_ok,
                    env,
                    dfg,
                    sh,
                    proj,
                    view,
                ).1,
                fullc.2 == spec_children_trace(
                    self.material,
                    node.children,
                    i as int,
                    next_v,
                    s,
                    env_ok,
                    env,
                    dfg,
                    sh,
                    proj,
                    view,
                ).2,
                fullc.3 == spec_children_trace(
                    self.material,
                    node.children,
                    i as int,
                    next_v,
                    s,
                    env_ok,
                    env,
                    dfg,
                    sh,
                    proj,
                    view,
                ).3,
            decreases n - i,
        {
            let ghost rest = spec_children_trace(
                self.material,
                node.children,
                i as int,
                next_v,
                s,
                env_ok,
                env,
                dfg,
                sh,
                proj,
                view,
            );
            let ghost h = spec_node_trace(
                self.material,
                node.children@[i as int],
                next_v,
                s,
                env_ok,
                env,
                dfg,
                sh,
                proj,
                view,
            );
            let ghost precmds = cmds@;
            let ghost pretv = spec_tviews(snaps@);

            let child = &node.children[i];
            match self.render_gltf_node(child, next, ctx, cmds, snaps) {
                Ok(u) => {},
                Err(e) => {
                    proof {
                        assert(h.3 is Some);
                        assert(rest == h);
                        assert(cmds@ =~= precmds + h.0);
                        assert(base + fullc.0 =~= cmds@);
                        assert(cmds@ =~= old(cmds)@ + (head.0 + fullc.0));
                        assert(spec_tviews(snaps@) =~= pretv + h.1);
                        assert(basetv + fullc.1 =~= spec_tviews(snaps@));
                        assert(spec_tviews(snaps@) =~= spec_tviews(old(snaps)@) + (head.1
                            + fullc.1));
                    }
                    return Err(e);
                },
            }
            proof {
                assert(h.3 is None);
                assert(cmds@ =~= precmds + h.0);
                assert(spec_tviews(snaps@) =~= pretv + h.1);
                let newrest = spec_children_trace(
                    self.material,
                    node.children,
                    i as int + 1,
                    next_v,
                    s,
                    env_ok,
                    env,
                    dfg,
                    sh,
                    proj,
                    view,
                );
                assert(rest.0 =~= h.0 + newrest.0);
                assert(rest.1 =~= h.1 + newrest.1);
                assert(base + fullc.0 =~= cmds@ + newrest.0);
                assert(basetv + fullc.1 =~= spec_tviews(snaps@) + newrest.1);
            }
            i = i + 1;
        }
        proof {
            assert(spec_children_trace(
                self.material,
                node.children,
                n as int,
                next_v,
                s,
                env_ok,
                env,
                dfg,
                sh,
                proj,
                view,
            ).0 =~= Seq::<Cmd>::empty());
            assert(cmds@ =~= base + fullc.0);
            assert(cmds@ =~= old(cmds)@ + (head.0 + fullc.0));
            assert(spec_tviews(snaps@) =~= basetv + fullc.1);
            assert(spec_tviews(snaps@) =~= spec_tviews(old(snaps)@) + (head.1 + fullc.1));
        }
        Ok(())
    }
}

} // verus!

verus! {

/// The first error a frame hits, if any: an out-of-range measured-table
/// index, then an out-of-range scene index, then the traversal's first
/// failure, then an out-of-range environment map at the background draw.
pub open spec fn spec_frame_error(r: Renderer, ctx: RenderCtx) -> Option<RenderError> {
    if !spec_brdf_ok(ctx) {
        Some(RenderError::BrdfIndexOutOfRange)
    } else if !(ctx.app_settings.selected_scene < ctx.res.scenes@.len()) {
        Some(RenderError::SceneIndexOutOfRange)
    } else {
        let scene = ctx.res.scenes@[ctx.app_settings.selected_scene as int];
        let outer = mat_mul_of(ctx.placement_mat@, scene.transform@);
        let tr = spec_node_trace(
            r.material,
            scene.root,
            outer,
            ctx.app_settings,
            spec_env_ok(ctx),
            spec_env(ctx),
            r.dfg_lut,
            r.shaders,
            ctx.projection@,
            ctx.view_mat@,
        );
        if tr.3 is Some {
            tr.3
        } else if !spec_env_ok(ctx) {
            Some(RenderError::EnvmapIndexOutOfRange)
        } else {
            None
        }
    }
}

/// The whole frame's command sequence, valid when the frame has no error:
/// state reset, uniform updates, light markers, the scene traversal, and
/// the background.
pub open spec fn spec_frame_cmds(r: Renderer, ctx: RenderCtx) -> Seq<Cmd> {
    let lc = spec_lighting_with_cam(r.lighting, ctx.cam_pos);
    let scene = ctx.res.scenes@[ctx.app_settings.selected_scene as int];
    let outer = mat_mul_of(ctx.placement_mat@, scene.transform@);
    let lights = spec_lights_trace(
        lc,
        r.shaders.light_program,
        r.cube_vao,
        r.cube_index_count,
        ctx.projection@,
        ctx.view_mat@,
        spec_light_count(lc),
    );
    let tr = spec_node_trace(
        r.material,
        scene.root,
        outer,
        ctx.app_settings,
        spec_env_ok(ctx),
        spec_env(ctx),
        r.dfg_lut,
        r.shaders,
        ctx.projection@,
        ctx.view_mat@,
    );
    seq![Cmd::ResetState { viewport: ctx.app_settings.viewport }] + spec_brdf_cmds(ctx) + seq![
        Cmd::UpdatePbrSettings { settings: ctx.app_settings.pbr_settings },
        Cmd::UpdateTransforms,
        Cmd::UpdateLighting { lighting: lc },
    ] + lights.0 + tr.0 + spec_cubemap_cmds(r, ctx)
}

/// The whole frame's transform feed, valid when the frame has no error.
pub open spec fn spec_frame_tviews(r: Renderer, ctx: RenderCtx) -> Seq<
    (Seq<u32>, Seq<u32>, Seq<u32>),
> {
    let lc = spec_lighting_with_cam(r.lighting, ctx.cam_pos);
    let scene = ctx.res.scenes@[ctx.app_settings.selected_scene as int];
    let outer = mat_mul_of(ctx.placement_mat@, scene.transform@);
    let lights = spec_lights_trace(
        lc,
        r.shaders.light_program,
        r.cube_vao,
        r.cube_index_count,
        ctx.projection@,
        ctx.view_mat@,
        spec_light_count(lc),
    );
    let tr = spec_node_trace(
        r.material,
        scene.root,
        outer,
        ctx.app_settings,
        spec_env_ok(ctx),
        spec_env(ctx),
        r.dfg_lut,
        r.shaders,
        ctx.projection@,
        ctx.view_mat@,
    );
    seq![(ctx.projection@, ctx.view_mat@, outer)] + lights.1 + tr.1
}

impl Renderer {
    /// Renders one frame: computes the exact command sequence the shell
    /// must play — state reset, uniform updates, light markers, the scene
    /// traversed depth-first with accumulated transforms, and the
    /// background — or the frame's first error, with no commands at all.
    pub fn render(&mut self, ctx: &RenderCtx) -> (r: Result<FrameOutput, RenderError>)
        ensures
            r is Ok <==> spec_frame_error(*old(self), *ctx) is None,
            r is Err ==> Some(r->Err_0) == spec_frame_error(*old(self), *ctx),
            r is Ok ==> r->Ok_0.cmds@ == spec_frame_cmds(*old(self), *ctx),
            r is Ok ==> spec_tviews(r->Ok_0.transform_feed@) == spec_frame_tviews(
                *old(self),
                *ctx,
            ),
            final (self).shaders == old(self).shaders,
            final (self).cube_vao == old(self).cube_vao,
            final (self).cube_index_count == old(self).cube_index_count,
            final (self).dfg_lut == old(self).dfg_lut,
            r is Ok ==> final (self).lighting == spec_lighting_with_cam(
                old(self).lighting,
                ctx.cam_pos,
            ) && final (self).pbr_settings == ctx.app_settings.pbr_settings
                && final (self).transforms.projection == ctx.projection,
    {
        let mut cmds: Vec<Cmd> = Vec::new();
        let mut snaps: Vec<Transforms> = Vec::new();

        self.reset_gl_state(ctx, &mut cmds);
        let ghost c1 = cmds@;

        match self.update_uniforms(ctx, &mut cmds, &mut snaps) {
            Ok(u) => {},
            Err(e) => {
                return Err(e);
            },
        }
        let ghost c2 = cmds@;
        let ghost t2 = spec_tviews(snaps@);
        let ghost lc = self.lighting;

        self.render_lights(&mut cmds, &mut snaps);
        let ghost c3 = cmds@;
        let ghost t3 = spec_tviews(snaps@);

        let selected_scene = ctx.app_settings.selected_scene;
        let scene = &ctx.res.scenes[selected_scene];
        let transform = Self::calc_model_transform(&ctx.placement_mat, &scene.transform);
        let ghost m_before = self.material;
        match self.render_gltf_node(&scene.root, transform, ctx, &mut cmds, &mut snaps) {
            Ok(u) => {},
            Err(e) => {
                return Err(e);
            },
        }
        let ghost c4 = cmds@;
        let ghost t4 = spec_tviews(snaps@);

        match self.draw_cubemap(ctx, &mut cmds) {
            Ok(u) => {},
            Err(e) => {
                return Err(e);
            },
        }

        proof {
            assert(cmds@ =~= spec_frame_cmds(*old(self), *ctx));
            assert(spec_tviews(snaps@) =~= spec_frame_tviews(*old(self), *ctx));
        }
        Ok(FrameOutput { cmds, transform_feed: snaps })
    }
}

} // verus!

verus! {

/// Transform composition is strictly multiplicative top-down: for a root
/// node with local transform R and a single child with local transform C
/// that carries the mesh, the model transform the child's mesh is rendered
/// under is (scene placement transform) x R x C.
pub proof fn lemma_child_model_transform(
    m0: PbrMaterial,
    root: Node,
    child: Node,
    placement_v: Seq<u32>,
    s: AppSettings,
    env_ok: bool,
    env: EnvMap,
    dfg: u32,
    sh: Shaders,
    proj: Seq<u32>,
    view: Seq<u32>,
)
    requires
        root.mesh is None,
        root.children@ == seq![child],
        child.mesh is Some,
        child.children@.len() == 0,
    ensures
        spec_node_trace(m0, root, placement_v, s, env_ok, env, dfg, sh, proj, view).1 == seq![
            (
                proj,
                view,
                mat_mul_of(mat_mul_of(placement_v, root.transform@), child.transform@),
            ),
        ],
{
    let root_v = mat_mul_of(placement_v, root.transform@);
    let child_v = mat_mul_of(root_v, child.transform@);
    let htr = spec_node_trace(m0, child, root_v, s, env_ok, env, dfg, sh, proj, view);
    assert(root.children@[0] == child);
    let ctr = spec_children_trace(m0, root.children, 0, root_v, s, env_ok, env, dfg, sh, proj, view);
    assert(spec_children_trace(
        htr.2,
        root.children,
        1,
        root_v,
        s,
        env_ok,
        env,
        dfg,
        sh,
        proj,
        view,
    ).1 =~= Seq::<(Seq<u32>, Seq<u32>, Seq<u32>)>::empty());
    assert(spec_children_trace(
        htr.2,
        child.children,
        0,
        child_v,
        s,
        env_ok,
        env,
        dfg,
        sh,
        proj,
        view,
    ).1 =~= Seq::<(Seq<u32>, Seq<u32>, Seq<u32>)>::empty());
    assert(htr.1 =~= seq![(proj, view, child_v)]);
    assert(ctr.1 =~= seq![(proj, view, child_v)]);
    assert(spec_node_trace(m0, root, placement_v, s, env_ok, env, dfg, sh, proj, view).1
        =~= seq![(proj, view, child_v)]);
}

/// Selecting a measured table as material source routes shader selection
/// through the data-driven cache, keyed by the table kind and the
/// primitive's supplied channels, and binds the selected table's data
/// buffer; selecting the authored document routes it through the standard
/// cache, keyed by the primitive's own feature flags, and binds no table.
pub proof fn lemma_material_source_selection(ctx: RenderCtx, p: Primitive, sh: Shaders)
    ensures
        ctx.app_settings.material_src is MerlBrdf && ctx.app_settings.selected_merl_brdf
            < ctx.res.merl_brdfs@.len() ==> spec_brdf_cmds(ctx) == seq![
            Cmd::BindBrdfBuffer {
                ssbo: ctx.res.merl_brdfs@[ctx.app_settings.selected_merl_brdf as int].ssbo,
            },
        ] && spec_selected_shader(sh, ctx.app_settings.material_src, p) == spec_cache_lookup(
            sh.data_based_shaders.entries@,
            spec_encode_data(spec_data_defines(p, BrdfType::Merl)) as u64,
        ),
        ctx.app_settings.material_src is Gltf ==> spec_brdf_cmds(ctx) == Seq::<Cmd>::empty()
            && spec_selected_shader(sh, ctx.app_settings.material_src, p) == spec_cache_lookup(
            sh.pbr_shaders.entries@,
            spec_encode_pbr(spec_pbr_defines(p)) as u64,
        ),
{
}

} // verus!
