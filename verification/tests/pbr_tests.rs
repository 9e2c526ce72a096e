use pbr::doc::{Float2, Float3, Float4, ImageDoc, ImageFormatDoc, IndexStream, MagFilterDoc,
    MaterialDoc, MeshDoc, MinFilterDoc, PrimitiveDoc, SamplerDoc, TextureDoc, Topology, WrapDoc};
use pbr::error::{IngestError, RenderError};
use pbr::glconst;
use pbr::mat::{identity_mat, mat_mul, translation_mat, uniform_scale_mat, Mat, TENTH_F32_BITS};
use pbr::material::{Anisotropy, StdPbrMaterial};
use pbr::mesh::{build_vertices, needs_tangents, widen_indices, GpuHandles, Mesh, Primitive};
use pbr::renderer::{AppSettings, BrdfTable, Cmd, EnvMap, Lighting, MaterialSrc, Node,
    PbrMaterial, PbrSettings, RenderCtx, Renderer, RendererGpu, Resources, Scene, Transforms};
use pbr::shaders::{BrdfType, DataDrivenDefines, PbrDefines, ShaderCache};
use pbr::texture::{create_texture, sampler_params, texture_plan, DataBundle};
use pbr::Viewport;

fn default_sampler() -> SamplerDoc {
    SamplerDoc {
        min_filter: None,
        mag_filter: None,
        wrap_s: WrapDoc::Repeat,
        wrap_t: WrapDoc::Repeat,
    }
}

fn plain_material() -> MaterialDoc {
    MaterialDoc {
        base_color_factor: Float4 { x: 0, y: 0, z: 0, w: 0 },
        metallic_factor: 0,
        roughness_factor: 0,
        emissive_factor: Float3 { x: 0, y: 0, z: 0 },
        normal_scale: 0,
        occlusion_strength: 0,
        base_color_texture: None,
        mr_texture: None,
        normal_texture: None,
        occlusion_texture: None,
        emissive_texture: None,
        clearcoat: None,
    }
}

fn f3(x: f32, y: f32, z: f32) -> Float3 {
    Float3 { x: x.to_bits(), y: y.to_bits(), z: z.to_bits() }
}

fn triangle_doc() -> PrimitiveDoc {
    PrimitiveDoc {
        topology: Topology::Triangles,
        positions: Some(vec![f3(0.0, 0.0, 0.0), f3(1.0, 0.0, 0.0), f3(0.0, 1.0, 0.0)]),
        normals: Some(vec![f3(0.0, 0.0, 1.0), f3(0.0, 0.0, 1.0), f3(0.0, 0.0, 1.0)]),
        texcoords: None,
        extra_texcoord_sets: 0,
        tangents: None,
        indices: Some(IndexStream::U16(vec![0, 1, 2])),
        material: plain_material(),
    }
}

fn empty_bundle() -> DataBundle {
    DataBundle::new(Vec::new(), Vec::new())
}

fn gpu() -> GpuHandles {
    GpuHandles { vao: 7, vertex_buffer: 8, index_buffer: 9 }
}

fn mat_bits(m: glam::Mat4) -> Mat {
    let cols = m.to_cols_array();
    let mut out = [0u32; 16];
    for i in 0..16 {
        out[i] = cols[i].to_bits();
    }
    out
}

// Ingested vertex count equals the position-stream length; ingested index
// count equals the source index count after width normalization.
#[test]
fn ingest_counts_match_streams() {
    let mut bundle = empty_bundle();
    let prim = Primitive::from_gltf(&triangle_doc(), gpu(), &mut bundle).unwrap();
    assert_eq!(prim.vertices.len(), 3);
    assert_eq!(prim.indices, vec![0u32, 1, 2]);
    assert_eq!(prim.num_indices, 3);
    assert_eq!(prim.indices_type, glconst::GL_UNSIGNED_INT);
    assert_eq!(prim.vao, 7);
    // Defaults for the absent streams.
    assert_eq!(prim.vertices[0].texcoords, Float2 { x: 0, y: 0 });
    assert_eq!(prim.vertices[0].tangent, Float4 { x: 0, y: 0, z: 0, w: 0 });
    assert_eq!(prim.vertices[1].pos, f3(1.0, 0.0, 0.0));
    assert_eq!(prim.vertices[2].normal, f3(0.0, 0.0, 1.0));
}

// A normal stream whose length differs from the position stream fails
// ingestion with the attribute-length-mismatch error.
#[test]
fn normal_length_mismatch_fails() {
    let mut doc = triangle_doc();
    doc.normals = Some(vec![f3(0.0, 0.0, 1.0), f3(0.0, 0.0, 1.0)]);
    let mut bundle = empty_bundle();
    let r = Primitive::from_gltf(&doc, gpu(), &mut bundle);
    assert_eq!(r.err().unwrap(), IngestError::AttributeLengthMismatch);

    // The longer direction is a mismatch all the same.
    let mut doc2 = triangle_doc();
    doc2.normals.as_mut().unwrap().push(f3(0.0, 0.0, 1.0));
    doc2.normals.as_mut().unwrap().push(f3(0.0, 0.0, 1.0));
    let r2 = build_vertices(&doc2);
    assert_eq!(r2.err().unwrap(), IngestError::AttributeLengthMismatch);
}

// A primitive with non-triangle topology fails ingestion with the
// unsupported-topology error.
#[test]
fn non_triangle_topology_fails() {
    let mut doc = triangle_doc();
    doc.topology = Topology::LineStrip;
    let mut bundle = empty_bundle();
    let r = Primitive::from_gltf(&doc, gpu(), &mut bundle);
    assert_eq!(r.err().unwrap(), IngestError::UnsupportedTopology);
}

#[test]
fn missing_streams_fail() {
    let mut bundle = empty_bundle();
    let mut doc = triangle_doc();
    doc.positions = None;
    assert_eq!(
        Primitive::from_gltf(&doc, gpu(), &mut bundle).err().unwrap(),
        IngestError::MissingPositions
    );
    let mut doc = triangle_doc();
    doc.normals = None;
    assert_eq!(
        Primitive::from_gltf(&doc, gpu(), &mut bundle).err().unwrap(),
        IngestError::MissingNormals
    );
    let mut doc = triangle_doc();
    doc.indices = None;
    assert_eq!(
        Primitive::from_gltf(&doc, gpu(), &mut bundle).err().unwrap(),
        IngestError::MissingIndices
    );
}

#[test]
fn widen_indices_preserves_values() {
    assert_eq!(widen_indices(&IndexStream::U8(vec![3, 250, 0])), vec![3u32, 250, 0]);
    assert_eq!(widen_indices(&IndexStream::U16(vec![65535, 2])), vec![65535u32, 2]);
    assert_eq!(widen_indices(&IndexStream::U32(vec![70000, 1])), vec![70000u32, 1]);
}

// Two texture references sharing a source-image index resolve to the same
// texture instance; a different image index resolves to a distinct one.
// Only the first reference records an upload.
#[test]
fn texture_dedup_same_index_distinct_otherwise() {
    let img = ImageDoc { width: 64, height: 64, format: ImageFormatDoc::R8G8B8A8 };
    let mut bundle = DataBundle::new(vec![img, img], vec![100, 200]);
    let t0 = TextureDoc { image_index: 0, sampler: default_sampler() };
    let t0b = TextureDoc { image_index: 0, sampler: default_sampler() };
    let t1 = TextureDoc { image_index: 1, sampler: default_sampler() };

    let a = create_texture(&mut bundle, &t0).unwrap();
    let b = create_texture(&mut bundle, &t0b).unwrap();
    let c = create_texture(&mut bundle, &t1).unwrap();
    assert_eq!(a, b);
    assert_eq!(a.id, 100);
    assert_ne!(a.id, c.id);
    assert_eq!(c.id, 200);
    assert_eq!(bundle.uploads.len(), 2);
    assert_eq!(bundle.uploads[0].image_index, 0);
    assert_eq!(bundle.uploads[1].image_index, 1);
}

// A non-power-of-two image fails deterministically with the dimension
// error; it is never rescaled into acceptance.
#[test]
fn non_power_of_two_texture_fails() {
    let img = ImageDoc { width: 100, height: 64, format: ImageFormatDoc::R8G8B8A8 };
    assert_eq!(texture_plan(&img).err().unwrap(), IngestError::NonPowerOfTwoTexture);
    let img2 = ImageDoc { width: 64, height: 63, format: ImageFormatDoc::R8 };
    assert_eq!(texture_plan(&img2).err().unwrap(), IngestError::NonPowerOfTwoTexture);

    // Through a material reference as well.
    let mut bundle = DataBundle::new(vec![img], vec![5]);
    let r = create_texture(
        &mut bundle,
        &TextureDoc { image_index: 0, sampler: default_sampler() },
    );
    assert_eq!(r.err().unwrap(), IngestError::NonPowerOfTwoTexture);
    assert_eq!(bundle.uploads.len(), 0);
}

#[test]
fn texture_plan_formats_and_mips() {
    let img = ImageDoc { width: 256, height: 128, format: ImageFormatDoc::R8G8B8A8 };
    let plan = texture_plan(&img).unwrap();
    assert_eq!(plan.internal_format, glconst::GL_RGBA8);
    assert_eq!(plan.format, glconst::GL_RGBA);
    assert_eq!(plan.levels, 9);
    assert_eq!(plan.width, 256);
    assert_eq!(plan.height, 128);

    let img = ImageDoc { width: 1, height: 1, format: ImageFormatDoc::R8 };
    let plan = texture_plan(&img).unwrap();
    assert_eq!(plan.internal_format, glconst::GL_R8);
    assert_eq!(plan.format, glconst::GL_RED);
    assert_eq!(plan.levels, 1);

    let img = ImageDoc { width: 8, height: 8, format: ImageFormatDoc::Unsupported };
    assert_eq!(texture_plan(&img).err().unwrap(), IngestError::UnsupportedImageFormat);
}

#[test]
fn sampler_translation_defaults_and_values() {
    let s = sampler_params(&default_sampler());
    assert_eq!(s.min_filter, glconst::GL_LINEAR_MIPMAP_LINEAR);
    assert_eq!(s.mag_filter, glconst::GL_LINEAR);
    assert_eq!(s.wrap_s, glconst::GL_REPEAT);
    assert_eq!(s.wrap_t, glconst::GL_REPEAT);

    let s = sampler_params(&SamplerDoc {
        min_filter: Some(MinFilterDoc::NearestMipmapLinear),
        mag_filter: Some(MagFilterDoc::Nearest),
        wrap_s: WrapDoc::ClampToEdge,
        wrap_t: WrapDoc::MirroredRepeat,
    });
    assert_eq!(s.min_filter, glconst::GL_NEAREST_MIPMAP_LINEAR);
    assert_eq!(s.mag_filter, glconst::GL_NEAREST);
    assert_eq!(s.wrap_s, glconst::GL_CLAMP_TO_EDGE);
    assert_eq!(s.wrap_t, glconst::GL_MIRRORED_REPEAT);
}

// The anisotropy placeholder block is always attached, so a primitive
// without authored tangents always asks for synthesis (the conservative
// trigger), and installing tangents overwrites only the tangent fields.
#[test]
fn tangent_decision_and_install() {
    let mat = StdPbrMaterial {
        base_color_factor: Float4 { x: 0, y: 0, z: 0, w: 0 },
        metallic_factor: 0,
        roughness_factor: 0,
        emissive_factor: Float3 { x: 0, y: 0, z: 0 },
        normal_scale: 0,
        occlusion_strength: 0,
        base_color_texture: None,
        mr_texture: None,
        normal_texture: None,
        occlusion_texture: None,
        emissive_texture: None,
    };
    assert!(!needs_tangents(&mat, &None, &None));
    assert!(needs_tangents(&mat, &None, &Some(Anisotropy::new())));

    let mut bundle = empty_bundle();
    let mut prim = Primitive::from_gltf(&triangle_doc(), gpu(), &mut bundle).unwrap();
    assert!(prim.needs_tangent_synthesis);

    let one = 1.0f32.to_bits();
    let t = Float4 { x: one, y: 0, z: 0, w: one };
    prim.install_tangents(&vec![t, t, t]);
    assert!(!prim.needs_tangent_synthesis);
    assert_eq!(prim.vertices[1].tangent, t);
    assert_eq!(prim.vertices[1].pos, f3(1.0, 0.0, 0.0));

    // An authored tangent stream suppresses synthesis.
    let mut doc = triangle_doc();
    doc.tangents = Some(vec![t, t, t]);
    let prim2 = Primitive::from_gltf(&doc, gpu(), &mut bundle).unwrap();
    assert!(!prim2.needs_tangent_synthesis);
    assert_eq!(prim2.vertices[0].tangent, t);
}

#[test]
fn mesh_ingest_collects_primitives() {
    let doc = MeshDoc {
        primitives: vec![triangle_doc(), triangle_doc()],
        name: Some(String::from("two")),
    };
    let gpus = vec![gpu(), GpuHandles { vao: 17, vertex_buffer: 18, index_buffer: 19 }];
    let mut bundle = empty_bundle();
    let mesh = Mesh::from_gltf(doc, &gpus, &mut bundle).unwrap();
    assert_eq!(mesh.primitives.len(), 2);
    assert_eq!(mesh.primitives[1].vao, 17);
    assert_eq!(mesh.name.as_deref(), Some("two"));
}

#[test]
fn shader_cache_memoizes() {
    let mut cache = ShaderCache::new();
    let d = PbrDefines {
        albedo_map: true,
        mr_map: false,
        normal_map: true,
        occlusion_map: false,
        emissive_map: false,
        clearcoat: false,
        anisotropy: true,
    };
    assert_eq!(d.encode(), 1 + 4 + 64);
    assert_eq!(cache.get(d.encode()), None);
    cache.insert(d.encode(), 42);
    assert_eq!(cache.get(d.encode()), Some(42));
    // Another key is untouched.
    assert_eq!(cache.get(0), None);
    cache.insert(0, 7);
    assert_eq!(cache.get(d.encode()), Some(42));
    assert_eq!(cache.get(0), Some(7));

    let dd = DataDrivenDefines {
        brdf_type: BrdfType::Utia,
        albedo_map: false,
        mr_map: true,
        normal_map: false,
        occlusion_map: false,
        emissive_map: false,
    };
    assert_eq!(dd.encode(), 2 + 32);
    let merl = DataDrivenDefines { brdf_type: BrdfType::Merl, ..dd };
    assert_eq!(merl.encode(), 2);
}

// The trusted matrix product must agree with the linear-algebra crate's
// own product; handing back either operand would fail this.
#[test]
fn mat_wrappers_match_glam() {
    let a = glam::Mat4::from_translation(glam::Vec3::new(1.0, 2.0, 3.0));
    let b = glam::Mat4::from_scale(glam::Vec3::new(2.0, 2.0, 2.0));
    let ab = mat_mul(&mat_bits(a), &mat_bits(b));
    assert_eq!(ab, mat_bits(a.mul_mat4(&b)));
    assert_ne!(ab, mat_bits(a));
    assert_ne!(ab, mat_bits(b));

    assert_eq!(translation_mat(1.0f32.to_bits(), 2.0f32.to_bits(), 3.0f32.to_bits()), mat_bits(a));
    assert_eq!(
        uniform_scale_mat(0.1f32.to_bits()),
        mat_bits(glam::Mat4::from_scale(glam::Vec3::splat(0.1)))
    );
    assert_eq!(TENTH_F32_BITS, 0.1f32.to_bits());
    assert_eq!(identity_mat(), mat_bits(glam::Mat4::IDENTITY));
}

fn bare_prim() -> Primitive {
    let mut bundle = empty_bundle();
    Primitive::from_gltf(&triangle_doc(), gpu(), &mut bundle).unwrap()
}

fn settings() -> AppSettings {
    AppSettings {
        selected_scene: 0,
        selected_envmap: 0,
        selected_merl_brdf: 0,
        selected_utia_brdf: 0,
        material_src: MaterialSrc::Gltf,
        pbr_material_override: PbrMaterial::new(),
        pbr_settings: PbrSettings::new(),
        viewport: Viewport { min_x: 0, min_y: 0, width: 800, height: 600 },
        blur_background: false,
    }
}

fn one_node_ctx(root: Node, scene_transform: Mat) -> RenderCtx {
    RenderCtx {
        app_settings: settings(),
        res: Resources {
            scenes: vec![Scene { root, transform: scene_transform }],
            envmaps: vec![EnvMap { cubemap_tex: 30, irradiance_tex: 31, prefilter_tex: 32 }],
            merl_brdfs: vec![BrdfTable { ssbo: 40 }],
            utia_brdfs: vec![BrdfTable { ssbo: 41 }],
        },
        view_mat: identity_mat(),
        cam_pos: f3(0.0, 0.0, 5.0),
        projection: identity_mat(),
        placement_mat: identity_mat(),
    }
}

fn renderer() -> Renderer {
    Renderer::new(RendererGpu {
        cube_vao: 50,
        cube_index_count: 36,
        dfg_lut: 51,
        cubemap_program: 60,
        light_program: 61,
    })
}

// The model transform used to render a child's mesh is the scene placement
// transform times the root's local transform times the child's local
// transform.
#[test]
fn child_model_transform_composes() {
    let placement = glam::Mat4::from_scale(glam::Vec3::splat(2.0));
    let scene_t = glam::Mat4::from_translation(glam::Vec3::new(0.0, 1.0, 0.0));
    let root_t = glam::Mat4::from_rotation_y(0.5);
    let child_t = glam::Mat4::from_translation(glam::Vec3::new(3.0, 0.0, 0.0));

    let child = Node {
        transform: mat_bits(child_t),
        mesh: Some(Mesh { primitives: vec![bare_prim()], name: None }),
        children: Vec::new(),
    };
    let root = Node { transform: mat_bits(root_t), mesh: None, children: vec![child] };
    let mut ctx = one_node_ctx(root, mat_bits(scene_t));
    ctx.placement_mat = mat_bits(placement);

    let mut r = renderer();
    // Compile the one variant the primitive needs (no textures, clearcoat
    // absent, anisotropy block present).
    let d = PbrDefines {
        albedo_map: false,
        mr_map: false,
        normal_map: false,
        occlusion_map: false,
        emissive_map: false,
        clearcoat: false,
        anisotropy: true,
    };
    r.shaders.pbr_shaders.insert(d.encode(), 99);

    let out = r.render(&ctx).unwrap();
    // Feed: scene-level model, then the child's mesh.
    assert_eq!(out.transform_feed.len(), 2);
    let outer = placement.mul_mat4(&scene_t);
    assert_eq!(out.transform_feed[0].model, mat_bits(outer));
    let expected = outer.mul_mat4(&root_t).mul_mat4(&child_t);
    assert_eq!(out.transform_feed[1].model, mat_bits(expected));
    assert!(out.cmds.contains(&Cmd::UseProgram { program: 99 }));
    assert!(out.cmds.contains(&Cmd::DrawIndexed {
        vao: 7,
        count: 3,
        index_type: glconst::GL_UNSIGNED_INT,
    }));
}

// Selecting a measured table routes shader selection through the
// data-driven cache and binds the table's buffer; the authored source uses
// the standard cache and binds none.
#[test]
fn material_source_selects_cache_and_buffer() {
    let root = Node {
        transform: identity_mat(),
        mesh: Some(Mesh { primitives: vec![bare_prim()], name: None }),
        children: Vec::new(),
    };
    let mut ctx = one_node_ctx(root, identity_mat());
    ctx.app_settings.material_src = MaterialSrc::MerlBrdf;

    let mut r = renderer();
    let dd = DataDrivenDefines {
        brdf_type: BrdfType::Merl,
        albedo_map: false,
        mr_map: false,
        normal_map: false,
        occlusion_map: false,
        emissive_map: false,
    };
    r.shaders.data_based_shaders.insert(dd.encode(), 77);

    let out = r.render(&ctx).unwrap();
    assert!(out.cmds.contains(&Cmd::BindBrdfBuffer { ssbo: 40 }));
    assert!(out.cmds.contains(&Cmd::UseProgram { program: 77 }));

    // With the authored source the same scene needs the standard variant.
    let root2 = Node {
        transform: identity_mat(),
        mesh: Some(Mesh { primitives: vec![bare_prim()], name: None }),
        children: Vec::new(),
    };
    let ctx2 = one_node_ctx(root2, identity_mat());
    let mut r2 = renderer();
    assert_eq!(r2.render(&ctx2).err().unwrap(), RenderError::ShaderVariantMissing);
    let d = PbrDefines {
        albedo_map: false,
        mr_map: false,
        normal_map: false,
        occlusion_map: false,
        emissive_map: false,
        clearcoat: false,
        anisotropy: true,
    };
    r2.shaders.pbr_shaders.insert(d.encode(), 88);
    let out2 = r2.render(&ctx2).unwrap();
    assert!(out2.cmds.contains(&Cmd::UseProgram { program: 88 }));
    assert!(!out2.cmds.iter().any(|c| matches!(c, Cmd::BindBrdfBuffer { .. })));
}

#[test]
fn selection_index_errors() {
    let root = Node { transform: identity_mat(), mesh: None, children: Vec::new() };
    let mut ctx = one_node_ctx(root, identity_mat());
    ctx.app_settings.selected_scene = 5;
    let mut r = renderer();
    assert_eq!(r.render(&ctx).err().unwrap(), RenderError::SceneIndexOutOfRange);

    let root = Node { transform: identity_mat(), mesh: None, children: Vec::new() };
    let mut ctx = one_node_ctx(root, identity_mat());
    ctx.app_settings.selected_envmap = 3;
    let mut r = renderer();
    assert_eq!(r.render(&ctx).err().unwrap(), RenderError::EnvmapIndexOutOfRange);

    let root = Node { transform: identity_mat(), mesh: None, children: Vec::new() };
    let mut ctx = one_node_ctx(root, identity_mat());
    ctx.app_settings.material_src = MaterialSrc::UtiaBrdf;
    ctx.app_settings.selected_utia_brdf = 9;
    let mut r = renderer();
    assert_eq!(r.render(&ctx).err().unwrap(), RenderError::BrdfIndexOutOfRange);
}

// A frame on an empty scene: reset, settings, transforms, lighting and the
// background, in order.
#[test]
fn empty_scene_frame_shape() {
    let root = Node { transform: identity_mat(), mesh: None, children: Vec::new() };
    let ctx = one_node_ctx(root, identity_mat());
    let mut r = renderer();
    let out = r.render(&ctx).unwrap();
    assert_eq!(out.cmds.len(), 7);
    assert!(matches!(out.cmds[0], Cmd::ResetState { .. }));
    assert!(matches!(out.cmds[1], Cmd::UpdatePbrSettings { .. }));
    assert_eq!(out.cmds[2], Cmd::UpdateTransforms);
    assert!(matches!(out.cmds[3], Cmd::UpdateLighting { .. }));
    assert_eq!(out.cmds[4], Cmd::UseProgram { program: 60 });
    assert_eq!(out.cmds[5], Cmd::BindTextureUnit { unit: 0, texture: 30 });
    assert!(matches!(out.cmds[6], Cmd::DrawIndexed { vao: 50, count: 36, .. }));
    assert_eq!(out.transform_feed.len(), 1);

    // The blur toggle selects the irradiance variant instead.
    let root = Node { transform: identity_mat(), mesh: None, children: Vec::new() };
    let mut ctx = one_node_ctx(root, identity_mat());
    ctx.app_settings.blur_background = true;
    let mut r = renderer();
    let out = r.render(&ctx).unwrap();
    assert_eq!(out.cmds[5], Cmd::BindTextureUnit { unit: 0, texture: 31 });
}

// Light markers: one small scaled cube per active light, in the light's
// color, under the light program.
#[test]
fn light_markers_draw_per_light() {
    let root = Node { transform: identity_mat(), mesh: None, children: Vec::new() };
    let ctx = one_node_ctx(root, identity_mat());
    let mut r = renderer();
    r.lighting.lights = 2;
    let p0 = Float4 { x: 1.0f32.to_bits(), y: 0, z: 0, w: 0 };
    let c0 = Float4 { x: 1.0f32.to_bits(), y: 1.0f32.to_bits(), z: 0, w: 0 };
    r.lighting.light_pos[0] = p0;
    r.lighting.light_color[0] = c0;

    let out = r.render(&ctx).unwrap();
    let programs: Vec<&Cmd> =
        out.cmds.iter().filter(|c| matches!(c, Cmd::UseProgram { program: 61 })).collect();
    assert_eq!(programs.len(), 2);
    assert!(out.cmds.contains(&Cmd::SetLightColor { program: 61, color: c0 }));
    // Marker transform: translation to the light, scaled down.
    let expected = glam::Mat4::from_translation(glam::Vec3::new(1.0, 0.0, 0.0))
        .mul_mat4(&glam::Mat4::from_scale(glam::Vec3::splat(0.1)));
    assert_eq!(out.transform_feed[1].model, mat_bits(expected));
    assert_eq!(out.transform_feed.len(), 3);
}

// The material channel honors the configured source: authored factors for
// the document source, the override verbatim for the override source.
#[test]
fn material_channel_follows_source() {
    let mut bundle = empty_bundle();
    let mut doc = triangle_doc();
    doc.material.metallic_factor = 0.25f32.to_bits();
    let prim = Primitive::from_gltf(&doc, gpu(), &mut bundle).unwrap();
    let root = Node {
        transform: identity_mat(),
        mesh: Some(Mesh { primitives: vec![prim], name: None }),
        children: Vec::new(),
    };
    let ctx = one_node_ctx(root, identity_mat());
    let mut r = renderer();
    let d = PbrDefines {
        albedo_map: false,
        mr_map: false,
        normal_map: false,
        occlusion_map: false,
        emissive_map: false,
        clearcoat: false,
        anisotropy: true,
    };
    r.shaders.pbr_shaders.insert(d.encode(), 99);
    let out = r.render(&ctx).unwrap();
    let mat = out
        .cmds
        .iter()
        .find_map(|c| match c {
            Cmd::UpdateMaterial { material } => Some(*material),
            _ => None,
        })
        .unwrap();
    assert_eq!(mat.metallic_factor, 0.25f32.to_bits());
    // The anisotropy placeholder block carries zero strength.
    assert_eq!(mat.anisotropy, 0);
}

#[test]
fn vertex_layout_describes_record() {
    let l = pbr::mesh::vertex_layout();
    assert_eq!(
        (l.pos_components, l.normal_components, l.texcoord_components, l.tangent_components),
        (3, 3, 2, 4)
    );
    assert_eq!(
        (l.pos_offset, l.normal_offset, l.texcoord_offset, l.tangent_offset),
        (0, 12, 24, 32)
    );
    assert_eq!(l.stride, 48);
}

// A textured primitive materializes its image through the registry, the
// resolved handle lands in the material, and the shader key reflects the
// supplied channel.
#[test]
fn textured_primitive_resolves_and_flags() {
    let img = ImageDoc { width: 32, height: 32, format: ImageFormatDoc::R8G8B8 };
    let mut bundle = DataBundle::new(vec![img], vec![123]);
    let mut doc = triangle_doc();
    doc.material.base_color_texture =
        Some(TextureDoc { image_index: 0, sampler: default_sampler() });
    let prim = Primitive::from_gltf(&doc, gpu(), &mut bundle).unwrap();
    assert_eq!(prim.pbr_material.base_color_texture.unwrap().id, 123);
    assert_eq!(bundle.uploads.len(), 1);
    assert_eq!(bundle.uploads[0].plan.internal_format, glconst::GL_RGB8);

    let d = PbrDefines::from_prim(&prim);
    assert!(d.albedo_map);
    assert!(!d.mr_map);
    assert!(d.anisotropy);

    // A shorter texture-coordinate stream defaults its tail.
    let mut doc2 = triangle_doc();
    doc2.texcoords = Some(vec![Float2 { x: 1.0f32.to_bits(), y: 0 }]);
    let mut b2 = empty_bundle();
    let prim2 = Primitive::from_gltf(&doc2, gpu(), &mut b2).unwrap();
    assert_eq!(prim2.vertices[0].texcoords, Float2 { x: 1.0f32.to_bits(), y: 0 });
    assert_eq!(prim2.vertices[2].texcoords, Float2 { x: 0, y: 0 });
}

// Texture sharing across primitives of one mesh: one upload, one instance.
#[test]
fn mesh_shares_textures_across_primitives() {
    let img = ImageDoc { width: 16, height: 16, format: ImageFormatDoc::R8 };
    let mut bundle = DataBundle::new(vec![img], vec![55]);
    let mut d1 = triangle_doc();
    d1.material.base_color_texture = Some(TextureDoc { image_index: 0, sampler: default_sampler() });
    let mut d2 = triangle_doc();
    d2.material.emissive_texture = Some(TextureDoc { image_index: 0, sampler: default_sampler() });
    let doc = MeshDoc { primitives: vec![d1, d2], name: None };
    let gpus = vec![gpu(), gpu()];
    let mesh = Mesh::from_gltf(doc, &gpus, &mut bundle).unwrap();
    let a = mesh.primitives[0].pbr_material.base_color_texture.unwrap();
    let b = mesh.primitives[1].pbr_material.emissive_texture.unwrap();
    assert_eq!(a, b);
    assert_eq!(a.id, 55);
    assert_eq!(bundle.uploads.len(), 1);
}
