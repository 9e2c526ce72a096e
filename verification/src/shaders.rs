//! Shader-variant selection: structural feature-flag keys derived from a
//! primitive's material, and the memoizing caches that map each key to a
//! compiled program handle.
//!
//! The caches are pure memoization: a key is looked up by value, the shell
//! compiles a missing variant once and inserts it, and an entry is never
//! evicted. Compilation itself happens in the shell; the core only decides
//! which key is needed and which handle answers it.

use vstd::prelude::*;

use crate::mesh::Primitive;

verus! {

/// The feature-flag key of the standard material model: which textures the
/// primitive supplies and which feature blocks it carries.
#[derive(Clone, Copy, PartialEq, Eq, Structural, Debug)]
pub struct PbrDefines {
    pub albedo_map: bool,
    pub mr_map: bool,
    pub normal_map: bool,
    pub occlusion_map: bool,
    pub emissive_map: bool,
    pub clearcoat: bool,
    pub anisotropy: bool,
}

/// Which measured-reflectance table family drives the data-driven model.
#[derive(Clone, Copy, PartialEq, Eq, Structural, Debug)]
pub enum BrdfType {
    Merl,
    Utia,
}

/// The feature-flag key of the data-driven material model: the table kind
/// and which texture channels the primitive supplies.
#[derive(Clone, Copy, PartialEq, Eq, Structural, Debug)]
pub struct DataDrivenDefines {
    pub brdf_type: BrdfType,
    pub albedo_map: bool,
    pub mr_map: bool,
    pub normal_map: bool,
    pub occlusion_map: bool,
    pub emissive_map: bool,
}

/// The key the standard model derives from a primitive.
pub open spec fn spec_pbr_defines(p: Primitive) -> PbrDefines {
    PbrDefines {
        albedo_map: p.pbr_material.base_color_texture is Some,
        mr_map: p.pbr_material.mr_texture is Some,
        normal_map: p.pbr_material.normal_texture is Some,
        occlusion_map: p.pbr_material.occlusion_texture is Some,
        emissive_map: p.pbr_material.emissive_texture is Some,
        clearcoat: p.clearcoat is Some,
        anisotropy: p.anisotropy is Some,
    }
}

/// The key the data-driven model derives from a primitive and a table kind.
pub open spec fn spec_data_defines(p: Primitive, b: BrdfType) -> DataDrivenDefines {
    DataDrivenDefines {
        brdf_type: b,
        albedo_map: p.pbr_material.base_color_texture is Some,
        mr_map: p.pbr_material.mr_texture is Some,
        normal_map: p.pbr_material.normal_texture is Some,
        occlusion_map: p.pbr_material.occlusion_texture is Some,
        emissive_map: p.pbr_material.emissive_texture is Some,
    }
}

/// One bit per flag, in a fixed order.
pub open spec fn spec_encode_pbr(d: PbrDefines) -> int {
    (if d.albedo_map {
        1u64
    } else {
        0u64
    }) + (if d.mr_map {
        2u64
    } else {
        0u64
    }) + (if d.normal_map {
        4u64
    } else {
        0u64
    }) + (if d.occlusion_map {
        8u64
    } else {
        0u64
    }) + (if d.emissive_map {
        16u64
    } else {
        0u64
    }) + (if d.clearcoat {
        32u64
    } else {
        0u64
    }) + (if d.anisotropy {
        64u64
    } else {
        0u64
    })
}

/// One bit per channel flag, with the table kind in the highest position.
pub open spec fn spec_encode_data(d: DataDrivenDefines) -> int {
    (if d.albedo_map {
        1u64
    } else {
        0u64
    }) + (if d.mr_map {
        2u64
    } else {
        0u64
    }) + (if d.normal_map {
        4u64
    } else {
        0u64
    }) + (if d.occlusion_map {
        8u64
    } else {
        0u64
    }) + (if d.emissive_map {
        16u64
    } else {
        0u64
    }) + (if d.brdf_type is Utia {
        32u64
    } else {
        0u64
    })
}

impl PbrDefines {
    /// Reads the key off a primitive: one flag per texture slot the
    /// material supplies, plus the presence of each feature block.
    pub fn from_prim(p: &Primitive) -> (r: PbrDefines)
        ensures
            r == spec_pbr_defines(*p),
    {
        PbrDefines {
            albedo_map: p.pbr_material.base_color_texture.is_some(),
            mr_map: p.pbr_material.mr_texture.is_some(),
            normal_map: p.pbr_material.normal_texture.is_some(),
            occlusion_map: p.pbr_material.occlusion_texture.is_some(),
            emissive_map: p.pbr_material.emissive_texture.is_some(),
            clearcoat: p.clearcoat.is_some(),
            anisotropy: p.anisotropy.is_some(),
        }
    }

    /// Encodes the key as a small integer, one bit per flag.
    pub fn encode(&self) -> (r: u64)
        ensures
            r == spec_encode_pbr(*self),
    {
        let mut r: u64 = 0;
        if self.albedo_map {
            r = r + 1;
        }
        if self.mr_map {
            r = r + 2;
        }
        if self.normal_map {
            r = r + 4;
        }
        if self.occlusion_map {
            r = r + 8;
        }
        if self.emissive_map {
            r = r + 16;
        }
        if self.clearcoat {
            r = r + 32;
        }
        if self.anisotropy {
            r = r + 64;
        }
        r
    }
}

impl DataDrivenDefines {
    /// Reads the key off a primitive for a given table kind.
    pub fn from_prim_brdf(p: &Primitive, b: BrdfType) -> (r: DataDrivenDefines)
        ensures
            r == spec_data_defines(*p, b),
    {
        DataDrivenDefines {
            brdf_type: b,
            albedo_map: p.pbr_material.base_color_texture.is_some(),
            mr_map: p.pbr_material.mr_texture.is_some(),
            normal_map: p.pbr_material.normal_texture.is_some(),
            occlusion_map: p.pbr_material.occlusion_texture.is_some(),
            emissive_map: p.pbr_material.emissive_texture.is_some(),
        }
    }

    /// Encodes the key as a small integer, one bit per flag.
    pub fn encode(&self) -> (r: u64)
        ensures
            r == spec_encode_data(*self),
    {
        let mut r: u64 = 0;
        if self.albedo_map {
            r = r + 1;
        }
        if self.mr_map {
            r = r + 2;
        }
        if self.normal_map {
            r = r + 4;
        }
        if self.occlusion_map {
            r = r + 8;
        }
        if self.emissive_map {
            r = r + 16;
        }
        match self.brdf_type {
            BrdfType::Utia => {
                r = r + 32;
            },
            BrdfType::Merl => {},
        }
        r
    }
}

/// The handle the cache answers for a key: the first entry with that key.
pub open spec fn spec_cache_lookup(entries: Seq<(u64, u32)>, k: u64) -> Option<u32>
    decreases entries.len(),
{
    if entries.len() == 0 {
        None
    } else if entries[0].0 == k {
        Some(entries[0].1)
    } else {
        spec_cache_lookup(entries.drop_first(), k)
    }
}

/// A memoizing map from an encoded feature-flag key to a compiled program
/// handle. Entries are only ever added, never changed or evicted.
pub struct ShaderCache {
    pub entries: Vec<(u64, u32)>,
}

impl ShaderCache {
    /// The empty cache: no variant compiled yet.
    pub fn new() -> (r: ShaderCache)
        ensures
            r.entries@.len() == 0,
            forall|k: u64| spec_cache_lookup(r.entries@, k) is None,
    {
        ShaderCache { entries: Vec::new() }
    }

    /// Answers the handle memoized for `k`, if one is.
    pub fn get(&self, k: u64) -> (r: Option<u32>)
        ensures
            r == spec_cache_lookup(self.entries@, k),
    {
        let n = self.entries.len();
        proof {
            assert(self.entries@.skip(0) =~= self.entries@);
        }
        let mut i: usize = 0;
        while i < n
            invariant
                i <= n,
                n == self.entries@.len(),
                spec_cache_lookup(self.entries@, k) == spec_cache_lookup(
                    self.entries@.skip(i as int),
                    k,
                ),
            decreases n - i,
        {
            let (key, program) = self.entries[i];
            proof {
                assert(self.entries@.skip(i as int)[0] == self.entries@[i as int]);
                assert(self.entries@.skip(i as int).drop_first() =~= self.entries@.skip(
                    i as int + 1,
                ));
            }
            if key == k {
                return Some(program);
            }
            i = i + 1;
        }
        proof {
            assert(self.entries@.skip(n as int) =~= Seq::<(u64, u32)>::empty());
        }
        None
    }

    /// Memoizes a handle for a key that has none yet. Every key already
    /// answered keeps its handle; the new key answers the new handle.
    pub fn insert(&mut self, k: u64, program: u32)
        requires
            spec_cache_lookup(old(self).entries@, k) is None,
        ensures
            final (self).entries@ == old(self).entries@.push((k, program)),
            spec_cache_lookup(final (self).entries@, k) == Some(program),
            forall|k2: u64|
                k2 != k ==> spec_cache_lookup(final (self).entries@, k2) == spec_cache_lookup(
                    old(self).entries@,
                    k2,
                ),
    {
        self.entries.push((k, program));
        proof {
            lemma_cache_push(old(self).entries@, k, program, k);
            assert forall|k2: u64|
                k2 != k implies spec_cache_lookup(self.entries@, k2) == spec_cache_lookup(
                old(self).entries@,
                k2,
            ) by {
                lemma_cache_push(old(self).entries@, k, program, k2);
            }
        }
    }
}

/// Memoization is stable: adding a variant at the end answers the new key
/// without disturbing what any other key answers, and a key already
/// answered keeps its handle.
pub proof fn lemma_cache_push(entries: Seq<(u64, u32)>, k: u64, program: u32, k2: u64)
    ensures
        spec_cache_lookup(entries.push((k, program)), k2) == (
        if spec_cache_lookup(entries, k2) is Some {
            spec_cache_lookup(entries, k2)
        } else if k2 == k {
            Some(program)
        } else {
            None::<u32>
        }),
    decreases entries.len(),
{
    if entries.len() == 0 {
        assert(entries.push((k, program))[0] == (k, program));
        assert(entries.push((k, program)).drop_first() =~= entries);
    } else {
        assert(entries.push((k, program))[0] == entries[0]);
        assert(entries.push((k, program)).drop_first() =~= entries.drop_first().push(
            (k, program),
        ));
        lemma_cache_push(entries.drop_first(), k, program, k2);
    }
}

/// The two shader-variant caches and the two fixed-purpose programs.
pub struct Shaders {
    /// Variants of the standard material model, keyed by encoded
    /// `PbrDefines`.
    pub pbr_shaders: ShaderCache,
    /// Variants of the data-driven material model, keyed by encoded
    /// `DataDrivenDefines`.
    pub data_based_shaders: ShaderCache,
    /// The background (environment cube) program.
    pub cubemap_program: u32,
    /// The light-marker program.
    pub light_program: u32,
}

impl Shaders {
    /// Both caches start empty; the two fixed programs are the shell's.
    pub fn new(cubemap_program: u32, light_program: u32) -> (r: Shaders)
        ensures
            r.pbr_shaders.entries@.len() == 0,
            r.data_based_shaders.entries@.len() == 0,
            r.cubemap_program == cubemap_program,
            r.light_program == light_program,
    {
        Shaders {
            pbr_shaders: ShaderCache::new(),
            data_based_shaders: ShaderCache::new(),
            cubemap_program,
            light_program,
        }
    }
}

} // verus!
