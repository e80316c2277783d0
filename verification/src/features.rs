//! Device features: the set an adapter advertises, and the test that a
//! request stays within it.

use vstd::prelude::*;

verus! {

/// Every core feature.
pub const CORE_MASK: u64 = 0xfffffffffffffff;

/// Every portability feature.
pub const PORTABILITY_MASK: u64 = 0xf000000000000000;

/// Buffer accesses of shaders are checked against the bounds.
pub const ROBUST_BUFFER_ACCESS: u64 = 0x1;

/// Indexed draws can use the full range of 32-bit indices.
pub const FULL_DRAW_INDEX_U32: u64 = 0x2;

/// Cube array image views.
pub const IMAGE_CUBE_ARRAY: u64 = 0x4;

/// Blending settings per attachment.
pub const INDEPENDENT_BLENDING: u64 = 0x8;

/// Geometry shaders.
pub const GEOMETRY_SHADER: u64 = 0x10;

/// Tessellation shaders.
pub const TESSELLATION_SHADER: u64 = 0x20;

/// Shading per sample.
pub const SAMPLE_RATE_SHADING: u64 = 0x40;

/// Blending with two sources.
pub const DUAL_SRC_BLENDING: u64 = 0x80;

/// Logic operations.
pub const LOGIC_OP: u64 = 0x100;

/// Several draws per indirect call.
pub const MULTI_DRAW_INDIRECT: u64 = 0x200;

/// Indirect draws with a first instance other than 0.
pub const DRAW_INDIRECT_FIRST_INSTANCE: u64 = 0x400;

/// Depth clamping.
pub const DEPTH_CLAMP: u64 = 0x800;

/// Clamping of the depth bias.
pub const DEPTH_BIAS_CLAMP: u64 = 0x1000;

/// Polygon modes other than fill.
pub const NON_FILL_POLYGON_MODE: u64 = 0x2000;

/// The depth bounds test.
pub const DEPTH_BOUNDS: u64 = 0x4000;

/// Lines of a width other than 1.
pub const LINE_WIDTH: u64 = 0x8000;

/// Points of a size greater than 1.
pub const POINT_SIZE: u64 = 0x10000;

/// Replacing alpha values by 1.
pub const ALPHA_TO_ONE: u64 = 0x20000;

/// Several viewports and scissors.
pub const MULTI_VIEWPORTS: u64 = 0x40000;

/// Anisotropic filtering.
pub const SAMPLER_ANISOTROPY: u64 = 0x80000;

/// ETC2 compressed formats.
pub const FORMAT_ETC2: u64 = 0x100000;

/// ASTC (LDR) compressed formats.
pub const FORMAT_ASTC_LDR: u64 = 0x200000;

/// BC compressed formats.
pub const FORMAT_BC: u64 = 0x400000;

/// Occlusion queries that count samples.
pub const PRECISE_OCCLUSION_QUERY: u64 = 0x800000;

/// Queries of pipeline statistics.
pub const PIPELINE_STATISTICS_QUERY: u64 = 0x1000000;

/// Stores and atomics in the vertex, geometry and tessellation stages.
pub const VERTEX_STORES_AND_ATOMICS: u64 = 0x2000000;

/// Stores and atomics in the fragment stage.
pub const FRAGMENT_STORES_AND_ATOMICS: u64 = 0x4000000;

/// Shader tessellation and geometry point size.
pub const SHADER_TESSELLATION_AND_GEOMETRY_POINT_SIZE: u64 = 0x8000000;

/// Shader image gather extended.
pub const SHADER_IMAGE_GATHER_EXTENDED: u64 = 0x10000000;

/// Shader storage image extended formats.
pub const SHADER_STORAGE_IMAGE_EXTENDED_FORMATS: u64 = 0x20000000;

/// Shader storage image multisample.
pub const SHADER_STORAGE_IMAGE_MULTISAMPLE: u64 = 0x40000000;

/// Shader storage image read without format.
pub const SHADER_STORAGE_IMAGE_READ_WITHOUT_FORMAT: u64 = 0x80000000;

/// Shader storage image write without format.
pub const SHADER_STORAGE_IMAGE_WRITE_WITHOUT_FORMAT: u64 = 0x100000000;

/// Shader uniform buffer array dynamic indexing.
pub const SHADER_UNIFORM_BUFFER_ARRAY_DYNAMIC_INDEXING: u64 = 0x200000000;

/// Shader sampled image array dynamic indexing.
pub const SHADER_SAMPLED_IMAGE_ARRAY_DYNAMIC_INDEXING: u64 = 0x400000000;

/// Shader storage buffer array dynamic indexing.
pub const SHADER_STORAGE_BUFFER_ARRAY_DYNAMIC_INDEXING: u64 = 0x800000000;

/// Shader storage image array dynamic indexing.
pub const SHADER_STORAGE_IMAGE_ARRAY_DYNAMIC_INDEXING: u64 = 0x1000000000;

/// Shader clip distance.
pub const SHADER_CLIP_DISTANCE: u64 = 0x2000000000;

/// Shader cull distance.
pub const SHADER_CULL_DISTANCE: u64 = 0x4000000000;

/// Shader float64.
pub const SHADER_FLOAT64: u64 = 0x8000000000;

/// Shader int64.
pub const SHADER_INT64: u64 = 0x10000000000;

/// Shader int16.
pub const SHADER_INT16: u64 = 0x20000000000;

/// Shader resource residency.
pub const SHADER_RESOURCE_RESIDENCY: u64 = 0x40000000000;

/// Shader resource min lod.
pub const SHADER_RESOURCE_MIN_LOD: u64 = 0x80000000000;

/// Sparse binding.
pub const SPARSE_BINDING: u64 = 0x100000000000;

/// Sparse residency buffer.
pub const SPARSE_RESIDENCY_BUFFER: u64 = 0x200000000000;

/// Sparse residency image 2d.
pub const SPARSE_RESIDENCY_IMAGE_2D: u64 = 0x400000000000;

/// Sparse residency image 3d.
pub const SPARSE_RESIDENCY_IMAGE_3D: u64 = 0x800000000000;

/// Sparse residency 2 samples.
pub const SPARSE_RESIDENCY_2_SAMPLES: u64 = 0x1000000000000;

/// Sparse residency 4 samples.
pub const SPARSE_RESIDENCY_4_SAMPLES: u64 = 0x2000000000000;

/// Sparse residency 8 samples.
pub const SPARSE_RESIDENCY_8_SAMPLES: u64 = 0x4000000000000;

/// Sparse residency 16 samples.
pub const SPARSE_RESIDENCY_16_SAMPLES: u64 = 0x8000000000000;

/// Sparse residency aliased.
pub const SPARSE_RESIDENCY_ALIASED: u64 = 0x10000000000000;

/// Variable multisample rate.
pub const VARIABLE_MULTISAMPLE_RATE: u64 = 0x20000000000000;

/// Inherited queries.
pub const INHERITED_QUERIES: u64 = 0x40000000000000;

/// The triangle fan topology.
pub const TRIANGLE_FAN: u64 = 0x1000000000000000;

/// Separate stencil reference values for front and back.
pub const SEPARATE_STENCIL_REF_VALUES: u64 = 0x2000000000000000;

/// Vertex attribute rates given by hand.
pub const INSTANCE_RATE: u64 = 0x4000000000000000;

/// A mipmap bias other than 0 on samplers.
pub const SAMPLER_MIP_LOD_BIAS: u64 = 0x8000000000000000;

/// A set of device features.
#[derive(Clone, Copy, Debug, PartialEq, Eq, Hash, Structural)]
pub struct Features {
    pub bits: u64,
}

/// The features every adapter advertises, whatever it reports.
pub const BASE_FEATURES: u64 = 0xC000_0000_0048_2235;

impl Features {
    /// Whether every feature of `other` is in the set.
    pub open spec fn spec_contains(&self, other: Features) -> bool {
        self.bits & other.bits == other.bits
    }

    /// The features in either set.
    pub open spec fn spec_union(&self, other: Features) -> Features {
        Features { bits: self.bits | other.bits }
    }

    /// The set without a feature.
    pub open spec fn spec_empty() -> Features {
        Features { bits: 0 }
    }

    /// The features an adapter advertises: a fixed set, and the depth bounds
    /// test where the device supports it.
    pub open spec fn spec_of_adapter(depth_bounds_test_supported: bool) -> Features {
        Features {
            bits: ROBUST_BUFFER_ACCESS | IMAGE_CUBE_ARRAY | GEOMETRY_SHADER | TESSELLATION_SHADER
                | NON_FILL_POLYGON_MODE | (if depth_bounds_test_supported {
                DEPTH_BOUNDS
            } else {
                0
            }) | MULTI_DRAW_INDIRECT | FORMAT_BC | INSTANCE_RATE | SAMPLER_MIP_LOD_BIAS
                | SAMPLER_ANISOTROPY,
        }
    }

    /// The set with exactly the given bits.
    pub fn from_bits(bits: u64) -> (set: Features)
        ensures
            set.bits == bits,
    {
        Features { bits }
    }

    /// The set without a feature.
    #[verifier::when_used_as_spec(spec_empty)]
    pub fn empty() -> (set: Features)
        ensures
            set == Self::spec_empty(),
    {
        Features { bits: 0 }
    }

    /// Whether every feature of `other` is in the set.
    #[verifier::when_used_as_spec(spec_contains)]
    pub fn contains(&self, other: Features) -> (yes: bool)
        ensures
            yes == self.spec_contains(other),
    {
        self.bits & other.bits == other.bits
    }

    /// The features in either set.
    #[verifier::when_used_as_spec(spec_union)]
    pub fn union(&self, other: Features) -> (set: Features)
        ensures
            set == self.spec_union(other),
    {
        Features { bits: self.bits | other.bits }
    }

    /// The features an adapter advertises. `depth_bounds_test_supported`
    /// is what the device answered to the optional probe, `false` where the
    /// probe failed.
    #[verifier::when_used_as_spec(spec_of_adapter)]
    pub fn of_adapter(depth_bounds_test_supported: bool) -> (set: Features)
        ensures
            set == Self::spec_of_adapter(depth_bounds_test_supported),
            set.bits == BASE_FEATURES | (if depth_bounds_test_supported {
                DEPTH_BOUNDS
            } else {
                0
            }),
    {
        let depth_bounds: u64 = if depth_bounds_test_supported {
            DEPTH_BOUNDS
        } else {
            0
        };
        let bits: u64 = ROBUST_BUFFER_ACCESS | IMAGE_CUBE_ARRAY | GEOMETRY_SHADER
            | TESSELLATION_SHADER | NON_FILL_POLYGON_MODE | depth_bounds | MULTI_DRAW_INDIRECT
            | FORMAT_BC | INSTANCE_RATE | SAMPLER_MIP_LOD_BIAS | SAMPLER_ANISOTROPY;
        proof {
            lemma_adapter_feature_bits(depth_bounds_test_supported);
        }
        Features { bits }
    }
}

/// The advertised set as a number: the fixed set, with the bit of the depth
/// bounds test where that is supported.
pub proof fn lemma_adapter_feature_bits(depth_bounds_test_supported: bool)
    ensures
        Features::spec_of_adapter(depth_bounds_test_supported).bits == BASE_FEATURES | (
        if depth_bounds_test_supported {
            DEPTH_BOUNDS
        } else {
            0
        }),
        Features::spec_of_adapter(false).bits == 0xC000_0000_0048_2235,
        Features::spec_of_adapter(true).bits == 0xC000_0000_0048_6235,
{
    let d: u64 = if depth_bounds_test_supported {
        DEPTH_BOUNDS
    } else {
        0
    };
    assert(0x1u64 | 0x4u64 | 0x10u64 | 0x20u64 | 0x2000u64 | d | 0x200u64 | 0x40_0000u64
        | 0x4000_0000_0000_0000u64 | 0x8000_0000_0000_0000u64 | 0x8_0000u64
        == 0xC000_0000_0048_2235u64 | d) by (bit_vector);
    assert(0x1u64 | 0x4u64 | 0x10u64 | 0x20u64 | 0x2000u64 | 0u64 | 0x200u64 | 0x40_0000u64
        | 0x4000_0000_0000_0000u64 | 0x8000_0000_0000_0000u64 | 0x8_0000u64
        == 0xC000_0000_0048_2235u64) by (bit_vector);
    assert(0x1u64 | 0x4u64 | 0x10u64 | 0x20u64 | 0x2000u64 | 0x4000u64 | 0x200u64 | 0x40_0000u64
        | 0x4000_0000_0000_0000u64 | 0x8000_0000_0000_0000u64 | 0x8_0000u64
        == 0xC000_0000_0048_6235u64) by (bit_vector);
}

/// A request for nothing is within every set, every set is within itself,
/// and a request within the advertised set without the depth bounds test is
/// within the advertised set with it.
pub proof fn lemma_contains(set: Features, request: Features)
    ensures
        set.spec_contains(Features::spec_empty()),
        set.spec_contains(set),
        Features::spec_of_adapter(false).spec_contains(request) ==> Features::spec_of_adapter(
            true,
        ).spec_contains(request),
        Features::spec_of_adapter(true).spec_contains(Features { bits: DEPTH_BOUNDS }),
        !Features::spec_of_adapter(false).spec_contains(Features { bits: DEPTH_BOUNDS }),
{
    lemma_adapter_feature_bits(true);
    let a = set.bits;
    let r = request.bits;
    assert(a & 0u64 == 0u64 && a & a == a) by (bit_vector);
    assert(0xC000_0000_0048_2235u64 & r == r ==> 0xC000_0000_0048_6235u64 & r == r)
        by (bit_vector);
    assert(0xC000_0000_0048_6235u64 & 0x4000u64 == 0x4000u64 && 0xC000_0000_0048_2235u64
        & 0x4000u64 != 0x4000u64) by (bit_vector);
}

} // verus!
