//! The resource limits an adapter reports. The native API fixes them for
//! every device of the supported feature level, so they are constants.

use vstd::prelude::*;
use crate::image::Extent;

verus! {

/// Largest width of a one-dimensional texture.
pub const REQ_TEXTURE1D_U_DIMENSION: u32 = 16384;

/// Largest width or height of a two-dimensional texture.
pub const REQ_TEXTURE2D_U_OR_V_DIMENSION: u32 = 16384;

/// Largest width, height or depth of a three-dimensional texture.
pub const REQ_TEXTURE3D_U_V_OR_W_DIMENSION: u32 = 2048;

/// Largest width or height of a cube face.
pub const REQ_TEXTURECUBE_DIMENSION: u32 = 16384;

/// Most layers of an array of one-dimensional textures.
pub const REQ_TEXTURE1D_ARRAY_AXIS_DIMENSION: u16 = 2048;

/// Most layers of an array of two-dimensional textures.
pub const REQ_TEXTURE2D_ARRAY_AXIS_DIMENSION: u16 = 2048;

/// Most mipmap levels of a texture.
pub const REQ_MIP_LEVELS: u8 = 15;

/// Largest size of a resource, in megabytes.
pub const REQ_RESOURCE_SIZE_IN_MEGABYTES: usize = 128;

/// Largest size of a resource, in bytes.
pub const MAX_RESOURCE_SIZE: usize = 134217728;

/// Most viewports and scissor rectangles of a pipeline.
pub const VIEWPORT_AND_SCISSORRECT_OBJECT_COUNT_PER_PIPELINE: usize = 16;

/// Largest coordinate of a viewport.
pub const VIEWPORT_BOUNDS_MAX: u32 = 32767;

/// Most thread groups of a dispatch along x.
pub const CS_THREAD_GROUP_MAX_X: u32 = 1024;

/// Most thread groups of a dispatch along y.
pub const CS_THREAD_GROUP_MAX_Y: u32 = 1024;

/// Most thread groups of a dispatch along z.
pub const CS_THREAD_GROUP_MAX_Z: u32 = 64;

/// Most threads of a thread group.
pub const CS_THREAD_GROUP_MAX_THREADS_PER_GROUP: u32 = 1024;

/// Number of input slots of the input assembler.
pub const IA_VERTEX_INPUT_RESOURCE_SLOT_COUNT: usize = 32;

/// Largest stride of a structure of several elements, in bytes.
pub const REQ_MULTI_ELEMENT_STRUCTURE_SIZE_IN_BYTES: usize = 2048;

/// Most render targets bound at once.
pub const SIMULTANEOUS_RENDER_TARGET_COUNT: usize = 8;

/// Alignment of texture data placed in a buffer, in bytes.
pub const TEXTURE_DATA_PLACEMENT_ALIGNMENT: u64 = 512;

/// Alignment of the row pitch of texture data in a buffer, in bytes.
pub const TEXTURE_DATA_PITCH_ALIGNMENT: u64 = 256;

/// Alignment of a constant buffer view, in bytes.
pub const CONSTANT_BUFFER_ALIGNMENT: u64 = 256;

/// Most vertex buffers that can be bound: the API allows sixteen slots.
pub const MAX_VERTEX_BUFFERS: usize = 16;

/// Resource limits of a device. A limit of zero has not been determined.
#[derive(Clone, Copy, Debug)]
pub struct Limits {
    pub max_image_1d_size: u32,
    pub max_image_2d_size: u32,
    pub max_image_3d_size: u32,
    pub max_image_cube_size: u32,
    pub max_image_array_layers: u16,
    pub max_texel_elements: usize,
    pub max_uniform_buffer_range: u64,
    pub max_storage_buffer_range: u64,
    pub max_push_constants_size: usize,
    pub max_memory_allocation_count: usize,
    pub max_sampler_allocation_count: usize,
    pub max_bound_descriptor_sets: u16,
    pub max_framebuffer_layers: usize,
    pub max_per_stage_descriptor_samplers: usize,
    pub max_per_stage_descriptor_uniform_buffers: usize,
    pub max_per_stage_descriptor_storage_buffers: usize,
    pub max_per_stage_descriptor_sampled_images: usize,
    pub max_per_stage_descriptor_storage_images: usize,
    pub max_per_stage_descriptor_input_attachments: usize,
    pub max_per_stage_resources: usize,
    pub max_descriptor_set_samplers: usize,
    pub max_descriptor_set_uniform_buffers: usize,
    pub max_descriptor_set_uniform_buffers_dynamic: usize,
    pub max_descriptor_set_storage_buffers: usize,
    pub max_descriptor_set_storage_buffers_dynamic: usize,
    pub max_descriptor_set_sampled_images: usize,
    pub max_descriptor_set_storage_images: usize,
    pub max_descriptor_set_input_attachments: usize,
    pub max_vertex_input_attributes: usize,
    pub max_vertex_input_bindings: usize,
    pub max_vertex_input_attribute_offset: usize,
    pub max_vertex_input_binding_stride: usize,
    pub max_vertex_output_components: usize,
    pub max_patch_size: u8,
    pub max_geometry_shader_invocations: usize,
    pub max_geometry_input_components: usize,
    pub max_geometry_output_components: usize,
    pub max_geometry_output_vertices: usize,
    pub max_geometry_total_output_components: usize,
    pub max_fragment_input_components: usize,
    pub max_fragment_output_attachments: usize,
    pub max_fragment_dual_source_attachments: usize,
    pub max_fragment_combined_output_resources: usize,
    pub max_compute_shared_memory_size: usize,
    pub max_compute_work_group_count: [u32; 3],
    pub max_compute_work_group_invocations: usize,
    pub max_compute_work_group_size: [u32; 3],
    pub max_draw_indexed_index_value: u32,
    pub max_draw_indirect_count: u32,
    /// Largest level-of-detail bias of a sampler, as a whole number.
    pub max_sampler_lod_bias: u32,
    /// Largest degree of anisotropy of a sampler, as a whole number.
    pub max_sampler_anisotropy: u32,
    pub max_viewports: usize,
    pub max_viewport_dimensions: [u32; 2],
    pub max_framebuffer_extent: Extent,
    pub min_memory_map_alignment: usize,
    pub buffer_image_granularity: u64,
    pub min_texel_buffer_offset_alignment: u64,
    pub min_uniform_buffer_offset_alignment: u64,
    pub min_storage_buffer_offset_alignment: u64,
    /// Bit mask of the sample counts of color attachments.
    pub framebuffer_color_sample_counts: u8,
    /// Bit mask of the sample counts of depth attachments.
    pub framebuffer_depth_sample_counts: u8,
    /// Bit mask of the sample counts of stencil attachments.
    pub framebuffer_stencil_sample_counts: u8,
    pub max_color_attachments: usize,
    pub standard_sample_locations: bool,
    pub optimal_buffer_copy_offset_alignment: u64,
    pub optimal_buffer_copy_pitch_alignment: u64,
    pub non_coherent_atom_size: usize,
    pub min_vertex_input_binding_stride_alignment: u64,
}

impl Limits {
    /// The limits with nothing determined: every number zero.
    pub open spec fn spec_undetermined() -> Limits {
        Limits {
            max_image_1d_size: 0,
            max_image_2d_size: 0,
            max_image_3d_size: 0,
            max_image_cube_size: 0,
            max_image_array_layers: 0,
            max_texel_elements: 0,
            max_uniform_buffer_range: 0,
            max_storage_buffer_range: 0,
            max_push_constants_size: 0,
            max_memory_allocation_count: 0,
            max_sampler_allocation_count: 0,
            max_bound_descriptor_sets: 0,
            max_framebuffer_layers: 0,
            max_per_stage_descriptor_samplers: 0,
            max_per_stage_descriptor_uniform_buffers: 0,
            max_per_stage_descriptor_storage_buffers: 0,
            max_per_stage_descriptor_sampled_images: 0,
            max_per_stage_descriptor_storage_images: 0,
            max_per_stage_descriptor_input_attachments: 0,
            max_per_stage_resources: 0,
            max_descriptor_set_samplers: 0,
            max_descriptor_set_uniform_buffers: 0,
            max_descriptor_set_uniform_buffers_dynamic: 0,
            max_descriptor_set_storage_buffers: 0,
            max_descriptor_set_storage_buffers_dynamic: 0,
            max_descriptor_set_sampled_images: 0,
            max_descriptor_set_storage_images: 0,
            max_descriptor_set_input_attachments: 0,
            max_vertex_input_attributes: 0,
            max_vertex_input_bindings: 0,
            max_vertex_input_attribute_offset: 0,
            max_vertex_input_binding_stride: 0,
            max_vertex_output_components: 0,
            max_patch_size: 0,
            max_geometry_shader_invocations: 0,
            max_geometry_input_components: 0,
            max_geometry_output_components: 0,
            max_geometry_output_vertices: 0,
            max_geometry_total_output_components: 0,
            max_fragment_input_components: 0,
            max_fragment_output_attachments: 0,
            max_fragment_dual_source_attachments: 0,
            max_fragment_combined_output_resources: 0,
            max_compute_shared_memory_size: 0,
            max_compute_work_group_count: [0u32, 0u32, 0u32],
            max_compute_work_group_invocations: 0,
            max_compute_work_group_size: [0u32, 0u32, 0u32],
            max_draw_indexed_index_value: 0,
            max_draw_indirect_count: 0,
            max_sampler_lod_bias: 0,
            max_sampler_anisotropy: 0,
            max_viewports: 0,
            max_viewport_dimensions: [0u32, 0u32],
            max_framebuffer_extent: Extent { width: 0, height: 0, depth: 0 },
            min_memory_map_alignment: 0,
            buffer_image_granularity: 0,
            min_texel_buffer_offset_alignment: 0,
            min_uniform_buffer_offset_alignment: 0,
            min_storage_buffer_offset_alignment: 0,
            framebuffer_color_sample_counts: 0,
            framebuffer_depth_sample_counts: 0,
            framebuffer_stencil_sample_counts: 0,
            max_color_attachments: 0,
            standard_sample_locations: false,
            optimal_buffer_copy_offset_alignment: 0,
            optimal_buffer_copy_pitch_alignment: 0,
            non_coherent_atom_size: 0,
            min_vertex_input_binding_stride_alignment: 0,
        }
    }

    /// The limits every adapter of this backend reports.
    pub open spec fn spec_of_adapter() -> Limits {
        Limits {
            max_image_1d_size: REQ_TEXTURE1D_U_DIMENSION,
            max_image_2d_size: REQ_TEXTURE2D_U_OR_V_DIMENSION,
            max_image_3d_size: REQ_TEXTURE3D_U_V_OR_W_DIMENSION,
            max_image_cube_size: REQ_TEXTURECUBE_DIMENSION,
            max_image_array_layers: REQ_TEXTURE2D_ARRAY_AXIS_DIMENSION,
            max_texel_elements: 0,
            max_patch_size: 0,
            max_viewports: VIEWPORT_AND_SCISSORRECT_OBJECT_COUNT_PER_PIPELINE,
            max_viewport_dimensions: [VIEWPORT_BOUNDS_MAX, VIEWPORT_BOUNDS_MAX],
            max_framebuffer_extent: Extent { width: 4096, height: 4096, depth: 1 },
            max_compute_work_group_count: [
                CS_THREAD_GROUP_MAX_X,
                CS_THREAD_GROUP_MAX_Y,
                CS_THREAD_GROUP_MAX_Z,
            ],
            max_compute_work_group_size: [CS_THREAD_GROUP_MAX_THREADS_PER_GROUP, 1u32, 1u32],
            max_vertex_input_attributes: IA_VERTEX_INPUT_RESOURCE_SLOT_COUNT,
            max_vertex_input_bindings: 31,
            max_vertex_input_attribute_offset: 255,
            max_vertex_input_binding_stride: REQ_MULTI_ELEMENT_STRUCTURE_SIZE_IN_BYTES,
            max_vertex_output_components: 16,
            min_texel_buffer_offset_alignment: 1,
            min_uniform_buffer_offset_alignment: CONSTANT_BUFFER_ALIGNMENT,
            min_storage_buffer_offset_alignment: 1,
            framebuffer_color_sample_counts: 0b101,
            framebuffer_depth_sample_counts: 0b101,
            framebuffer_stencil_sample_counts: 0b101,
            max_color_attachments: SIMULTANEOUS_RENDER_TARGET_COUNT,
            buffer_image_granularity: 1,
            non_coherent_atom_size: 1,
            max_sampler_anisotropy: 16,
            optimal_buffer_copy_offset_alignment: TEXTURE_DATA_PLACEMENT_ALIGNMENT,
            optimal_buffer_copy_pitch_alignment: TEXTURE_DATA_PITCH_ALIGNMENT,
            min_vertex_input_binding_stride_alignment: 1,
            ..Self::spec_undetermined()
        }
    }

    /// The limits with nothing determined: every number zero.
    #[verifier::when_used_as_spec(spec_undetermined)]
    pub fn undetermined() -> (limits: Limits)
        ensures
            limits == Self::spec_undetermined(),
    {
        Limits {
            max_image_1d_size: 0,
            max_image_2d_size: 0,
            max_image_3d_size: 0,
            max_image_cube_size: 0,
            max_image_array_layers: 0,
            max_texel_elements: 0,
            max_uniform_buffer_range: 0,
            max_storage_buffer_range: 0,
            max_push_constants_size: 0,
            max_memory_allocation_count: 0,
            max_sampler_allocation_count: 0,
            max_bound_descriptor_sets: 0,
            max_framebuffer_layers: 0,
            max_per_stage_descriptor_samplers: 0,
            max_per_stage_descriptor_uniform_buffers: 0,
            max_per_stage_descriptor_storage_buffers: 0,
            max_per_stage_descriptor_sampled_images: 0,
            max_per_stage_descriptor_storage_images: 0,
            max_per_stage_descriptor_input_attachments: 0,
            max_per_stage_resources: 0,
            max_descriptor_set_samplers: 0,
            max_descriptor_set_uniform_buffers: 0,
            max_descriptor_set_uniform_buffers_dynamic: 0,
            max_descriptor_set_storage_buffers: 0,
            max_descriptor_set_storage_buffers_dynamic: 0,
            max_descriptor_set_sampled_images: 0,
            max_descriptor_set_storage_images: 0,
            max_descriptor_set_input_attachments: 0,
            max_vertex_input_attributes: 0,
            max_vertex_input_bindings: 0,
            max_vertex_input_attribute_offset: 0,
            max_vertex_input_binding_stride: 0,
            max_vertex_output_components: 0,
            max_patch_size: 0,
            max_geometry_shader_invocations: 0,
            max_geometry_input_components: 0,
            max_geometry_output_components: 0,
            max_geometry_output_vertices: 0,
            max_geometry_total_output_components: 0,
            max_fragment_input_components: 0,
            max_fragment_output_attachments: 0,
            max_fragment_dual_source_attachments: 0,
            max_fragment_combined_output_resources: 0,
            max_compute_shared_memory_size: 0,
            max_compute_work_group_count: [0, 0, 0],
            max_compute_work_group_invocations: 0,
            max_compute_work_group_size: [0, 0, 0],
            max_draw_indexed_index_value: 0,
            max_draw_indirect_count: 0,
            max_sampler_lod_bias: 0,
            max_sampler_anisotropy: 0,
            max_viewports: 0,
            max_viewport_dimensions: [0, 0],
            max_framebuffer_extent: Extent { width: 0, height: 0, depth: 0 },
            min_memory_map_alignment: 0,
            buffer_image_granularity: 0,
            min_texel_buffer_offset_alignment: 0,
            min_uniform_buffer_offset_alignment: 0,
            min_storage_buffer_offset_alignment: 0,
            framebuffer_color_sample_counts: 0,
            framebuffer_depth_sample_counts: 0,
            framebuffer_stencil_sample_counts: 0,
            max_color_attachments: 0,
            standard_sample_locations: false,
            optimal_buffer_copy_offset_alignment: 0,
            optimal_buffer_copy_pitch_alignment: 0,
            non_coherent_atom_size: 0,
            min_vertex_input_binding_stride_alignment: 0,
        }
    }

    /// The limits every adapter of this backend reports: the limits that the
    /// native API fixes, and zero for what it leaves open.
    #[verifier::when_used_as_spec(spec_of_adapter)]
    pub fn of_adapter() -> (limits: Limits)
        ensures
            limits == Self::spec_of_adapter(),
    {
        Limits {
            max_image_1d_size: REQ_TEXTURE1D_U_DIMENSION,
            max_image_2d_size: REQ_TEXTURE2D_U_OR_V_DIMENSION,
            max_image_3d_size: REQ_TEXTURE3D_U_V_OR_W_DIMENSION,
            max_image_cube_size: REQ_TEXTURECUBE_DIMENSION,
            max_image_array_layers: REQ_TEXTURE2D_ARRAY_AXIS_DIMENSION,
            max_texel_elements: 0,
            max_patch_size: 0,
            max_viewports: VIEWPORT_AND_SCISSORRECT_OBJECT_COUNT_PER_PIPELINE,
            max_viewport_dimensions: [VIEWPORT_BOUNDS_MAX, VIEWPORT_BOUNDS_MAX],
            max_framebuffer_extent: Extent { width: 4096, height: 4096, depth: 1 },
            max_compute_work_group_count: [
                CS_THREAD_GROUP_MAX_X,
                CS_THREAD_GROUP_MAX_Y,
                CS_THREAD_GROUP_MAX_Z,
            ],
            max_compute_work_group_size: [CS_THREAD_GROUP_MAX_THREADS_PER_GROUP, 1, 1],
            max_vertex_input_attributes: IA_VERTEX_INPUT_RESOURCE_SLOT_COUNT,
            max_vertex_input_bindings: 31,
            max_vertex_input_attribute_offset: 255,
            max_vertex_input_binding_stride: REQ_MULTI_ELEMENT_STRUCTURE_SIZE_IN_BYTES,
            max_vertex_output_components: 16,
            min_texel_buffer_offset_alignment: 1,
            min_uniform_buffer_offset_alignment: CONSTANT_BUFFER_ALIGNMENT,
            min_storage_buffer_offset_alignment: 1,
            framebuffer_color_sample_counts: 0b101,
            framebuffer_depth_sample_counts: 0b101,
            framebuffer_stencil_sample_counts: 0b101,
            max_color_attachments: SIMULTANEOUS_RENDER_TARGET_COUNT,
            buffer_image_granularity: 1,
            non_coherent_atom_size: 1,
            max_sampler_anisotropy: 16,
            optimal_buffer_copy_offset_alignment: TEXTURE_DATA_PLACEMENT_ALIGNMENT,
            optimal_buffer_copy_pitch_alignment: TEXTURE_DATA_PITCH_ALIGNMENT,
            min_vertex_input_binding_stride_alignment: 1,
            ..Limits::undetermined()
        }
    }
}

impl Default for Limits {
    fn default() -> (limits: Limits)
        ensures
            limits == Limits::spec_undetermined(),
    {
        Limits::undetermined()
    }
}

} // verus!
