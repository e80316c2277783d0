//! Images: how they are used, and how large an image of a format may be.

use vstd::prelude::*;
use crate::format::{
    ImageFeature, Properties, bits_if, lemma_or_zero, IMAGE_BLIT_DST, IMAGE_BLIT_SRC,
    IMAGE_COLOR_ATTACHMENT, IMAGE_DEPTH_STENCIL_ATTACHMENT, IMAGE_SAMPLED, IMAGE_STORAGE,
};
use crate::limits::{
    MAX_RESOURCE_SIZE, REQ_MIP_LEVELS, REQ_RESOURCE_SIZE_IN_MEGABYTES,
    REQ_TEXTURE1D_ARRAY_AXIS_DIMENSION, REQ_TEXTURE1D_U_DIMENSION,
    REQ_TEXTURE2D_ARRAY_AXIS_DIMENSION, REQ_TEXTURE2D_U_OR_V_DIMENSION,
    REQ_TEXTURE3D_U_V_OR_W_DIMENSION,
};

verus! {

/// The image is the source of a transfer.
pub const USAGE_TRANSFER_SRC: u32 = 0x1;

/// The image is the destination of a transfer.
pub const USAGE_TRANSFER_DST: u32 = 0x2;

/// The image is sampled.
pub const USAGE_SAMPLED: u32 = 0x4;

/// The image is a storage image.
pub const USAGE_STORAGE: u32 = 0x8;

/// The image is a color attachment.
pub const USAGE_COLOR_ATTACHMENT: u32 = 0x10;

/// The image is a depth-stencil attachment.
pub const USAGE_DEPTH_STENCIL_ATTACHMENT: u32 = 0x20;

/// The image is a transient attachment.
pub const USAGE_TRANSIENT_ATTACHMENT: u32 = 0x40;

/// The image is an input attachment.
pub const USAGE_INPUT_ATTACHMENT: u32 = 0x80;

/// Views of another format can be created.
pub const VIEW_MUTABLE_FORMAT: u32 = 0x8;

/// Cube views can be created.
pub const VIEW_KIND_CUBE: u32 = 0x10;

/// Array views of two-dimensional images can be created.
pub const VIEW_KIND_2D_ARRAY: u32 = 0x20;

/// Sample counts 1, 2, 4, 8, 16 and 32, as a bit mask.
pub const SAMPLE_COUNTS_UP_TO_32: u8 = 0x3F;

/// Sample count 1 alone, as a bit mask.
pub const SAMPLE_COUNT_1: u8 = 0x1;

/// A set of image usages.
#[derive(Clone, Copy, Debug, PartialEq, Eq, Hash, Structural)]
pub struct Usage {
    pub bits: u32,
}

/// A set of capabilities to create views of an image.
#[derive(Clone, Copy, Debug, PartialEq, Eq, Hash, Structural)]
pub struct ViewCapabilities {
    pub bits: u32,
}

impl Usage {
    /// Whether every usage of `other` is in the set.
    pub open spec fn spec_contains(&self, other: Usage) -> bool {
        self.bits & other.bits == other.bits
    }

    /// The set with exactly the given bits.
    pub fn from_bits(bits: u32) -> (set: Usage)
        ensures
            set.bits == bits,
    {
        Usage { bits }
    }

    /// Whether every usage of `other` is in the set.
    #[verifier::when_used_as_spec(spec_contains)]
    pub fn contains(&self, other: Usage) -> (yes: bool)
        ensures
            yes == self.spec_contains(other),
    {
        self.bits & other.bits == other.bits
    }
}

impl ViewCapabilities {
    /// Whether every capability of `other` is in the set.
    pub open spec fn spec_contains(&self, other: ViewCapabilities) -> bool {
        self.bits & other.bits == other.bits
    }

    /// The set with exactly the given bits.
    pub fn from_bits(bits: u32) -> (set: ViewCapabilities)
        ensures
            set.bits == bits,
    {
        ViewCapabilities { bits }
    }

    /// Whether every capability of `other` is in the set.
    #[verifier::when_used_as_spec(spec_contains)]
    pub fn contains(&self, other: ViewCapabilities) -> (yes: bool)
        ensures
            yes == self.spec_contains(other),
    {
        self.bits & other.bits == other.bits
    }
}

/// How the texels of an image are laid out in memory.
#[derive(Clone, Copy, Debug, PartialEq, Eq, Structural)]
pub enum Tiling {
    /// Whatever layout the device accesses fastest.
    Optimal,
    /// Row after row.
    Linear,
}

/// The size of an image, in texels.
#[derive(Clone, Copy, Debug, PartialEq, Eq, Hash, Structural)]
pub struct Extent {
    pub width: u32,
    pub height: u32,
    pub depth: u32,
}

/// How large an image of a format may be.
#[derive(Clone, Copy, Debug, PartialEq, Eq, Hash, Structural)]
pub struct ImageFormatProperties {
    pub max_extent: Extent,
    /// Most mipmap levels.
    pub max_levels: u8,
    /// Most array layers.
    pub max_layers: u16,
    /// Bit mask of the supported sample counts.
    pub sample_count_mask: u8,
    /// Largest size of the image, in bytes.
    pub max_resource_size: usize,
}

/// The usages that the features of a format allow.
pub open spec fn supported_usage(features: ImageFeature) -> Usage {
    Usage {
        bits: bits_if(
            features.spec_contains(ImageFeature { bits: IMAGE_BLIT_SRC }),
            USAGE_TRANSFER_SRC,
        ) | bits_if(
            features.spec_contains(ImageFeature { bits: IMAGE_BLIT_DST }),
            USAGE_TRANSFER_DST,
        ) | bits_if(features.spec_contains(ImageFeature { bits: IMAGE_SAMPLED }), USAGE_SAMPLED)
            | bits_if(features.spec_contains(ImageFeature { bits: IMAGE_STORAGE }), USAGE_STORAGE)
            | bits_if(
            features.spec_contains(ImageFeature { bits: IMAGE_COLOR_ATTACHMENT }),
            USAGE_COLOR_ATTACHMENT,
        ) | bits_if(
            features.spec_contains(ImageFeature { bits: IMAGE_DEPTH_STENCIL_ATTACHMENT }),
            USAGE_DEPTH_STENCIL_ATTACHMENT,
        ),
    }
}

/// The features of a format under a tiling.
pub open spec fn tiling_features(properties: Properties, tiling: Tiling) -> ImageFeature {
    match tiling {
        Tiling::Optimal => properties.optimal_tiling,
        Tiling::Linear => properties.linear_tiling,
    }
}

/// Whether an image can have more than one sample per texel: only a
/// two-dimensional image that is rendered to and never viewed as a cube.
pub open spec fn multisampled(dimensions: u8, usage: Usage, view_caps: ViewCapabilities) -> bool {
    &&& dimensions == 2
    &&& !view_caps.spec_contains(ViewCapabilities { bits: VIEW_KIND_CUBE })
    &&& (usage.spec_contains(Usage { bits: USAGE_COLOR_ATTACHMENT }) || usage.spec_contains(
        Usage { bits: USAGE_DEPTH_STENCIL_ATTACHMENT },
    ))
}

impl ImageFormatProperties {
    /// How large an image may be, given the properties of its format, the
    /// number of its dimensions, its tiling, its usage and the views wanted
    /// of it; `None` where no such image can be created.
    ///
    /// The usage has to be allowed by the features of the format under the
    /// tiling. With optimal tiling an image has one or two dimensions, with
    /// linear tiling two, a single level and a single layer.
    pub open spec fn spec_for_format(
        properties: Properties,
        dimensions: u8,
        tiling: Tiling,
        usage: Usage,
        view_caps: ViewCapabilities,
    ) -> Option<ImageFormatProperties> {
        if !supported_usage(tiling_features(properties, tiling)).spec_contains(usage) {
            None
        } else {
            match tiling {
                Tiling::Optimal => if dimensions == 1 {
                    Some(
                        ImageFormatProperties {
                            max_extent: Extent {
                                width: REQ_TEXTURE1D_U_DIMENSION,
                                height: 1,
                                depth: 1,
                            },
                            max_levels: REQ_MIP_LEVELS,
                            max_layers: REQ_TEXTURE1D_ARRAY_AXIS_DIMENSION,
                            sample_count_mask: SAMPLE_COUNT_1,
                            max_resource_size: MAX_RESOURCE_SIZE,
                        },
                    )
                } else if dimensions == 2 {
                    Some(
                        ImageFormatProperties {
                            max_extent: Extent {
                                width: REQ_TEXTURE2D_U_OR_V_DIMENSION,
                                height: REQ_TEXTURE2D_U_OR_V_DIMENSION,
                                depth: 1,
                            },
                            max_levels: REQ_MIP_LEVELS,
                            max_layers: REQ_TEXTURE2D_ARRAY_AXIS_DIMENSION,
                            sample_count_mask: if multisampled(dimensions, usage, view_caps) {
                                SAMPLE_COUNTS_UP_TO_32
                            } else {
                                SAMPLE_COUNT_1
                            },
                            max_resource_size: MAX_RESOURCE_SIZE,
                        },
                    )
                } else {
                    None
                },
                Tiling::Linear => if dimensions == 2 {
                    Some(
                        ImageFormatProperties {
                            max_extent: Extent {
                                width: REQ_TEXTURE2D_U_OR_V_DIMENSION,
                                height: REQ_TEXTURE2D_U_OR_V_DIMENSION,
                                depth: 1,
                            },
                            max_levels: 1,
                            max_layers: 1,
                            sample_count_mask: SAMPLE_COUNT_1,
                            max_resource_size: MAX_RESOURCE_SIZE,
                        },
                    )
                } else {
                    None
                },
            }
        }
    }

    /// How large an image may be; `None` where no such image can be created.
    #[verifier::when_used_as_spec(spec_for_format)]
    pub fn for_format(
        properties: Properties,
        dimensions: u8,
        tiling: Tiling,
        usage: Usage,
        view_caps: ViewCapabilities,
    ) -> (limits: Option<ImageFormatProperties>)
        ensures
            limits == Self::spec_for_format(properties, dimensions, tiling, usage, view_caps),
    {
        let props = match tiling {
            Tiling::Optimal => properties.optimal_tiling,
            Tiling::Linear => properties.linear_tiling,
        };
        let mut flags: u32 = 0;
        proof {
            lemma_or_zero();
        }
        if props.contains(ImageFeature { bits: IMAGE_BLIT_SRC }) {
            flags |= USAGE_TRANSFER_SRC;
        }
        if props.contains(ImageFeature { bits: IMAGE_BLIT_DST }) {
            flags |= USAGE_TRANSFER_DST;
        }
        if props.contains(ImageFeature { bits: IMAGE_SAMPLED }) {
            flags |= USAGE_SAMPLED;
        }
        if props.contains(ImageFeature { bits: IMAGE_STORAGE }) {
            flags |= USAGE_STORAGE;
        }
        if props.contains(ImageFeature { bits: IMAGE_COLOR_ATTACHMENT }) {
            flags |= USAGE_COLOR_ATTACHMENT;
        }
        if props.contains(ImageFeature { bits: IMAGE_DEPTH_STENCIL_ATTACHMENT }) {
            flags |= USAGE_DEPTH_STENCIL_ATTACHMENT;
        }
        let supported = Usage { bits: flags };
        if !supported.contains(usage) {
            return None;
        }
        let max_resource_size: usize = REQ_RESOURCE_SIZE_IN_MEGABYTES << 20;
        assert(max_resource_size == MAX_RESOURCE_SIZE) by (bit_vector)
            requires
                max_resource_size == 128usize << 20,
        ;
        Some(
            match tiling {
                Tiling::Optimal => ImageFormatProperties {
                    max_extent: match dimensions {
                        1 => Extent { width: REQ_TEXTURE1D_U_DIMENSION, height: 1, depth: 1 },
                        2 => Extent {
                            width: REQ_TEXTURE2D_U_OR_V_DIMENSION,
                            height: REQ_TEXTURE2D_U_OR_V_DIMENSION,
                            depth: 1,
                        },
                        3 => Extent {
                            width: REQ_TEXTURE3D_U_V_OR_W_DIMENSION,
                            height: REQ_TEXTURE3D_U_V_OR_W_DIMENSION,
                            depth: REQ_TEXTURE3D_U_V_OR_W_DIMENSION,
                        },
                        _ => return None,
                    },
                    max_levels: REQ_MIP_LEVELS,
                    max_layers: match dimensions {
                        1 => REQ_TEXTURE1D_ARRAY_AXIS_DIMENSION,
                        2 => REQ_TEXTURE2D_ARRAY_AXIS_DIMENSION,
                        _ => return None,
                    },
                    sample_count_mask: if dimensions == 2 && !view_caps.contains(
                        ViewCapabilities { bits: VIEW_KIND_CUBE },
                    ) && (usage.contains(Usage { bits: USAGE_COLOR_ATTACHMENT }) || usage.contains(
                        Usage { bits: USAGE_DEPTH_STENCIL_ATTACHMENT },
                    )) {
                        SAMPLE_COUNTS_UP_TO_32
                    } else {
                        SAMPLE_COUNT_1
                    },
                    max_resource_size,
                },
                Tiling::Linear => ImageFormatProperties {
                    max_extent: match dimensions {
                        2 => Extent {
                            width: REQ_TEXTURE2D_U_OR_V_DIMENSION,
                            height: REQ_TEXTURE2D_U_OR_V_DIMENSION,
                            depth: 1,
                        },
                        _ => return None,
                    },
                    max_levels: 1,
                    max_layers: 1,
                    sample_count_mask: SAMPLE_COUNT_1,
                    max_resource_size,
                },
            },
        )
    }
}

} // verus!
