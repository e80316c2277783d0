use gfx_backend_dx12::format::{BufferFeature, FormatSupport, ImageFeature, Properties};
use gfx_backend_dx12::image::{ImageFormatProperties, Tiling, Usage, ViewCapabilities};
use gfx_hal::format::{BufferFeature as HalBuffer, ImageFeature as HalImage};
use gfx_hal::image::{Usage as HalUsage, ViewCapabilities as HalCaps};

/// The derivation written with the flag types of the abstraction layer.
fn derive_with_flag_types(support1: u32, support2: u32, compressed: bool) -> (u32, u32, u32) {
    let mut linear = HalImage::empty();
    let mut optimal = HalImage::empty();
    let mut buffer = HalBuffer::empty();
    let can_buffer = 0 != support1 & 0x1;
    let can_image = 0 != support1 & (0x10 | 0x20 | 0x40 | 0x80);
    let can_linear = can_image && !compressed;
    if can_image {
        optimal |= HalImage::SAMPLED | HalImage::BLIT_SRC;
    }
    if can_linear {
        linear |= HalImage::SAMPLED | HalImage::BLIT_SRC;
    }
    if support1 & 0x2 != 0 {
        buffer |= HalBuffer::VERTEX;
    }
    if support1 & 0x200 != 0 {
        optimal |= HalImage::SAMPLED_LINEAR;
    }
    if support1 & 0x4000 != 0 {
        optimal |= HalImage::COLOR_ATTACHMENT | HalImage::BLIT_DST;
        if can_linear {
            linear |= HalImage::COLOR_ATTACHMENT | HalImage::BLIT_DST;
        }
    }
    if support1 & 0x8000 != 0 {
        optimal |= HalImage::COLOR_ATTACHMENT_BLEND;
    }
    if support1 & 0x10000 != 0 {
        optimal |= HalImage::DEPTH_STENCIL_ATTACHMENT;
    }
    if support1 & 0x100 != 0 && can_buffer {
        buffer |= HalBuffer::UNIFORM_TEXEL;
    }
    if support2 & 0x1 != 0 {
        if can_buffer {
            buffer |= HalBuffer::STORAGE_TEXEL_ATOMIC;
        }
        if can_image {
            optimal |= HalImage::STORAGE_ATOMIC;
        }
    }
    if support2 & 0x80 != 0 {
        if can_buffer {
            buffer |= HalBuffer::STORAGE_TEXEL;
        }
        if can_image {
            optimal |= HalImage::STORAGE;
        }
    }
    (linear.bits(), optimal.bits(), buffer.bits())
}

#[test]
fn derivation_agrees_with_the_flag_types_of_the_abstraction_layer() {
    let bits1 = [0x1, 0x2, 0x10, 0x20, 0x40, 0x80, 0x100, 0x200, 0x4000, 0x8000, 0x10000];
    let bits2 = [0x1, 0x80];
    for choice1 in 0u32..(1 << bits1.len()) {
        let support1: u32 =
            bits1.iter().enumerate().filter(|(i, _)| choice1 & (1 << i) != 0).map(|(_, b)| b).sum();
        for choice2 in 0u32..(1 << bits2.len()) {
            let support2: u32 = bits2
                .iter()
                .enumerate()
                .filter(|(i, _)| choice2 & (1 << i) != 0)
                .map(|(_, b)| b)
                .sum();
            for compressed in [false, true] {
                let ours =
                    Properties::from_support(FormatSupport { support1, support2 }, compressed);
                let theirs = derive_with_flag_types(support1, support2, compressed);
                assert_eq!(
                    (ours.linear_tiling.bits, ours.optimal_tiling.bits, ours.buffer_features.bits),
                    theirs
                );
            }
        }
    }
}

/// The usages that a set of features allows, with the flag types of the
/// abstraction layer.
fn supported_usage(features: HalImage) -> HalUsage {
    let mut flags = HalUsage::empty();
    if features.contains(HalImage::BLIT_SRC) {
        flags |= HalUsage::TRANSFER_SRC;
    }
    if features.contains(HalImage::BLIT_DST) {
        flags |= HalUsage::TRANSFER_DST;
    }
    if features.contains(HalImage::SAMPLED) {
        flags |= HalUsage::SAMPLED;
    }
    if features.contains(HalImage::STORAGE) {
        flags |= HalUsage::STORAGE;
    }
    if features.contains(HalImage::COLOR_ATTACHMENT) {
        flags |= HalUsage::COLOR_ATTACHMENT;
    }
    if features.contains(HalImage::DEPTH_STENCIL_ATTACHMENT) {
        flags |= HalUsage::DEPTH_STENCIL_ATTACHMENT;
    }
    flags
}

/// Extent, levels, layers and sample mask of an image, or `None`.
fn image_limits(
    features: HalImage,
    dimensions: u8,
    linear: bool,
    usage: HalUsage,
    view_caps: HalCaps,
) -> Option<((u32, u32, u32), u8, u16, u8)> {
    if !supported_usage(features).contains(usage) {
        return None;
    }
    if linear {
        return if dimensions == 2 { Some(((16384, 16384, 1), 1, 1, 0x1)) } else { None };
    }
    let extent = match dimensions {
        1 => (16384, 1, 1),
        2 => (16384, 16384, 1),
        _ => return None,
    };
    let multisampled = dimensions == 2
        && !view_caps.contains(HalCaps::KIND_CUBE)
        && (usage.contains(HalUsage::COLOR_ATTACHMENT)
            | usage.contains(HalUsage::DEPTH_STENCIL_ATTACHMENT));
    Some((extent, 15, 2048, if multisampled { 0x3F } else { 0x1 }))
}

#[test]
fn image_limits_agree_with_the_flag_types_of_the_abstraction_layer() {
    let feature_sets = [0u32, 0x1, 0x401, 0xC81, 0x1F87, 0x280, 0x802, 0x1F07, 0x1187];
    for features in feature_sets {
        for other in [0u32, 0x1F87] {
            for dimensions in 0u8..5 {
                for usage in 0u32..256 {
                    for view_caps in [0u32, 0x8, 0x10, 0x18, 0x20, 0x30, 0x38] {
                        for linear in [false, true] {
                            let properties = if linear {
                                Properties {
                                    linear_tiling: ImageFeature { bits: features },
                                    optimal_tiling: ImageFeature { bits: other },
                                    buffer_features: BufferFeature { bits: 0 },
                                }
                            } else {
                                Properties {
                                    linear_tiling: ImageFeature { bits: other },
                                    optimal_tiling: ImageFeature { bits: features },
                                    buffer_features: BufferFeature { bits: 0x78 },
                                }
                            };
                            let ours = ImageFormatProperties::for_format(
                                properties,
                                dimensions,
                                if linear { Tiling::Linear } else { Tiling::Optimal },
                                Usage::from_bits(usage),
                                ViewCapabilities::from_bits(view_caps),
                            );
                            let theirs = image_limits(
                                HalImage::from_bits(features).unwrap(),
                                dimensions,
                                linear,
                                HalUsage::from_bits(usage).unwrap(),
                                HalCaps::from_bits(view_caps).unwrap(),
                            );
                            assert_eq!(
                                ours.map(|l| (
                                    (l.max_extent.width, l.max_extent.height, l.max_extent.depth),
                                    l.max_levels,
                                    l.max_layers,
                                    l.sample_count_mask
                                )),
                                theirs
                            );
                            if let Some(limits) = ours {
                                assert_eq!(limits.max_resource_size, 134_217_728);
                            }
                        }
                    }
                }
            }
        }
    }
}
