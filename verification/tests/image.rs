use gfx_backend_dx12::format::{BufferFeature, ImageFeature, Properties};
use gfx_hal::image::{Usage as HalUsage, ViewCapabilities as HalCaps};
use gfx_backend_dx12::image::{
    Extent, ImageFormatProperties, Tiling, Usage, ViewCapabilities, USAGE_COLOR_ATTACHMENT,
    USAGE_DEPTH_STENCIL_ATTACHMENT, USAGE_INPUT_ATTACHMENT, USAGE_SAMPLED, USAGE_STORAGE,
    USAGE_TRANSFER_DST, USAGE_TRANSFER_SRC, USAGE_TRANSIENT_ATTACHMENT, VIEW_KIND_2D_ARRAY,
    VIEW_KIND_CUBE, VIEW_MUTABLE_FORMAT,
};

const MAX_RESOURCE_SIZE: usize = 128 << 20;

fn props(linear: u32, optimal: u32) -> Properties {
    Properties {
        linear_tiling: ImageFeature { bits: linear },
        optimal_tiling: ImageFeature { bits: optimal },
        buffer_features: BufferFeature { bits: 0 },
    }
}

fn query(
    properties: Properties,
    dimensions: u8,
    tiling: Tiling,
    usage: u32,
    view_caps: u32,
) -> Option<ImageFormatProperties> {
    ImageFormatProperties::for_format(
        properties,
        dimensions,
        tiling,
        Usage::from_bits(usage),
        ViewCapabilities::from_bits(view_caps),
    )
}

fn limits(
    extent: (u32, u32, u32),
    max_levels: u8,
    max_layers: u16,
    sample_count_mask: u8,
) -> ImageFormatProperties {
    ImageFormatProperties {
        max_extent: Extent { width: extent.0, height: extent.1, depth: extent.2 },
        max_levels,
        max_layers,
        sample_count_mask,
        max_resource_size: MAX_RESOURCE_SIZE,
    }
}

#[test]
fn usage_bits_match_the_abstraction_layer() {
    assert_eq!(USAGE_TRANSFER_SRC, HalUsage::TRANSFER_SRC.bits());
    assert_eq!(USAGE_TRANSFER_DST, HalUsage::TRANSFER_DST.bits());
    assert_eq!(USAGE_SAMPLED, HalUsage::SAMPLED.bits());
    assert_eq!(USAGE_STORAGE, HalUsage::STORAGE.bits());
    assert_eq!(USAGE_COLOR_ATTACHMENT, HalUsage::COLOR_ATTACHMENT.bits());
    assert_eq!(USAGE_DEPTH_STENCIL_ATTACHMENT, HalUsage::DEPTH_STENCIL_ATTACHMENT.bits());
    assert_eq!(USAGE_TRANSIENT_ATTACHMENT, HalUsage::TRANSIENT_ATTACHMENT.bits());
    assert_eq!(USAGE_INPUT_ATTACHMENT, HalUsage::INPUT_ATTACHMENT.bits());
    assert_eq!(VIEW_MUTABLE_FORMAT, HalCaps::MUTABLE_FORMAT.bits());
    assert_eq!(VIEW_KIND_CUBE, HalCaps::KIND_CUBE.bits());
    assert_eq!(VIEW_KIND_2D_ARRAY, HalCaps::KIND_2D_ARRAY.bits());
    assert_eq!(gfx_hal::image::MAX_LEVEL, 15);
}

#[test]
fn usage_sets_contain_their_members() {
    let usage = Usage::from_bits(USAGE_SAMPLED | USAGE_TRANSFER_DST);
    assert!(usage.contains(Usage::from_bits(USAGE_SAMPLED)));
    assert!(usage.contains(Usage::from_bits(0)));
    assert!(!usage.contains(Usage::from_bits(USAGE_SAMPLED | USAGE_STORAGE)));
    let caps = ViewCapabilities::from_bits(VIEW_KIND_CUBE);
    assert!(caps.contains(ViewCapabilities::from_bits(VIEW_KIND_CUBE)));
    assert!(!caps.contains(ViewCapabilities::from_bits(VIEW_KIND_2D_ARRAY)));
}

#[test]
fn optimal_one_dimensional_image() {
    let all = props(0, 0x1F87);
    assert_eq!(
        query(all, 1, Tiling::Optimal, USAGE_SAMPLED, 0),
        Some(limits((16384, 1, 1), 15, 2048, 0x1))
    );
    // One dimension is never multisampled, even as a color attachment.
    assert_eq!(
        query(all, 1, Tiling::Optimal, USAGE_COLOR_ATTACHMENT, 0),
        Some(limits((16384, 1, 1), 15, 2048, 0x1))
    );
}

#[test]
fn optimal_two_dimensional_image() {
    let all = props(0, 0x1F87);
    assert_eq!(
        query(all, 2, Tiling::Optimal, USAGE_SAMPLED, 0),
        Some(limits((16384, 16384, 1), 15, 2048, 0x1))
    );
    assert_eq!(
        query(all, 2, Tiling::Optimal, 0, 0),
        Some(limits((16384, 16384, 1), 15, 2048, 0x1))
    );
}

#[test]
fn render_targets_can_be_multisampled() {
    let all = props(0, 0x1F87);
    let expected = Some(limits((16384, 16384, 1), 15, 2048, 0x3F));
    assert_eq!(query(all, 2, Tiling::Optimal, USAGE_COLOR_ATTACHMENT, 0), expected);
    assert_eq!(query(all, 2, Tiling::Optimal, USAGE_DEPTH_STENCIL_ATTACHMENT, 0), expected);
    assert_eq!(
        query(all, 2, Tiling::Optimal, USAGE_COLOR_ATTACHMENT | USAGE_SAMPLED, VIEW_KIND_2D_ARRAY),
        expected
    );
    // Cube views rule multisampling out.
    assert_eq!(
        query(all, 2, Tiling::Optimal, USAGE_COLOR_ATTACHMENT, VIEW_KIND_CUBE),
        Some(limits((16384, 16384, 1), 15, 2048, 0x1))
    );
    assert_eq!(
        query(all, 2, Tiling::Optimal, USAGE_COLOR_ATTACHMENT, VIEW_KIND_CUBE | VIEW_MUTABLE_FORMAT),
        Some(limits((16384, 16384, 1), 15, 2048, 0x1))
    );
}

#[test]
fn other_dimensions_are_refused() {
    let all = props(0x1F87, 0x1F87);
    assert_eq!(query(all, 3, Tiling::Optimal, USAGE_SAMPLED, 0), None);
    assert_eq!(query(all, 0, Tiling::Optimal, USAGE_SAMPLED, 0), None);
    assert_eq!(query(all, 4, Tiling::Optimal, USAGE_SAMPLED, 0), None);
    assert_eq!(query(all, 255, Tiling::Optimal, 0, 0), None);
    assert_eq!(query(all, 1, Tiling::Linear, USAGE_SAMPLED, 0), None);
    assert_eq!(query(all, 3, Tiling::Linear, USAGE_SAMPLED, 0), None);
    assert_eq!(query(all, 0, Tiling::Linear, 0, 0), None);
}

#[test]
fn linear_image_has_one_level_and_one_layer() {
    let all = props(0xC81, 0);
    assert_eq!(
        query(all, 2, Tiling::Linear, USAGE_SAMPLED, 0),
        Some(limits((16384, 16384, 1), 1, 1, 0x1))
    );
    assert_eq!(
        query(all, 2, Tiling::Linear, USAGE_COLOR_ATTACHMENT, 0),
        Some(limits((16384, 16384, 1), 1, 1, 0x1))
    );
}

#[test]
fn usage_must_be_allowed_by_the_features_of_the_tiling() {
    // Sampled and blit source only, under optimal tiling.
    let sampled = props(0, 0x401);
    assert!(query(sampled, 2, Tiling::Optimal, USAGE_SAMPLED | USAGE_TRANSFER_SRC, 0).is_some());
    assert_eq!(query(sampled, 2, Tiling::Optimal, USAGE_TRANSFER_DST, 0), None);
    assert_eq!(query(sampled, 2, Tiling::Optimal, USAGE_STORAGE, 0), None);
    assert_eq!(query(sampled, 2, Tiling::Optimal, USAGE_COLOR_ATTACHMENT, 0), None);
    assert_eq!(query(sampled, 2, Tiling::Optimal, USAGE_DEPTH_STENCIL_ATTACHMENT, 0), None);
    assert_eq!(query(sampled, 2, Tiling::Optimal, USAGE_SAMPLED | USAGE_STORAGE, 0), None);
    // The features of the other tiling do not count.
    assert_eq!(query(sampled, 2, Tiling::Linear, USAGE_SAMPLED, 0), None);
    assert!(query(sampled, 2, Tiling::Linear, 0, 0).is_some());
    // Usages without a feature behind them are never allowed.
    let all = props(0x1F87, 0x1F87);
    assert_eq!(query(all, 2, Tiling::Optimal, USAGE_TRANSIENT_ATTACHMENT, 0), None);
    assert_eq!(query(all, 2, Tiling::Optimal, USAGE_INPUT_ATTACHMENT, 0), None);
    assert!(query(all, 2, Tiling::Optimal, 0x3F, 0).is_some());
}

#[test]
fn each_feature_allows_its_usage() {
    let pairs = [
        (0x400, USAGE_TRANSFER_SRC),
        (0x800, USAGE_TRANSFER_DST),
        (0x1, USAGE_SAMPLED),
        (0x2, USAGE_STORAGE),
        (0x80, USAGE_COLOR_ATTACHMENT),
        (0x200, USAGE_DEPTH_STENCIL_ATTACHMENT),
    ];
    for (feature, usage) in pairs {
        for (_, other) in pairs {
            let allowed = query(props(0, feature), 2, Tiling::Optimal, other, 0).is_some();
            assert_eq!(allowed, other == usage);
        }
    }
    // Features without a usage allow nothing but the empty usage.
    for feature in [0x4, 0x100, 0x1000] {
        for (_, usage) in pairs {
            assert_eq!(query(props(0, feature), 2, Tiling::Optimal, usage, 0), None);
        }
        assert!(query(props(0, feature), 2, Tiling::Optimal, 0, 0).is_some());
    }
}
