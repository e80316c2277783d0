use gfx_backend_dx12::format::{
    resolve, resolve_slot, BufferFeature, FormatProperties, FormatSupport, ImageFeature,
    Properties, BUFFER_STORAGE_TEXEL, BUFFER_STORAGE_TEXEL_ATOMIC, BUFFER_UNIFORM_TEXEL,
    BUFFER_VERTEX, IMAGE_BLIT_DST, IMAGE_BLIT_SRC, IMAGE_COLOR_ATTACHMENT,
    IMAGE_COLOR_ATTACHMENT_BLEND, IMAGE_DEPTH_STENCIL_ATTACHMENT, IMAGE_SAMPLED,
    IMAGE_SAMPLED_LINEAR, IMAGE_STORAGE, IMAGE_STORAGE_ATOMIC, NUM_FORMATS, SUPPORT1_BLENDABLE,
    SUPPORT1_BUFFER, SUPPORT1_DEPTH_STENCIL, SUPPORT1_IA_VERTEX_BUFFER, SUPPORT1_RENDER_TARGET,
    SUPPORT1_SHADER_LOAD, SUPPORT1_SHADER_SAMPLE, SUPPORT1_TEXTURE1D, SUPPORT1_TEXTURE2D,
    SUPPORT1_TEXTURE3D, SUPPORT1_TEXTURECUBE, SUPPORT2_UAV_ATOMIC_ADD, SUPPORT2_UAV_TYPED_STORE,
};
use gfx_hal::format as hal;

fn props(linear: u32, optimal: u32, buffer: u32) -> Properties {
    Properties {
        linear_tiling: ImageFeature { bits: linear },
        optimal_tiling: ImageFeature { bits: optimal },
        buffer_features: BufferFeature { bits: buffer },
    }
}

fn support(support1: u32, support2: u32) -> FormatSupport {
    FormatSupport { support1, support2 }
}

#[test]
fn format_feature_bits_match_the_abstraction_layer() {
    assert_eq!(NUM_FORMATS, hal::NUM_FORMATS);
    assert_eq!(NUM_FORMATS - 1, hal::BASE_FORMATS.len());
    assert_eq!(IMAGE_SAMPLED, hal::ImageFeature::SAMPLED.bits());
    assert_eq!(IMAGE_STORAGE, hal::ImageFeature::STORAGE.bits());
    assert_eq!(IMAGE_STORAGE_ATOMIC, hal::ImageFeature::STORAGE_ATOMIC.bits());
    assert_eq!(IMAGE_COLOR_ATTACHMENT, hal::ImageFeature::COLOR_ATTACHMENT.bits());
    assert_eq!(IMAGE_COLOR_ATTACHMENT_BLEND, hal::ImageFeature::COLOR_ATTACHMENT_BLEND.bits());
    assert_eq!(
        IMAGE_DEPTH_STENCIL_ATTACHMENT,
        hal::ImageFeature::DEPTH_STENCIL_ATTACHMENT.bits()
    );
    assert_eq!(IMAGE_BLIT_SRC, hal::ImageFeature::BLIT_SRC.bits());
    assert_eq!(IMAGE_BLIT_DST, hal::ImageFeature::BLIT_DST.bits());
    assert_eq!(IMAGE_SAMPLED_LINEAR, hal::ImageFeature::SAMPLED_LINEAR.bits());
    assert_eq!(BUFFER_UNIFORM_TEXEL, hal::BufferFeature::UNIFORM_TEXEL.bits());
    assert_eq!(BUFFER_STORAGE_TEXEL, hal::BufferFeature::STORAGE_TEXEL.bits());
    assert_eq!(BUFFER_STORAGE_TEXEL_ATOMIC, hal::BufferFeature::STORAGE_TEXEL_ATOMIC.bits());
    assert_eq!(BUFFER_VERTEX, hal::BufferFeature::VERTEX.bits());
    let empty = hal::Properties::default();
    assert_eq!(Properties::empty(), props(0, 0, 0));
    assert_eq!(empty.linear_tiling.bits(), 0);
    assert_eq!(empty.optimal_tiling.bits(), 0);
    assert_eq!(empty.buffer_features.bits(), 0);
}

#[test]
fn native_support_bits() {
    assert_eq!(SUPPORT1_BUFFER, 0x1);
    assert_eq!(SUPPORT1_IA_VERTEX_BUFFER, 0x2);
    assert_eq!(SUPPORT1_TEXTURE1D, 0x10);
    assert_eq!(SUPPORT1_TEXTURE2D, 0x20);
    assert_eq!(SUPPORT1_TEXTURE3D, 0x40);
    assert_eq!(SUPPORT1_TEXTURECUBE, 0x80);
    assert_eq!(SUPPORT1_SHADER_LOAD, 0x100);
    assert_eq!(SUPPORT1_SHADER_SAMPLE, 0x200);
    assert_eq!(SUPPORT1_RENDER_TARGET, 0x4000);
    assert_eq!(SUPPORT1_BLENDABLE, 0x8000);
    assert_eq!(SUPPORT1_DEPTH_STENCIL, 0x10000);
    assert_eq!(SUPPORT2_UAV_ATOMIC_ADD, 0x1);
    assert_eq!(SUPPORT2_UAV_TYPED_STORE, 0x80);
}

#[test]
fn no_support_gives_no_features() {
    assert_eq!(Properties::from_support(support(0, 0), false), props(0, 0, 0));
    assert_eq!(Properties::from_support(support(0, 0), true), props(0, 0, 0));
    // Bits that the derivation does not look at change nothing.
    assert_eq!(Properties::from_support(support(0x0C, 0x7E), false), props(0, 0, 0));
}

#[test]
fn every_texture_dimension_makes_an_image() {
    for bit in [SUPPORT1_TEXTURE1D, SUPPORT1_TEXTURE2D, SUPPORT1_TEXTURE3D, SUPPORT1_TEXTURECUBE] {
        assert_eq!(Properties::from_support(support(bit, 0), false), props(0x401, 0x401, 0));
        assert_eq!(Properties::from_support(support(bit, 0), true), props(0, 0x401, 0));
    }
}

#[test]
fn each_support_bit_maps_to_its_features() {
    let image = SUPPORT1_TEXTURE2D;
    // Vertex buffers do not need buffer support.
    assert_eq!(
        Properties::from_support(support(SUPPORT1_IA_VERTEX_BUFFER, 0), false),
        props(0, 0, 0x40)
    );
    // Linear sampling is granted without image support.
    assert_eq!(
        Properties::from_support(support(SUPPORT1_SHADER_SAMPLE, 0), false),
        props(0, 0x1000, 0)
    );
    assert_eq!(
        Properties::from_support(support(image | SUPPORT1_SHADER_SAMPLE, 0), false),
        props(0x401, 0x1401, 0)
    );
    // A render target is a color attachment and a blit destination; with
    // linear tiling only where the format is linear-eligible.
    assert_eq!(
        Properties::from_support(support(SUPPORT1_RENDER_TARGET, 0), false),
        props(0, 0x880, 0)
    );
    assert_eq!(
        Properties::from_support(support(image | SUPPORT1_RENDER_TARGET, 0), false),
        props(0xC81, 0xC81, 0)
    );
    assert_eq!(
        Properties::from_support(support(image | SUPPORT1_RENDER_TARGET, 0), true),
        props(0, 0xC81, 0)
    );
    assert_eq!(
        Properties::from_support(support(SUPPORT1_BLENDABLE, 0), false),
        props(0, 0x100, 0)
    );
    assert_eq!(
        Properties::from_support(support(SUPPORT1_DEPTH_STENCIL, 0), false),
        props(0, 0x200, 0)
    );
    // Shader loads count for buffers only.
    assert_eq!(Properties::from_support(support(SUPPORT1_SHADER_LOAD, 0), false), props(0, 0, 0));
    assert_eq!(
        Properties::from_support(support(image | SUPPORT1_SHADER_LOAD, 0), false),
        props(0x401, 0x401, 0)
    );
    assert_eq!(
        Properties::from_support(support(SUPPORT1_BUFFER | SUPPORT1_SHADER_LOAD, 0), false),
        props(0, 0, 0x8)
    );
}

#[test]
fn unordered_access_bits_need_a_buffer_or_an_image() {
    let atomic = SUPPORT2_UAV_ATOMIC_ADD;
    let store = SUPPORT2_UAV_TYPED_STORE;
    assert_eq!(Properties::from_support(support(0, atomic | store), false), props(0, 0, 0));
    assert_eq!(
        Properties::from_support(support(SUPPORT1_BUFFER, atomic), false),
        props(0, 0, 0x20)
    );
    assert_eq!(
        Properties::from_support(support(SUPPORT1_BUFFER, store), false),
        props(0, 0, 0x10)
    );
    assert_eq!(
        Properties::from_support(support(SUPPORT1_TEXTURE3D, atomic), false),
        props(0x401, 0x405, 0)
    );
    assert_eq!(
        Properties::from_support(support(SUPPORT1_TEXTURE3D, store), false),
        props(0x401, 0x403, 0)
    );
    assert_eq!(
        Properties::from_support(support(SUPPORT1_BUFFER | SUPPORT1_TEXTURE1D, atomic | store), true),
        props(0, 0x407, 0x30)
    );
}

#[test]
fn full_support_gives_every_feature() {
    let all = Properties::from_support(support(u32::MAX, u32::MAX), false);
    assert_eq!(all, props(0xC81, 0x1F87, 0x78));
    let all = hal::Properties {
        linear_tiling: hal::ImageFeature::from_bits(all.linear_tiling.bits).unwrap(),
        optimal_tiling: hal::ImageFeature::from_bits(all.optimal_tiling.bits).unwrap(),
        buffer_features: hal::BufferFeature::from_bits(all.buffer_features.bits).unwrap(),
    };
    assert_eq!(all.optimal_tiling, hal::ImageFeature::all());
    assert_eq!(all.buffer_features, hal::BufferFeature::all());
}

#[test]
fn feature_sets_contain_their_members() {
    let set = ImageFeature::from_bits(0xC81);
    assert!(set.contains(ImageFeature::from_bits(IMAGE_BLIT_SRC | IMAGE_SAMPLED)));
    assert!(set.contains(ImageFeature::from_bits(0)));
    assert!(!set.contains(ImageFeature::from_bits(IMAGE_STORAGE)));
    assert!(!set.contains(ImageFeature::from_bits(IMAGE_SAMPLED | IMAGE_STORAGE)));
    let set = BufferFeature::from_bits(0x48);
    assert!(set.contains(BufferFeature::from_bits(BUFFER_VERTEX)));
    assert!(!set.contains(BufferFeature::from_bits(BUFFER_STORAGE_TEXEL)));
}

#[test]
fn block_compressed_formats_are_not_linear() {
    let native = Some(support(SUPPORT1_TEXTURE2D | SUPPORT1_RENDER_TARGET, 0));
    let plain = hal::Format::Rgba8Unorm as usize;
    let compressed = hal::Format::Bc1RgbUnorm as usize;
    assert_eq!(resolve(plain, native), props(0xC81, 0xC81, 0));
    assert_eq!(resolve(compressed, native), props(0, 0xC81, 0));
    assert_eq!(resolve(hal::Format::Astc12x12Srgb as usize, native), props(0, 0xC81, 0));
    assert_eq!(resolve(hal::Format::Rg4Unorm as usize, native), props(0xC81, 0xC81, 0));
    assert_eq!(resolve(hal::Format::D32SfloatS8Uint as usize, native), props(0xC81, 0xC81, 0));
    assert_eq!(resolve(compressed, None), props(0, 0, 0));
}

#[test]
fn linear_tiling_follows_the_block_size_of_every_format() {
    let native = Some(support(SUPPORT1_TEXTURE2D, 0));
    let mut compressed = 0;
    for index in 1..NUM_FORMATS {
        let desc = hal::BASE_FORMATS[index - 1].0.desc();
        let expected = if desc.is_compressed() { 0 } else { 0x401 };
        if desc.is_compressed() {
            compressed += 1;
        }
        assert_eq!(resolve(index, native), props(expected, 0x401, 0));
    }
    assert_eq!(compressed, 54);
}

#[test]
fn new_table_remembers_only_the_undefined_format() {
    let table = FormatProperties::new();
    assert_eq!(table.cached(0), Some(Properties::empty()));
    for index in 1..NUM_FORMATS {
        assert_eq!(table.cached(index), None);
    }
}

#[test]
fn table_remembers_the_first_answer() {
    let mut table = FormatProperties::new();
    let index = hal::Format::Rgba8Unorm as usize;
    let first = table.get(index, Some(support(SUPPORT1_TEXTURE2D, 0)));
    assert_eq!(first, props(0x401, 0x401, 0));
    assert_eq!(table.cached(index), Some(first));
    // A later answer of the native side is not looked at.
    assert_eq!(table.get(index, Some(support(SUPPORT1_BUFFER, SUPPORT2_UAV_TYPED_STORE))), first);
    assert_eq!(table.get(index, None), first);
    assert_eq!(table.cached(index), Some(first));
    // Other slots are untouched.
    assert_eq!(table.cached(index + 1), None);
    assert_eq!(table.cached(0), Some(Properties::empty()));
}

#[test]
fn table_remembers_formats_without_native_counterpart() {
    let mut table = FormatProperties::new();
    assert_eq!(table.get(7, None), Properties::empty());
    assert_eq!(table.cached(7), Some(Properties::empty()));
    assert_eq!(table.get(7, Some(support(u32::MAX, u32::MAX))), Properties::empty());
}

#[test]
fn undefined_format_has_no_features() {
    let mut table = FormatProperties::new();
    assert_eq!(table.get(0, Some(support(u32::MAX, u32::MAX))), Properties::empty());
    assert_eq!(table.get(0, None), Properties::empty());
}

#[test]
fn repeated_questions_get_identical_answers() {
    let mut table = FormatProperties::new();
    let native = Some(support(SUPPORT1_TEXTURE2D | SUPPORT1_BUFFER | SUPPORT1_SHADER_LOAD, 0x81));
    let index = hal::Format::R32Uint as usize;
    let answers: Vec<Properties> = (0..8).map(|_| table.get(index, native)).collect();
    for answer in &answers {
        assert_eq!(*answer, props(0x401, 0x407, 0x38));
    }
}

#[test]
fn single_slot_is_filled_once() {
    let mut slot = None;
    let index = hal::Format::Bc7Srgb as usize;
    let first = resolve_slot(&mut slot, index, Some(support(SUPPORT1_TEXTURECUBE, 0)));
    assert_eq!(first, props(0, 0x401, 0));
    assert_eq!(slot, Some(first));
    assert_eq!(resolve_slot(&mut slot, index, None), first);
    let mut undefined = Some(Properties::empty());
    assert_eq!(resolve_slot(&mut undefined, 0, None), Properties::empty());
}
