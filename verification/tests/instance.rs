use gfx_backend_dx12::features::Features;
use gfx_backend_dx12::format::{FormatSupport, Properties, NUM_FORMATS};
use gfx_backend_dx12::image::{Tiling, Usage, ViewCapabilities, USAGE_SAMPLED};
use gfx_backend_dx12::instance::{
    adapter_name, wide_name, AdapterOrder, AdapterProbe, DeviceType, Instance,
    ADAPTER_FLAG_SOFTWARE, CREATE_FACTORY_DEBUG,
};
use gfx_backend_dx12::limits::Limits;
use gfx_backend_dx12::memory::{
    heap_properties, memory_types, Capabilities, MemoryArchitecture, HOST_ACCESS,
};
use gfx_backend_dx12::native::Handle;
use gfx_backend_dx12::queue_family::{queue_families, QueueFamily, QueueFamilyId};
use gfx_backend_dx12::Backend;

fn description(name: &str) -> Vec<u16> {
    let mut units: Vec<u16> = name.encode_utf16().collect();
    units.resize(128, 0);
    units
}

fn probe(adapter: usize, name: &str) -> AdapterProbe {
    AdapterProbe {
        adapter: Handle(adapter),
        device_created: true,
        description: description(name),
        vendor_id: 0x10DE,
        device_id: 0x1B80,
        flags: 0,
        resource_heap_tier: Some(2),
        architecture: Some((0, 0)),
        depth_bounds_test: Some(1),
        local_budget: 8 << 30,
        non_local_budget: 16 << 30,
    }
}

#[test]
fn name_ends_before_the_first_zero() {
    assert_eq!(wide_name(&vec![65, 66, 0, 67]), vec![65, 66]);
    assert_eq!(wide_name(&vec![65, 66, 67]), vec![65, 66, 67]);
    assert_eq!(wide_name(&vec![0, 65]), Vec::<u16>::new());
    assert_eq!(wide_name(&Vec::new()), Vec::<u16>::new());
    assert_eq!(wide_name(&vec![7, 0, 0, 9, 0]), vec![7]);
    let name = wide_name(&description("Radeon RX 580"));
    assert_eq!(String::from_utf16_lossy(&name), "Radeon RX 580");
}

#[test]
fn name_is_decoded_from_utf16() {
    assert_eq!(adapter_name(&description("Radeon RX 580")), "Radeon RX 580");
    assert_eq!(adapter_name(&vec![0x47, 0x50, 0x55, 0, 0x58]), "GPU");
    assert_eq!(adapter_name(&Vec::new()), "");
    // A surrogate pair is one character; a lone surrogate is replaced.
    assert_eq!(adapter_name(&vec![0xD834, 0xDD1E, 0x21]), "\u{1D11E}!");
    assert_eq!(adapter_name(&vec![0x41, 0xD800, 0x42, 0]), "A\u{FFFD}B");
    assert_eq!(adapter_name(&vec![0xDC00]), "\u{FFFD}");
    assert_eq!(adapter_name(&description("Gr\u{E4}fik \u{30AB}\u{30FC}\u{30C9}")), "Gr\u{E4}fik \u{30AB}\u{30FC}\u{30C9}");
}

#[test]
fn factory_is_created_with_debugging_only_if_available() {
    assert_eq!(Instance::factory_flags(true), CREATE_FACTORY_DEBUG);
    assert_eq!(Instance::factory_flags(true), 1);
    assert_eq!(Instance::factory_flags(false), 0);
}

#[test]
fn adapters_are_listed_fastest_first_where_possible() {
    assert_eq!(Instance::adapter_order(true), AdapterOrder::ByPreference(2));
    assert_eq!(Instance::adapter_order(false), AdapterOrder::Platform);
}

#[test]
fn instance_keeps_its_factory() {
    let instance = Instance::create("application", 3, Handle(77));
    assert_eq!(instance.factory, Handle(77));
    assert_eq!(Backend::Dx12, Backend::Dx12);
}

#[test]
fn viable_probe_gives_an_adapter() {
    let adapter = probe(5, "GeForce GTX 1080").describe().unwrap();
    assert_eq!(adapter.info.name, "GeForce GTX 1080");
    assert_eq!(adapter.info.vendor, 0x10DE);
    assert_eq!(adapter.info.device, 0x1B80);
    assert_eq!(adapter.info.device_type, DeviceType::DiscreteGpu);
    assert_eq!(adapter.queue_families, queue_families());
    let physical = &adapter.physical_device;
    assert_eq!(physical.adapter(), Handle(5));
    assert!(!physical.is_open());
    assert_eq!(
        physical.private_caps(),
        Capabilities {
            heterogeneous_resource_heaps: true,
            memory_architecture: MemoryArchitecture::NUMA
        }
    );
    assert_eq!(physical.heap_properties(), heap_properties(MemoryArchitecture::NUMA));
    assert_eq!(physical.features(), Features::of_adapter(true));
    assert_eq!(physical.limits().max_image_2d_size, Limits::of_adapter().max_image_2d_size);
    let memory = physical.memory_properties();
    assert_eq!(memory.memory_types, memory_types(&physical.private_caps()));
    assert_eq!(memory.memory_heaps, vec![8 << 30, 16 << 30]);
}

#[test]
fn queue_families_of_an_adapter_are_in_id_order() {
    let adapter = probe(5, "adapter").describe().unwrap();
    assert_eq!(adapter.queue_families.len(), 4);
    for (position, family) in adapter.queue_families.iter().enumerate() {
        assert_eq!(family.id(), QueueFamilyId(position));
    }
    assert_eq!(adapter.queue_families[0], QueueFamily::Present);
}

#[test]
fn software_adapters_are_virtual() {
    let mut software = probe(1, "Microsoft Basic Render Driver");
    software.flags = ADAPTER_FLAG_SOFTWARE;
    assert_eq!(software.device_type(), DeviceType::VirtualGpu);
    assert_eq!(software.describe().unwrap().info.device_type, DeviceType::VirtualGpu);
    software.flags = 0xFFFF_FFFD;
    assert_eq!(software.device_type(), DeviceType::DiscreteGpu);
    software.flags = 0x3;
    assert_eq!(software.device_type(), DeviceType::VirtualGpu);
}

#[test]
fn failed_depth_bounds_probe_means_unsupported() {
    let mut p = probe(1, "a");
    p.depth_bounds_test = None;
    assert!(!p.depth_bounds());
    assert_eq!(p.describe().unwrap().physical_device.features(), Features::of_adapter(false));
    p.depth_bounds_test = Some(0);
    assert!(!p.depth_bounds());
    p.depth_bounds_test = Some(-1);
    assert!(p.depth_bounds());
    assert_eq!(p.describe().unwrap().physical_device.features(), Features::of_adapter(true));
}

#[test]
fn native_booleans_count_only_where_exactly_true() {
    let mut p = probe(1, "a");
    p.resource_heap_tier = Some(1);
    for (flags, expected) in [
        ((0, 0), MemoryArchitecture::NUMA),
        ((0, 1), MemoryArchitecture::NUMA),
        ((1, 0), MemoryArchitecture::UMA),
        ((1, 1), MemoryArchitecture::CacheCoherentUMA),
        ((2, 1), MemoryArchitecture::NUMA),
        ((1, 2), MemoryArchitecture::UMA),
        ((-1, -1), MemoryArchitecture::NUMA),
    ] {
        p.architecture = Some(flags);
        let caps = p.capabilities();
        assert_eq!(caps.memory_architecture, expected);
        assert!(!caps.heterogeneous_resource_heaps);
        let adapter = p.describe().unwrap();
        assert_eq!(adapter.physical_device.private_caps(), caps);
        let memory = adapter.physical_device.memory_properties();
        assert_eq!(memory.memory_types.len(), 12);
        assert_eq!(memory.memory_heaps.len(), expected.heap_count());
        assert_eq!(memory.memory_heaps[0], 8 << 30);
    }
}

#[test]
fn failed_probes_are_left_out_entirely() {
    let mut no_device = probe(1, "no device");
    no_device.device_created = false;
    let mut no_options = probe(2, "no options");
    no_options.resource_heap_tier = None;
    let mut no_architecture = probe(3, "no architecture");
    no_architecture.architecture = None;
    for failed in [&no_device, &no_options, &no_architecture] {
        assert!(!failed.viable());
        assert!(failed.describe().is_none());
    }
    let instance = Instance::create("", 0, Handle(0));
    let probes = vec![
        no_device,
        probe(10, "first"),
        no_options,
        no_architecture,
        probe(11, "second"),
        probe(12, "third"),
    ];
    let adapters = instance.enumerate_adapters(&probes);
    assert_eq!(adapters.len(), 3);
    let listed: Vec<Handle> = adapters.iter().map(|a| a.physical_device.adapter()).collect();
    assert_eq!(listed, vec![Handle(10), Handle(11), Handle(12)]);
    let names: Vec<String> = adapters.iter().map(|a| a.info.name.clone()).collect();
    assert_eq!(names, vec!["first", "second", "third"]);
}

#[test]
fn enumeration_of_nothing_lists_nothing() {
    let instance = Instance::create("", 0, Handle(0));
    assert!(instance.enumerate_adapters(&Vec::new()).is_empty());
    let mut failed = probe(1, "x");
    failed.device_created = false;
    assert!(instance.enumerate_adapters(&vec![failed]).is_empty());
}

#[test]
fn every_listed_adapter_has_a_well_formed_memory_model() {
    let instance = Instance::create("", 0, Handle(0));
    let mut probes = Vec::new();
    for tier in [1, 2, 3] {
        for architecture in [(0, 0), (1, 0), (1, 1)] {
            let mut p = probe(probes.len(), "adapter");
            p.resource_heap_tier = Some(tier);
            p.architecture = Some(architecture);
            probes.push(p);
        }
    }
    let adapters = instance.enumerate_adapters(&probes);
    assert_eq!(adapters.len(), 9);
    for (adapter, p) in adapters.iter().zip(&probes) {
        let memory = adapter.physical_device.memory_properties();
        assert!(!memory.memory_types.is_empty());
        let tier1 = p.resource_heap_tier == Some(1);
        assert_eq!(memory.memory_types.len(), if tier1 { 12 } else { 3 });
        for (index, ty) in memory.memory_types.iter().enumerate() {
            assert!(ty.heap_index < memory.memory_heaps.len());
            if tier1 && index >= 6 {
                assert_eq!(ty.properties.bits & HOST_ACCESS, 0);
            }
        }
    }
}

#[test]
fn physical_device_remembers_format_properties() {
    let mut adapter = probe(1, "a").describe().unwrap();
    let physical = &mut adapter.physical_device;
    assert_eq!(physical.cached_format_properties(None), Some(Properties::empty()));
    assert_eq!(physical.format_properties(None, None), Properties::empty());
    let format = gfx_hal::format::Format::Rgba8Unorm as usize;
    assert!(format < NUM_FORMATS);
    assert_eq!(physical.cached_format_properties(Some(format)), None);
    let native = Some(FormatSupport { support1: 0x20, support2: 0 });
    let first = physical.format_properties(Some(format), native);
    assert_eq!(first.optimal_tiling.bits, 0x401);
    assert_eq!(first.linear_tiling.bits, 0x401);
    assert_eq!(physical.cached_format_properties(Some(format)), Some(first));
    assert_eq!(physical.format_properties(Some(format), None), first);
}

#[test]
fn image_format_properties_of_a_physical_device() {
    let mut adapter = probe(1, "a").describe().unwrap();
    let physical = &mut adapter.physical_device;
    let format = gfx_hal::format::Format::Bc3Unorm as usize;
    let sampled = Usage::from_bits(USAGE_SAMPLED);
    let caps = ViewCapabilities::from_bits(0);
    // A format without a native counterpart has no image properties, and
    // nothing is remembered of it.
    assert_eq!(
        physical.image_format_properties(format, None, 2, Tiling::Optimal, sampled, caps),
        None
    );
    assert_eq!(physical.cached_format_properties(Some(format)), None);
    let native = Some(FormatSupport { support1: 0x20, support2: 0 });
    let optimal = physical
        .image_format_properties(format, native, 2, Tiling::Optimal, sampled, caps)
        .unwrap();
    assert_eq!(optimal.max_extent.width, 16384);
    assert_eq!(optimal.max_levels, 15);
    assert_eq!(optimal.max_layers, 2048);
    assert_eq!(optimal.sample_count_mask, 1);
    assert_eq!(optimal.max_resource_size, 128 << 20);
    assert!(physical.cached_format_properties(Some(format)).is_some());
    // The format is compressed in blocks, so it has no linear tiling.
    assert_eq!(
        physical.image_format_properties(format, native, 2, Tiling::Linear, sampled, caps),
        None
    );
}
