use gfx_backend_dx12::queue_family::{queue_families, CmdListType, QueueFamily, QueueFamilyId, QueueType};

#[test]
fn family_ids_are_table_positions() {
    let families = queue_families();
    assert_eq!(families.len(), 4);
    for (position, family) in families.iter().enumerate() {
        assert_eq!(family.id(), QueueFamilyId(position));
        assert_eq!(family.id(), family.id());
    }
    assert_eq!(QueueFamily::Present.id(), QueueFamilyId(0));
    assert_eq!(QueueFamily::Normal(QueueType::General).id(), QueueFamilyId(1));
    assert_eq!(QueueFamily::Normal(QueueType::Compute).id(), QueueFamilyId(2));
    assert_eq!(QueueFamily::Normal(QueueType::Transfer).id(), QueueFamilyId(3));
}

#[test]
fn present_family_is_a_single_general_queue() {
    assert_eq!(QueueFamily::Present.queue_type(), QueueType::General);
    assert_eq!(QueueFamily::Present.max_queues(), 1);
    assert_eq!(QueueFamily::Present.native_type(), CmdListType::Direct);
}

#[test]
fn normal_families_map_to_native_list_types() {
    assert_eq!(QueueFamily::Normal(QueueType::General).native_type(), CmdListType::Direct);
    assert_eq!(QueueFamily::Normal(QueueType::Graphics).native_type(), CmdListType::Direct);
    assert_eq!(QueueFamily::Normal(QueueType::Compute).native_type(), CmdListType::Compute);
    assert_eq!(QueueFamily::Normal(QueueType::Transfer).native_type(), CmdListType::Copy);
    assert_eq!(QueueFamily::Normal(QueueType::Compute).max_queues(), 16);
    assert_eq!(QueueFamily::Normal(QueueType::Compute).queue_type(), QueueType::Compute);
}

#[test]
fn graphics_only_family_is_not_exposed() {
    assert!(!QueueFamily::Normal(QueueType::Graphics).exposed());
    for family in queue_families() {
        assert!(family.exposed());
    }
}
