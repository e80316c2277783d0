//! The memory model of an adapter: its memory types and heaps, synthesised
//! from the resource-heap tier and the memory architecture.
//!
//! Every adapter has three base memory types, one for each heap role
//! (default, upload, readback). An adapter whose heaps can hold resources of
//! every kind exposes exactly these. An adapter of the first heap tier needs
//! a heap per kind of resource, so the three base types are repeated once for
//! each usage group, and the groups for images and for targets lose the flags
//! that describe host access: such heaps cannot be mapped.

use vstd::prelude::*;

verus! {

/// Memory is local to the device.
pub const DEVICE_LOCAL: u16 = 0x1;

/// Memory can be mapped by the host.
pub const CPU_VISIBLE: u16 = 0x2;

/// Host and device see each other's writes without explicit flushes.
pub const COHERENT: u16 = 0x4;

/// Memory is cached on the host.
pub const CPU_CACHED: u16 = 0x8;

/// Memory may be allocated lazily; never visible to the host.
pub const LAZILY_ALLOCATED: u16 = 0x10;

/// The three flags that describe host access.
pub const HOST_ACCESS: u16 = 0xE;

/// Number of heap roles, and so of base memory types.
pub const NUM_HEAP_PROPERTIES: usize = 3;

/// Number of usage groups on an adapter of the first heap tier.
pub const NUM_MEMORY_GROUPS: usize = 4;

/// Value of the native resource-heap tier that needs a heap per resource kind.
pub const RESOURCE_HEAP_TIER_1: u32 = 1;

/// A set of memory property flags.
#[derive(Clone, Copy, Debug, PartialEq, Eq, Hash, Structural)]
pub struct Properties {
    pub bits: u16,
}

impl Properties {
    /// Whether every flag of `other` is in the set.
    pub open spec fn spec_contains(&self, other: Properties) -> bool {
        self.bits & other.bits == other.bits
    }

    /// The set with the flags of `other` taken out.
    pub open spec fn spec_difference(&self, other: Properties) -> Properties {
        Properties { bits: self.bits & !other.bits }
    }

    /// The set with every host-access flag taken out, one flag after another.
    pub open spec fn spec_device_only(&self) -> Properties {
        self.spec_difference(Properties { bits: CPU_VISIBLE }).spec_difference(
            Properties { bits: COHERENT },
        ).spec_difference(Properties { bits: CPU_CACHED })
    }

    /// Whether the set holds none of the host-access flags.
    pub open spec fn host_free(&self) -> bool {
        &&& self.bits & CPU_VISIBLE == 0
        &&& self.bits & COHERENT == 0
        &&& self.bits & CPU_CACHED == 0
    }

    /// Whether coherent and cached appear only together with host-visible.
    pub open spec fn host_consistent(&self) -> bool {
        (self.bits & COHERENT != 0 || self.bits & CPU_CACHED != 0) ==> self.bits & CPU_VISIBLE
            != 0
    }

    /// The set with exactly the given bits.
    pub fn from_bits(bits: u16) -> (set: Properties)
        ensures
            set.bits == bits,
    {
        Properties { bits }
    }

    /// Whether every flag of `other` is in the set.
    #[verifier::when_used_as_spec(spec_contains)]
    pub fn contains(&self, other: Properties) -> (yes: bool)
        ensures
            yes == self.spec_contains(other),
    {
        self.bits & other.bits == other.bits
    }

    /// The set with the flags of `other` taken out.
    #[verifier::when_used_as_spec(spec_difference)]
    pub fn difference(&self, other: Properties) -> (set: Properties)
        ensures
            set == self.spec_difference(other),
    {
        Properties { bits: self.bits & !other.bits }
    }

    /// Takes the three host-access flags out of the set.
    #[verifier::when_used_as_spec(spec_device_only)]
    pub fn device_only(&self) -> (set: Properties)
        ensures
            set == self.spec_device_only(),
            set.host_free(),
            set.bits == self.bits & !HOST_ACCESS,
    {
        proof {
            lemma_strip_host_access(*self);
        }
        self.difference(Properties { bits: CPU_VISIBLE }).difference(
            Properties { bits: COHERENT },
        ).difference(Properties { bits: CPU_CACHED })
    }
}

/// Taking out the three host-access flags one by one removes exactly the
/// host-access mask, and leaves none of the three behind.
pub proof fn lemma_strip_host_access(set: Properties)
    ensures
        set.spec_device_only().bits == set.bits & !HOST_ACCESS,
        set.spec_device_only().host_free(),
        set.bits & HOST_ACCESS == 0 ==> set.spec_device_only() == set,
{
    let bits = set.bits;
    let stripped: u16 = ((bits & !CPU_VISIBLE) & !COHERENT) & !CPU_CACHED;
    assert(stripped == bits & !0xEu16 && stripped & 0x2u16 == 0 && stripped & 0x4u16 == 0
        && stripped & 0x8u16 == 0 && (bits & 0xEu16 == 0 ==> stripped == bits)) by (bit_vector)
        requires
            stripped == ((bits & !0x2u16) & !0x4u16) & !0x8u16,
    ;
}

/// How the host and the device share memory.
#[derive(Clone, Copy, Debug, PartialEq, Eq, Structural)]
pub enum MemoryArchitecture {
    /// Device memory is separate from host memory.
    NUMA,
    /// Host and device share one memory.
    UMA,
    /// Host and device share one memory, and host caches stay coherent.
    CacheCoherentUMA,
}

impl MemoryArchitecture {
    /// The architecture that the two flags of a device stand for.
    pub open spec fn spec_classify(uma: bool, cache_coherent_uma: bool) -> MemoryArchitecture {
        if !uma {
            MemoryArchitecture::NUMA
        } else if cache_coherent_uma {
            MemoryArchitecture::CacheCoherentUMA
        } else {
            MemoryArchitecture::UMA
        }
    }

    /// Number of memory heaps: the local one, and for separate device memory
    /// the non-local one as well.
    pub open spec fn spec_heap_count(&self) -> usize {
        match *self {
            MemoryArchitecture::NUMA => 2,
            _ => 1,
        }
    }

    /// Classifies the architecture from the two flags the device reports.
    /// The coherence flag only counts on unified memory.
    #[verifier::when_used_as_spec(spec_classify)]
    pub fn classify(uma: bool, cache_coherent_uma: bool) -> (arch: MemoryArchitecture)
        ensures
            arch == Self::spec_classify(uma, cache_coherent_uma),
    {
        match (uma, cache_coherent_uma) {
            (true, true) => MemoryArchitecture::CacheCoherentUMA,
            (true, false) => MemoryArchitecture::UMA,
            (false, _) => MemoryArchitecture::NUMA,
        }
    }

    /// Number of memory heaps of the architecture.
    #[verifier::when_used_as_spec(spec_heap_count)]
    pub fn heap_count(&self) -> (n: usize)
        ensures
            n == self.spec_heap_count(),
            1 <= n <= 2,
    {
        match *self {
            MemoryArchitecture::NUMA => 2,
            _ => 1,
        }
    }
}

/// What an adapter's memory can do, derived once per adapter.
#[derive(Clone, Copy, Debug, PartialEq, Eq, Structural)]
pub struct Capabilities {
    /// Whether one heap can hold buffers, images and targets alike.
    pub heterogeneous_resource_heaps: bool,
    pub memory_architecture: MemoryArchitecture,
}

impl Capabilities {
    /// The capabilities that follow from the heap tier and the two
    /// architecture flags.
    pub open spec fn spec_new(resource_heap_tier: u32, uma: bool, cache_coherent_uma: bool)
        -> Capabilities {
        Capabilities {
            heterogeneous_resource_heaps: resource_heap_tier != RESOURCE_HEAP_TIER_1,
            memory_architecture: MemoryArchitecture::spec_classify(uma, cache_coherent_uma),
        }
    }

    /// Derives the capabilities from the native heap tier and the two
    /// architecture flags. Every tier but the first has heterogeneous heaps.
    #[verifier::when_used_as_spec(spec_new)]
    pub fn new(resource_heap_tier: u32, uma: bool, cache_coherent_uma: bool) -> (caps:
        Capabilities)
        ensures
            caps == Self::spec_new(resource_heap_tier, uma, cache_coherent_uma),
    {
        Capabilities {
            heterogeneous_resource_heaps: resource_heap_tier != RESOURCE_HEAP_TIER_1,
            memory_architecture: MemoryArchitecture::classify(uma, cache_coherent_uma),
        }
    }
}

/// How the host reaches the pages of a heap.
#[derive(Clone, Copy, Debug, PartialEq, Eq, Structural)]
pub enum CpuPageProperty {
    NotAvailable,
    WriteCombine,
    WriteBack,
}

/// The native pool a heap is allocated from.
#[derive(Clone, Copy, Debug, PartialEq, Eq, Structural)]
pub enum MemoryPool {
    /// System memory.
    L0,
    /// Video memory.
    L1,
}

/// The role a heap plays.
#[derive(Clone, Copy, Debug, PartialEq, Eq, Structural)]
pub enum HeapRole {
    /// Device access only.
    Default,
    /// Written by the host, read by the device.
    Upload,
    /// Written by the device, read by the host.
    Readback,
}

impl HeapRole {
    /// The role at a position of a table; positions past the last give the
    /// last role.
    pub open spec fn spec_from_index(index: int) -> HeapRole {
        if index == 0 {
            HeapRole::Default
        } else if index == 1 {
            HeapRole::Upload
        } else {
            HeapRole::Readback
        }
    }

    /// Position of the role in a table of heap properties or base types.
    pub open spec fn spec_index(&self) -> usize {
        match *self {
            HeapRole::Default => 0,
            HeapRole::Upload => 1,
            HeapRole::Readback => 2,
        }
    }

    /// Position of the role in a table of heap properties or base types.
    #[verifier::when_used_as_spec(spec_index)]
    pub fn index(&self) -> (i: usize)
        ensures
            i == self.spec_index(),
            i < NUM_HEAP_PROPERTIES,
            Self::spec_from_index(i as int) == *self,
    {
        match *self {
            HeapRole::Default => 0,
            HeapRole::Upload => 1,
            HeapRole::Readback => 2,
        }
    }
}

/// Native properties of a custom heap.
#[derive(Clone, Copy, Debug, PartialEq, Eq, Structural)]
pub struct HeapProperties {
    pub page_property: CpuPageProperty,
    pub memory_pool: MemoryPool,
}

/// The native heap properties of a role under an architecture.
pub open spec fn heap_properties_of(arch: MemoryArchitecture, role: HeapRole) -> HeapProperties {
    match role {
        HeapRole::Default => HeapProperties {
            page_property: CpuPageProperty::NotAvailable,
            memory_pool: match arch {
                MemoryArchitecture::NUMA => MemoryPool::L1,
                _ => MemoryPool::L0,
            },
        },
        HeapRole::Upload => HeapProperties {
            page_property: match arch {
                MemoryArchitecture::CacheCoherentUMA => CpuPageProperty::WriteBack,
                _ => CpuPageProperty::WriteCombine,
            },
            memory_pool: MemoryPool::L0,
        },
        HeapRole::Readback => HeapProperties {
            page_property: CpuPageProperty::WriteBack,
            memory_pool: MemoryPool::L0,
        },
    }
}

/// The table of heap properties of an architecture, by role.
pub open spec fn heap_properties_spec(arch: MemoryArchitecture) -> Seq<HeapProperties> {
    Seq::new(
        NUM_HEAP_PROPERTIES as nat,
        |i: int| heap_properties_of(arch, HeapRole::spec_from_index(i)),
    )
}

/// The table of heap properties of an architecture: default, upload,
/// readback.
pub fn heap_properties(arch: MemoryArchitecture) -> (table: [HeapProperties; 3])
    ensures
        table@ == heap_properties_spec(arch),
{
    let default_pool = match arch {
        MemoryArchitecture::NUMA => MemoryPool::L1,
        _ => MemoryPool::L0,
    };
    let upload_pages = match arch {
        MemoryArchitecture::CacheCoherentUMA => CpuPageProperty::WriteBack,
        _ => CpuPageProperty::WriteCombine,
    };
    let table = [
        HeapProperties { page_property: CpuPageProperty::NotAvailable, memory_pool: default_pool },
        HeapProperties { page_property: upload_pages, memory_pool: MemoryPool::L0 },
        HeapProperties { page_property: CpuPageProperty::WriteBack, memory_pool: MemoryPool::L0 },
    ];
    assert(table@ =~= heap_properties_spec(arch));
    table
}

/// One kind of memory an allocation can ask for.
#[derive(Clone, Copy, Debug, PartialEq, Eq, Structural)]
pub struct MemoryType {
    pub properties: Properties,
    /// Index of the heap the memory comes from.
    pub heap_index: usize,
}

/// Property flags of the base memory type of a role.
pub open spec fn base_properties(arch: MemoryArchitecture, role: HeapRole) -> Properties {
    match role {
        HeapRole::Default => Properties { bits: DEVICE_LOCAL },
        HeapRole::Upload => match arch {
            MemoryArchitecture::NUMA => Properties { bits: CPU_VISIBLE | COHERENT },
            MemoryArchitecture::UMA => Properties { bits: DEVICE_LOCAL | CPU_VISIBLE | COHERENT },
            MemoryArchitecture::CacheCoherentUMA => Properties {
                bits: DEVICE_LOCAL | CPU_VISIBLE | COHERENT | CPU_CACHED,
            },
        },
        HeapRole::Readback => match arch {
            MemoryArchitecture::NUMA => Properties { bits: CPU_VISIBLE | COHERENT | CPU_CACHED },
            _ => Properties { bits: DEVICE_LOCAL | CPU_VISIBLE | COHERENT | CPU_CACHED },
        },
    }
}

/// Heap of the base memory type of a role: with separate device memory the
/// host-visible types live in the second heap.
pub open spec fn base_heap_index(arch: MemoryArchitecture, role: HeapRole) -> usize {
    match (arch, role) {
        (MemoryArchitecture::NUMA, HeapRole::Upload) => 1,
        (MemoryArchitecture::NUMA, HeapRole::Readback) => 1,
        _ => 0,
    }
}

/// The base memory type of a role.
pub open spec fn base_memory_type(arch: MemoryArchitecture, role: HeapRole) -> MemoryType {
    MemoryType {
        properties: base_properties(arch, role),
        heap_index: base_heap_index(arch, role),
    }
}

/// The three base memory types of an architecture, by role.
pub open spec fn base_memory_types_spec(arch: MemoryArchitecture) -> Seq<MemoryType> {
    Seq::new(
        NUM_HEAP_PROPERTIES as nat,
        |i: int| base_memory_type(arch, HeapRole::spec_from_index(i)),
    )
}

/// The three base memory types of an architecture: default, upload,
/// readback.
pub fn base_memory_types(arch: MemoryArchitecture) -> (types: [MemoryType; 3])
    ensures
        types@ == base_memory_types_spec(arch),
{
    let types = match arch {
        MemoryArchitecture::NUMA => [
            MemoryType { properties: Properties { bits: DEVICE_LOCAL }, heap_index: 0 },
            MemoryType { properties: Properties { bits: CPU_VISIBLE | COHERENT }, heap_index: 1 },
            MemoryType {
                properties: Properties { bits: CPU_VISIBLE | COHERENT | CPU_CACHED },
                heap_index: 1,
            },
        ],
        MemoryArchitecture::UMA => [
            MemoryType { properties: Properties { bits: DEVICE_LOCAL }, heap_index: 0 },
            MemoryType {
                properties: Properties { bits: DEVICE_LOCAL | CPU_VISIBLE | COHERENT },
                heap_index: 0,
            },
            MemoryType {
                properties: Properties {
                    bits: DEVICE_LOCAL | CPU_VISIBLE | COHERENT | CPU_CACHED,
                },
                heap_index: 0,
            },
        ],
        MemoryArchitecture::CacheCoherentUMA => [
            MemoryType { properties: Properties { bits: DEVICE_LOCAL }, heap_index: 0 },
            MemoryType {
                properties: Properties {
                    bits: DEVICE_LOCAL | CPU_VISIBLE | COHERENT | CPU_CACHED,
                },
                heap_index: 0,
            },
            MemoryType {
                properties: Properties {
                    bits: DEVICE_LOCAL | CPU_VISIBLE | COHERENT | CPU_CACHED,
                },
                heap_index: 0,
            },
        ],
    };
    assert(types@ =~= base_memory_types_spec(arch));
    types
}

/// The kinds of resource a memory type of a first-tier adapter is good for.
#[derive(Clone, Copy, Debug, PartialEq, Eq, Structural)]
pub enum MemoryGroup {
    /// Every kind of resource. On a first-tier adapter the group is reserved.
    Universal,
    BufferOnly,
    ImageOnly,
    TargetOnly,
}

impl MemoryGroup {
    /// The group at a position; positions past the last give the last group.
    pub open spec fn spec_from_index(index: int) -> MemoryGroup {
        if index == 0 {
            MemoryGroup::Universal
        } else if index == 1 {
            MemoryGroup::BufferOnly
        } else if index == 2 {
            MemoryGroup::ImageOnly
        } else {
            MemoryGroup::TargetOnly
        }
    }

    /// Position of the group among the usage groups.
    pub open spec fn spec_index(&self) -> usize {
        match *self {
            MemoryGroup::Universal => 0,
            MemoryGroup::BufferOnly => 1,
            MemoryGroup::ImageOnly => 2,
            MemoryGroup::TargetOnly => 3,
        }
    }

    /// Whether memory of the group can keep its host-access flags. Heaps for
    /// images and targets cannot be mapped.
    pub open spec fn spec_host_mappable(&self) -> bool {
        match *self {
            MemoryGroup::ImageOnly => false,
            MemoryGroup::TargetOnly => false,
            _ => true,
        }
    }

    /// The group that the memory type at `type_index` belongs to on a
    /// first-tier adapter.
    pub open spec fn spec_of_memory_type(type_index: int) -> MemoryGroup {
        Self::spec_from_index(type_index / NUM_HEAP_PROPERTIES as int)
    }

    /// Position of the group among the usage groups.
    #[verifier::when_used_as_spec(spec_index)]
    pub fn index(&self) -> (i: usize)
        ensures
            i == self.spec_index(),
            i < NUM_MEMORY_GROUPS,
            Self::spec_from_index(i as int) == *self,
    {
        match *self {
            MemoryGroup::Universal => 0,
            MemoryGroup::BufferOnly => 1,
            MemoryGroup::ImageOnly => 2,
            MemoryGroup::TargetOnly => 3,
        }
    }

    /// The group at a position; positions past the last give the last group.
    pub fn from_index(index: usize) -> (group: MemoryGroup)
        ensures
            group == Self::spec_from_index(index as int),
            index < NUM_MEMORY_GROUPS ==> group.spec_index() == index,
    {
        if index == 0 {
            MemoryGroup::Universal
        } else if index == 1 {
            MemoryGroup::BufferOnly
        } else if index == 2 {
            MemoryGroup::ImageOnly
        } else {
            MemoryGroup::TargetOnly
        }
    }

    /// Whether memory of the group can keep its host-access flags.
    #[verifier::when_used_as_spec(spec_host_mappable)]
    pub fn host_mappable(&self) -> (yes: bool)
        ensures
            yes == self.spec_host_mappable(),
    {
        match *self {
            MemoryGroup::ImageOnly | MemoryGroup::TargetOnly => false,
            _ => true,
        }
    }

    /// The group of a memory type of a first-tier adapter, by its index.
    pub fn of_memory_type(type_index: usize) -> (group: MemoryGroup)
        ensures
            group == Self::spec_of_memory_type(type_index as int),
    {
        Self::from_index(type_index / NUM_HEAP_PROPERTIES)
    }
}

impl MemoryType {
    /// The memory type as it appears in a usage group.
    pub open spec fn spec_in_group(&self, group: MemoryGroup) -> MemoryType {
        if group.spec_host_mappable() {
            *self
        } else {
            MemoryType {
                properties: self.properties.spec_device_only(),
                heap_index: self.heap_index,
            }
        }
    }

    /// The memory type as it appears in a usage group: unchanged where the
    /// group can be mapped, without the host-access flags where it cannot.
    #[verifier::when_used_as_spec(spec_in_group)]
    pub fn in_group(&self, group: MemoryGroup) -> (ty: MemoryType)
        ensures
            ty == self.spec_in_group(group),
            ty.heap_index == self.heap_index,
            !group.spec_host_mappable() ==> ty.properties.host_free(),
    {
        if group.host_mappable() {
            *self
        } else {
            MemoryType { properties: self.properties.device_only(), heap_index: self.heap_index }
        }
    }
}

/// The base types as they appear in one usage group.
pub open spec fn group_memory_types(arch: MemoryArchitecture, group: MemoryGroup) -> Seq<
    MemoryType,
> {
    Seq::new(
        NUM_HEAP_PROPERTIES as nat,
        |i: int| base_memory_type(arch, HeapRole::spec_from_index(i)).spec_in_group(group),
    )
}

/// The memory types of an adapter, in the order of their identifiers.
pub open spec fn memory_types_spec(caps: Capabilities) -> Seq<MemoryType> {
    let arch = caps.memory_architecture;
    if caps.heterogeneous_resource_heaps {
        base_memory_types_spec(arch)
    } else {
        group_memory_types(arch, MemoryGroup::Universal) + group_memory_types(
            arch,
            MemoryGroup::BufferOnly,
        ) + group_memory_types(arch, MemoryGroup::ImageOnly) + group_memory_types(
            arch,
            MemoryGroup::TargetOnly,
        )
    }
}

/// The first `groups` usage groups, one after another.
pub open spec fn leading_groups(arch: MemoryArchitecture, groups: nat) -> Seq<MemoryType>
    decreases groups,
{
    if groups == 0 {
        Seq::empty()
    } else {
        leading_groups(arch, (groups - 1) as nat) + group_memory_types(
            arch,
            MemoryGroup::spec_from_index(groups - 1),
        )
    }
}

/// The memory types of an adapter, in the order of their identifiers: the
/// three base types where heaps are heterogeneous, else the base types once
/// for each usage group.
pub fn memory_types(caps: &Capabilities) -> (types: Vec<MemoryType>)
    ensures
        types@ == memory_types_spec(*caps),
        caps.heterogeneous_resource_heaps ==> types@.len() == NUM_HEAP_PROPERTIES,
        !caps.heterogeneous_resource_heaps ==> types@.len() == NUM_MEMORY_GROUPS
            * NUM_HEAP_PROPERTIES,
{
    let arch = caps.memory_architecture;
    let base = base_memory_types(arch);
    let mut types: Vec<MemoryType> = Vec::new();
    if caps.heterogeneous_resource_heaps {
        let mut k: usize = 0;
        while k < NUM_HEAP_PROPERTIES
            invariant
                k <= NUM_HEAP_PROPERTIES,
                base@ == base_memory_types_spec(arch),
                types@ == base_memory_types_spec(arch).take(k as int),
            decreases NUM_HEAP_PROPERTIES - k,
        {
            types.push(base[k]);
            assert(types@ =~= base_memory_types_spec(arch).take(k + 1));
            k += 1;
        }
        assert(types@ =~= base_memory_types_spec(arch));
    } else {
        let mut g: usize = 0;
        while g < NUM_MEMORY_GROUPS
            invariant
                g <= NUM_MEMORY_GROUPS,
                base@ == base_memory_types_spec(arch),
                types@ == leading_groups(arch, g as nat),
            decreases NUM_MEMORY_GROUPS - g,
        {
            let group = MemoryGroup::from_index(g);
            let ghost before = types@;
            let mut k: usize = 0;
            while k < NUM_HEAP_PROPERTIES
                invariant
                    k <= NUM_HEAP_PROPERTIES,
                    base@ == base_memory_types_spec(arch),
                    types@ == before + group_memory_types(arch, group).take(k as int),
                decreases NUM_HEAP_PROPERTIES - k,
            {
                let ty = base[k].in_group(group);
                types.push(ty);
                assert(types@ =~= before + group_memory_types(arch, group).take(k + 1));
                k += 1;
            }
            assert(group_memory_types(arch, group).take(NUM_HEAP_PROPERTIES as int)
                =~= group_memory_types(arch, group));
            assert(leading_groups(arch, (g + 1) as nat) == leading_groups(arch, g as nat)
                + group_memory_types(arch, MemoryGroup::spec_from_index(g as int)));
            g += 1;
        }
        proof {
            lemma_leading_groups_all(arch);
        }
    }
    types
}

/// All four usage groups, one after another, are the memory types of a
/// first-tier adapter.
pub proof fn lemma_leading_groups_all(arch: MemoryArchitecture)
    ensures
        leading_groups(arch, NUM_MEMORY_GROUPS as nat) == memory_types_spec(
            Capabilities { heterogeneous_resource_heaps: false, memory_architecture: arch },
        ),
{
    reveal_with_fuel(leading_groups, 5);
    assert(leading_groups(arch, 0) + group_memory_types(arch, MemoryGroup::Universal)
        =~= group_memory_types(arch, MemoryGroup::Universal));
}

/// The budgets of the memory heaps of an architecture.
pub open spec fn memory_heaps_spec(arch: MemoryArchitecture, local: u64, non_local: u64) -> Seq<
    u64,
> {
    match arch {
        MemoryArchitecture::NUMA => seq![local, non_local],
        _ => seq![local],
    }
}

/// The budgets of the memory heaps, in bytes: always the local heap, and
/// with separate device memory the non-local heap after it. `non_local` is
/// not looked at on unified memory.
pub fn memory_heaps(arch: MemoryArchitecture, local: u64, non_local: u64) -> (heaps: Vec<u64>)
    ensures
        heaps@ == memory_heaps_spec(arch, local, non_local),
        heaps@.len() == arch.spec_heap_count(),
{
    let mut heaps: Vec<u64> = Vec::new();
    heaps.push(local);
    match arch {
        MemoryArchitecture::NUMA => {
            heaps.push(non_local);
        },
        _ => {},
    }
    assert(heaps@ =~= memory_heaps_spec(arch, local, non_local));
    heaps
}

/// The memory types and heaps of an adapter.
#[derive(Debug)]
pub struct MemoryProperties {
    /// The memory types; a type's position is its identifier.
    pub memory_types: Vec<MemoryType>,
    /// The budget of each heap, in bytes.
    pub memory_heaps: Vec<u64>,
}

impl MemoryProperties {
    /// The memory model of an adapter with the given capabilities and heap
    /// budgets.
    pub open spec fn models(&self, caps: Capabilities, local: u64, non_local: u64) -> bool {
        &&& self.memory_types@ == memory_types_spec(caps)
        &&& self.memory_heaps@ == memory_heaps_spec(caps.memory_architecture, local, non_local)
    }

    /// What holds of the memory model of every adapter: there is a memory
    /// type, every type names a heap that exists, and no type is coherent or
    /// cached without being visible to the host.
    pub open spec fn wf(&self) -> bool {
        &&& self.memory_types@.len() > 0
        &&& self.memory_heaps@.len() > 0
        &&& forall|i: int|
            0 <= i < self.memory_types@.len() ==> {
                &&& (#[trigger] self.memory_types@[i]).heap_index < self.memory_heaps@.len()
                &&& self.memory_types@[i].properties.host_consistent()
            }
    }

    /// Synthesises the memory model of an adapter.
    pub fn new(caps: &Capabilities, local: u64, non_local: u64) -> (model: MemoryProperties)
        ensures
            model.models(*caps, local, non_local),
            model.wf(),
    {
        let model = MemoryProperties {
            memory_types: memory_types(caps),
            memory_heaps: memory_heaps(caps.memory_architecture, local, non_local),
        };
        proof {
            lemma_memory_model(*caps, local, non_local);
        }
        model
    }

    /// A copy of the memory model.
    pub fn duplicate(&self) -> (copy: MemoryProperties)
        ensures
            copy.memory_types@ == self.memory_types@,
            copy.memory_heaps@ == self.memory_heaps@,
    {
        let mut memory_types: Vec<MemoryType> = Vec::new();
        let mut i: usize = 0;
        while i < self.memory_types.len()
            invariant
                i <= self.memory_types@.len(),
                memory_types@ == self.memory_types@.take(i as int),
            decreases self.memory_types@.len() - i,
        {
            memory_types.push(self.memory_types[i]);
            assert(memory_types@ =~= self.memory_types@.take(i + 1));
            i += 1;
        }
        assert(memory_types@ =~= self.memory_types@);
        let mut memory_heaps: Vec<u64> = Vec::new();
        let mut j: usize = 0;
        while j < self.memory_heaps.len()
            invariant
                j <= self.memory_heaps@.len(),
                memory_heaps@ == self.memory_heaps@.take(j as int),
            decreases self.memory_heaps@.len() - j,
        {
            memory_heaps.push(self.memory_heaps[j]);
            assert(memory_heaps@ =~= self.memory_heaps@.take(j + 1));
            j += 1;
        }
        assert(memory_heaps@ =~= self.memory_heaps@);
        MemoryProperties { memory_types, memory_heaps }
    }
}

/// The flag sets of the base memory types, as numbers.
pub proof fn lemma_base_property_bits()
    ensures
        CPU_VISIBLE | COHERENT == 0x6,
        CPU_VISIBLE | COHERENT | CPU_CACHED == 0xE,
        DEVICE_LOCAL | CPU_VISIBLE | COHERENT == 0x7,
        DEVICE_LOCAL | CPU_VISIBLE | COHERENT | CPU_CACHED == 0xF,
{
    assert(0x2u16 | 0x4u16 == 0x6u16 && 0x2u16 | 0x4u16 | 0x8u16 == 0xEu16 && 0x1u16 | 0x2u16
        | 0x4u16 == 0x7u16 && 0x1u16 | 0x2u16 | 0x4u16 | 0x8u16 == 0xFu16) by (bit_vector);
}

/// Every base memory type names a heap of its architecture, the default
/// type is local to the device and nothing else, the other two can be mapped
/// by the host, and none is coherent or cached without being host-visible.
pub proof fn lemma_base_memory_type(arch: MemoryArchitecture, role: HeapRole)
    ensures
        base_memory_type(arch, role).heap_index < arch.spec_heap_count(),
        base_memory_type(arch, role).properties.host_consistent(),
        role == HeapRole::Default ==> base_memory_type(arch, role).properties == (Properties {
            bits: DEVICE_LOCAL,
        }) && base_memory_type(arch, role).properties.host_free(),
        role != HeapRole::Default ==> base_memory_type(arch, role).properties.spec_contains(
            Properties { bits: CPU_VISIBLE | COHERENT },
        ),
{
    lemma_base_property_bits();
    assert(0x1u16 & 0x2u16 == 0 && 0x1u16 & 0x4u16 == 0 && 0x1u16 & 0x8u16 == 0 && 0x6u16
        & 0x2u16 != 0 && 0xEu16 & 0x2u16 != 0 && 0x7u16 & 0x2u16 != 0 && 0xFu16 & 0x2u16 != 0
        && 0x6u16 & 0x6u16 == 0x6u16 && 0xEu16 & 0x6u16 == 0x6u16 && 0x7u16 & 0x6u16 == 0x6u16
        && 0xFu16 & 0x6u16 == 0x6u16) by (bit_vector);
}

/// A memory type keeps its heap in every usage group, stays consistent, and
/// in a group that cannot be mapped holds no host-access flag.
pub proof fn lemma_in_group(ty: MemoryType, group: MemoryGroup)
    requires
        ty.properties.host_consistent(),
    ensures
        ty.spec_in_group(group).heap_index == ty.heap_index,
        ty.spec_in_group(group).properties.host_consistent(),
        !group.spec_host_mappable() ==> ty.spec_in_group(group).properties.host_free(),
        group.spec_host_mappable() ==> ty.spec_in_group(group) == ty,
{
    lemma_strip_host_access(ty.properties);
}

/// Where each memory type of an adapter comes from: on heterogeneous heaps
/// the type at index `i` is the base type of role `i`; on a first-tier
/// adapter it is the base type of role `i mod 3` as it appears in group
/// `i div 3`.
pub proof fn lemma_memory_type_at(caps: Capabilities, i: int)
    requires
        0 <= i < memory_types_spec(caps).len(),
    ensures
        caps.heterogeneous_resource_heaps ==> memory_types_spec(caps).len() == NUM_HEAP_PROPERTIES
            && memory_types_spec(caps)[i] == base_memory_type(
            caps.memory_architecture,
            HeapRole::spec_from_index(i),
        ),
        !caps.heterogeneous_resource_heaps ==> memory_types_spec(caps).len() == NUM_MEMORY_GROUPS
            * NUM_HEAP_PROPERTIES && memory_types_spec(caps)[i] == base_memory_type(
            caps.memory_architecture,
            HeapRole::spec_from_index(i % NUM_HEAP_PROPERTIES as int),
        ).spec_in_group(MemoryGroup::spec_of_memory_type(i)),
{
}

/// An adapter with heterogeneous heaps exposes exactly the base memory
/// types; a first-tier adapter exposes four times as many.
pub proof fn lemma_memory_type_count(caps: Capabilities)
    ensures
        base_memory_types_spec(caps.memory_architecture).len() == NUM_HEAP_PROPERTIES,
        caps.heterogeneous_resource_heaps ==> memory_types_spec(caps).len()
            == base_memory_types_spec(caps.memory_architecture).len(),
        !caps.heterogeneous_resource_heaps ==> memory_types_spec(caps).len() == 4
            * base_memory_types_spec(caps.memory_architecture).len(),
{
}

/// The memory type of the default role is local to the device and carries
/// no other flag, in every usage group of every adapter.
pub proof fn lemma_default_types_device_local(caps: Capabilities, i: int)
    requires
        0 <= i < memory_types_spec(caps).len(),
        i % NUM_HEAP_PROPERTIES as int == 0,
    ensures
        memory_types_spec(caps)[i].properties == (Properties { bits: DEVICE_LOCAL }),
        memory_types_spec(caps)[i].properties.host_free(),
        memory_types_spec(caps)[i].heap_index == 0,
{
    lemma_memory_type_at(caps, i);
    let ty = base_memory_type(caps.memory_architecture, HeapRole::Default);
    lemma_base_memory_type(caps.memory_architecture, HeapRole::Default);
    lemma_strip_host_access(ty.properties);
    assert(DEVICE_LOCAL & HOST_ACCESS == 0) by (bit_vector);
}

/// On a first-tier adapter the memory types of the image group and of the
/// target group carry no host-access flag, whatever their base type carries,
/// and keep the heap of their base type.
pub proof fn lemma_unmappable_groups_host_free(arch: MemoryArchitecture, i: int)
    requires
        0 <= i < NUM_MEMORY_GROUPS * NUM_HEAP_PROPERTIES,
        !MemoryGroup::spec_of_memory_type(i).spec_host_mappable(),
    ensures
        ({
            let caps = Capabilities {
                heterogeneous_resource_heaps: false,
                memory_architecture: arch,
            };
            let ty = memory_types_spec(caps)[i];
            let base = base_memory_type(
                arch,
                HeapRole::spec_from_index(i % NUM_HEAP_PROPERTIES as int),
            );
            &&& ty.properties.host_free()
            &&& ty.properties.bits == base.properties.bits & !HOST_ACCESS
            &&& ty.heap_index == base.heap_index
        }),
{
    let caps = Capabilities { heterogeneous_resource_heaps: false, memory_architecture: arch };
    lemma_memory_type_at(caps, i);
    let base = base_memory_type(arch, HeapRole::spec_from_index(i % NUM_HEAP_PROPERTIES as int));
    lemma_strip_host_access(base.properties);
}

/// The image group holds the memory types 6 to 8 and the target group the
/// types 9 to 11; the types before them belong to groups that can be mapped.
pub proof fn lemma_group_ranges(i: int)
    requires
        0 <= i < NUM_MEMORY_GROUPS * NUM_HEAP_PROPERTIES,
    ensures
        MemoryGroup::spec_of_memory_type(i) == MemoryGroup::Universal <==> i < 3,
        MemoryGroup::spec_of_memory_type(i) == MemoryGroup::BufferOnly <==> 3 <= i < 6,
        MemoryGroup::spec_of_memory_type(i) == MemoryGroup::ImageOnly <==> 6 <= i < 9,
        MemoryGroup::spec_of_memory_type(i) == MemoryGroup::TargetOnly <==> 9 <= i,
        MemoryGroup::spec_of_memory_type(i).spec_host_mappable() <==> i < 6,
{
}

/// The memory model of every adapter is well formed.
pub proof fn lemma_memory_model(caps: Capabilities, local: u64, non_local: u64)
    ensures
        memory_types_spec(caps).len() > 0,
        memory_heaps_spec(caps.memory_architecture, local, non_local).len()
            == caps.memory_architecture.spec_heap_count(),
        forall|i: int|
            0 <= i < memory_types_spec(caps).len() ==> {
                &&& (#[trigger] memory_types_spec(caps)[i]).heap_index
                    < caps.memory_architecture.spec_heap_count()
                &&& memory_types_spec(caps)[i].properties.host_consistent()
            },
{
    let arch = caps.memory_architecture;
    assert forall|i: int| 0 <= i < memory_types_spec(caps).len() implies {
        &&& (#[trigger] memory_types_spec(caps)[i]).heap_index < arch.spec_heap_count()
        &&& memory_types_spec(caps)[i].properties.host_consistent()
    } by {
        lemma_memory_type_at(caps, i);
        let role = if caps.heterogeneous_resource_heaps {
            HeapRole::spec_from_index(i)
        } else {
            HeapRole::spec_from_index(i % NUM_HEAP_PROPERTIES as int)
        };
        lemma_base_memory_type(arch, role);
        lemma_in_group(base_memory_type(arch, role), MemoryGroup::spec_of_memory_type(i));
    }
}

} // verus!
