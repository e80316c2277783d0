//! The instance: the enumeration of adapters.
//!
//! The caller walks the native list of adapters and probes each one. What it
//! found goes into an `AdapterProbe`; from the probes the instance builds the
//! adapters. An adapter whose native device could not be created, or whose
//! mandatory feature queries failed, is left out as a whole.

use vstd::prelude::*;
use crate::features::Features;
use crate::format::fresh_slots;
use crate::limits::Limits;
use crate::memory::{memory_heaps_spec, Capabilities};
use crate::native::Handle;
use crate::physical_device::PhysicalDevice;
use crate::queue_family::{queue_families, queue_families_spec, QueueFamily};

verus! {

/// Native factory flag that turns on debugging.
pub const CREATE_FACTORY_DEBUG: u32 = 0x1;

/// Native adapter flag that marks a software adapter.
pub const ADAPTER_FLAG_SOFTWARE: u32 = 0x2;

/// Native preference value that lists the fastest adapter first.
pub const GPU_PREFERENCE_HIGH_PERFORMANCE: u32 = 2;

/// The native value of a boolean that is true.
pub const TRUE: i32 = 1;

/// The kind of device behind an adapter.
#[derive(Clone, Copy, Debug, PartialEq, Eq, Structural)]
pub enum DeviceType {
    Other,
    IntegratedGpu,
    DiscreteGpu,
    VirtualGpu,
    Cpu,
}

/// The order in which the native side lists the adapters.
#[derive(Clone, Copy, Debug, PartialEq, Eq, Structural)]
pub enum AdapterOrder {
    /// By the given native preference.
    ByPreference(u32),
    /// In whatever order the platform lists them.
    Platform,
}

/// What identifies an adapter.
#[derive(Debug)]
pub struct AdapterInfo {
    pub name: String,
    pub vendor: usize,
    pub device: usize,
    pub device_type: DeviceType,
}

/// An adapter with its physical device and the queue families it exposes.
#[derive(Debug)]
pub struct Adapter {
    pub info: AdapterInfo,
    pub physical_device: PhysicalDevice,
    pub queue_families: Vec<QueueFamily>,
}

/// What the native side found out about one adapter.
#[derive(Debug)]
pub struct AdapterProbe {
    pub adapter: Handle,
    /// Whether a native device could be created for the adapter.
    pub device_created: bool,
    /// The description of the adapter: UTF-16 code units, the name ending
    /// before the first zero.
    pub description: Vec<u16>,
    pub vendor_id: u32,
    pub device_id: u32,
    /// The native adapter flags.
    pub flags: u32,
    /// The resource-heap tier from the general options; `None` where the
    /// query failed.
    pub resource_heap_tier: Option<u32>,
    /// The native booleans for unified memory and for cache-coherent
    /// unified memory; `None` where the query failed.
    pub architecture: Option<(i32, i32)>,
    /// The native boolean for the depth bounds test; `None` where the query
    /// failed.
    pub depth_bounds_test: Option<i32>,
    /// The budget of the local memory segment, in bytes.
    pub local_budget: u64,
    /// The budget of the non-local memory segment, in bytes. Only looked at
    /// where device memory is separate.
    pub non_local_budget: u64,
}

/// The number of code units before the first zero.
pub open spec fn name_len(description: Seq<u16>) -> nat
    decreases description.len(),
{
    if description.len() == 0 || description[0] == 0 {
        0
    } else {
        1 + name_len(description.drop_first())
    }
}

/// The name in a description: the code units before the first zero, or all
/// of them where there is no zero.
pub open spec fn wide_name_spec(description: Seq<u16>) -> Seq<u16> {
    description.take(name_len(description) as int)
}

/// The name ends at the first zero and holds none.
pub proof fn lemma_name_len(description: Seq<u16>)
    ensures
        name_len(description) <= description.len(),
        forall|i: int| 0 <= i < name_len(description) ==> description[i] != 0,
        name_len(description) < description.len() ==> description[name_len(description) as int]
            == 0,
    decreases description.len(),
{
    if description.len() != 0 && description[0] != 0 {
        let rest = description.drop_first();
        lemma_name_len(rest);
        assert forall|i: int| 0 <= i < name_len(description) implies description[i] != 0 by {
            if i > 0 {
                assert(rest[i - 1] == description[i]);
            }
        }
        if name_len(description) < description.len() {
            assert(rest[name_len(rest) as int] == description[name_len(description) as int]);
        }
    }
}

/// A prefix without a zero that ends at a zero, or at the end, is the name.
pub proof fn lemma_name_len_unique(description: Seq<u16>, n: int)
    requires
        0 <= n <= description.len(),
        forall|i: int| 0 <= i < n ==> description[i] != 0,
        n < description.len() ==> description[n] == 0,
    ensures
        name_len(description) == n,
{
    lemma_name_len(description);
    let m = name_len(description) as int;
    if m < n {
        assert(description[m] == 0);
    } else if n < m {
        assert(description[n] != 0);
    }
}

/// The name in a description.
pub fn wide_name(description: &Vec<u16>) -> (name: Vec<u16>)
    ensures
        name@ == wide_name_spec(description@),
        name@.len() <= description@.len(),
        forall|i: int| 0 <= i < name@.len() ==> name@[i] != 0 && name@[i] == description@[i],
        name@.len() < description@.len() ==> description@[name@.len() as int] == 0,
{
    let mut name: Vec<u16> = Vec::new();
    let mut n: usize = 0;
    while n < description.len() && description[n] != 0
        invariant
            n <= description@.len(),
            name@ == description@.take(n as int),
            forall|i: int| 0 <= i < n ==> description@[i] != 0,
        decreases description@.len() - n,
    {
        name.push(description[n]);
        assert(name@ =~= description@.take(n + 1));
        n += 1;
    }
    proof {
        lemma_name_len_unique(description@, n as int);
    }
    name
}

/// The text that a sequence of UTF-16 code units stands for, with the
/// replacement character in place of every code unit that is not part of
/// valid UTF-16.
pub uninterp spec fn utf16_lossy(units: Seq<u16>) -> Seq<char>;

/// Decodes with `String::from_utf16_lossy` of the standard library, which
/// takes every sequence of code units and puts U+FFFD where the data is not
/// valid UTF-16. The text depends on the code units alone.
#[verifier::external_body]
fn decode_utf16(units: &Vec<u16>) -> (text: String)
    ensures
        text@ == utf16_lossy(units@),
{
    String::from_utf16_lossy(units)
}

/// The name in a description, as text.
pub fn adapter_name(description: &Vec<u16>) -> (name: String)
    ensures
        name@ == utf16_lossy(wide_name_spec(description@)),
{
    let units = wide_name(description);
    decode_utf16(&units)
}

impl AdapterProbe {
    /// Whether the adapter is to be listed: a native device could be created
    /// for it, and both mandatory feature queries went through.
    pub open spec fn spec_viable(&self) -> bool {
        self.device_created && self.resource_heap_tier.is_some() && self.architecture.is_some()
    }

    /// Whether the device supports the depth bounds test. A failed query
    /// counts as no.
    pub open spec fn spec_depth_bounds(&self) -> bool {
        match self.depth_bounds_test {
            Some(supported) => supported != 0,
            None => false,
        }
    }

    /// The capabilities of a viable adapter. A native boolean counts as true
    /// only where it is exactly the native true.
    pub open spec fn spec_capabilities(&self) -> Capabilities {
        Capabilities::spec_new(
            self.resource_heap_tier.unwrap(),
            self.architecture.unwrap().0 == TRUE,
            self.architecture.unwrap().1 == TRUE,
        )
    }

    /// A software adapter is listed as a virtual device, every other one as
    /// a discrete device.
    pub open spec fn spec_device_type(&self) -> DeviceType {
        if self.flags & ADAPTER_FLAG_SOFTWARE != 0 {
            DeviceType::VirtualGpu
        } else {
            DeviceType::DiscreteGpu
        }
    }

    /// Whether the adapter is to be listed.
    #[verifier::when_used_as_spec(spec_viable)]
    pub fn viable(&self) -> (yes: bool)
        ensures
            yes == self.spec_viable(),
    {
        self.device_created && self.resource_heap_tier.is_some() && self.architecture.is_some()
    }

    /// Whether the device supports the depth bounds test.
    #[verifier::when_used_as_spec(spec_depth_bounds)]
    pub fn depth_bounds(&self) -> (yes: bool)
        ensures
            yes == self.spec_depth_bounds(),
    {
        match self.depth_bounds_test {
            Some(supported) => supported != 0,
            None => false,
        }
    }

    /// The kind of device the adapter is listed as.
    #[verifier::when_used_as_spec(spec_device_type)]
    pub fn device_type(&self) -> (ty: DeviceType)
        ensures
            ty == self.spec_device_type(),
    {
        if (self.flags & ADAPTER_FLAG_SOFTWARE) != 0 {
            DeviceType::VirtualGpu
        } else {
            DeviceType::DiscreteGpu
        }
    }

    /// The capabilities of a viable adapter.
    pub fn capabilities(&self) -> (caps: Capabilities)
        requires
            self.spec_viable(),
        ensures
            caps == self.spec_capabilities(),
    {
        let tier = match self.resource_heap_tier {
            Some(tier) => tier,
            None => 0,
        };
        let (uma, cache_coherent_uma) = match self.architecture {
            Some(flags) => flags,
            None => (0, 0),
        };
        Capabilities::new(tier, uma == TRUE, cache_coherent_uma == TRUE)
    }

    /// The adapter of a probe, or `None` where the adapter is not viable.
    pub fn describe(&self) -> (adapter: Option<Adapter>)
        ensures
            adapter.is_some() == self.spec_viable(),
            adapter.is_some() ==> adapter.unwrap().describes(*self),
    {
        if !self.viable() {
            return None;
        }
        let info = AdapterInfo {
            name: adapter_name(&self.description),
            vendor: self.vendor_id as usize,
            device: self.device_id as usize,
            device_type: self.device_type(),
        };
        let physical_device = PhysicalDevice::new(
            self.adapter,
            self.capabilities(),
            self.depth_bounds(),
            self.local_budget,
            self.non_local_budget,
        );
        Some(Adapter { info, physical_device, queue_families: queue_families() })
    }
}

impl Adapter {
    /// Whether this is the adapter of a viable probe: it carries the name
    /// and identifiers of the probe, its physical device is well formed, not
    /// open, and has the capabilities, features, limits and heap budgets that
    /// follow from the probe, and it exposes the four queue families.
    pub open spec fn describes(&self, probe: AdapterProbe) -> bool {
        let caps = probe.spec_capabilities();
        &&& self.info.name@ == utf16_lossy(wide_name_spec(probe.description@))
        &&& self.info.vendor == probe.vendor_id
        &&& self.info.device == probe.device_id
        &&& self.info.device_type == probe.spec_device_type()
        &&& self.physical_device.wf()
        &&& !self.physical_device.spec_is_open()
        &&& self.physical_device.spec_adapter() == probe.adapter
        &&& self.physical_device.spec_private_caps() == caps
        &&& self.physical_device.spec_features() == Features::spec_of_adapter(
            probe.spec_depth_bounds(),
        )
        &&& self.physical_device.spec_limits() == Limits::spec_of_adapter()
        &&& self.physical_device.spec_formats() == fresh_slots()
        &&& self.physical_device.spec_memory_heaps() == memory_heaps_spec(
            caps.memory_architecture,
            probe.local_budget,
            probe.non_local_budget,
        )
        &&& self.queue_families@ == queue_families_spec()
    }
}

/// The probes of the adapters that are to be listed, in order.
pub open spec fn survivors(probes: Seq<AdapterProbe>) -> Seq<AdapterProbe> {
    probes.filter(|probe: AdapterProbe| probe.spec_viable())
}

/// The entry point of the backend.
#[derive(Debug)]
pub struct Instance {
    /// The native factory that lists the adapters.
    pub factory: Handle,
}

impl Instance {
    /// The flags to create the native factory with: debugging where the
    /// debug interface is there, else none. The debug flag must not be
    /// passed without the interface.
    pub open spec fn spec_factory_flags(debug_interface_available: bool) -> u32 {
        if debug_interface_available {
            CREATE_FACTORY_DEBUG
        } else {
            0
        }
    }

    /// The order to list the adapters in: the fastest first where the
    /// platform can order by preference, else the order of the platform.
    pub open spec fn spec_adapter_order(preference_supported: bool) -> AdapterOrder {
        if preference_supported {
            AdapterOrder::ByPreference(GPU_PREFERENCE_HIGH_PERFORMANCE)
        } else {
            AdapterOrder::Platform
        }
    }

    /// The flags to create the native factory with.
    #[verifier::when_used_as_spec(spec_factory_flags)]
    pub fn factory_flags(debug_interface_available: bool) -> (flags: u32)
        ensures
            flags == Self::spec_factory_flags(debug_interface_available),
    {
        if debug_interface_available {
            CREATE_FACTORY_DEBUG
        } else {
            0
        }
    }

    /// The order to list the adapters in.
    #[verifier::when_used_as_spec(spec_adapter_order)]
    pub fn adapter_order(preference_supported: bool) -> (order: AdapterOrder)
        ensures
            order == Self::spec_adapter_order(preference_supported),
    {
        if preference_supported {
            AdapterOrder::ByPreference(GPU_PREFERENCE_HIGH_PERFORMANCE)
        } else {
            AdapterOrder::Platform
        }
    }

    /// The instance around a native factory. Name and version of the
    /// application are not looked at.
    pub fn create(_name: &str, _version: u32, factory: Handle) -> (instance: Instance)
        ensures
            instance.factory == factory,
    {
        Instance { factory }
    }

    /// The adapters of the probes that are viable, in the order of the
    /// probes. A probe that is not viable leaves no trace.
    pub fn enumerate_adapters(&self, probes: &Vec<AdapterProbe>) -> (adapters: Vec<Adapter>)
        ensures
            adapters@.len() == survivors(probes@).len(),
            adapters@.len() <= probes@.len(),
            forall|k: int|
                0 <= k < adapters@.len() ==> (#[trigger] adapters@[k]).describes(
                    survivors(probes@)[k],
                ),
    {
        let ghost viable = |probe: AdapterProbe| probe.spec_viable();
        let mut adapters: Vec<Adapter> = Vec::new();
        let mut i: usize = 0;
        proof {
            reveal(Seq::filter);
        }
        while i < probes.len()
            invariant
                i <= probes@.len(),
                viable == |probe: AdapterProbe| probe.spec_viable(),
                adapters@.len() == probes@.take(i as int).filter(viable).len(),
                adapters@.len() <= i,
                forall|k: int|
                    0 <= k < adapters@.len() ==> (#[trigger] adapters@[k]).describes(
                        probes@.take(i as int).filter(viable)[k],
                    ),
            decreases probes@.len() - i,
        {
            proof {
                assert(probes@.take(i + 1) =~= probes@.take(i as int).push(probes@[i as int]));
                probes@.take(i as int).lemma_filter_push(probes@[i as int], viable);
            }
            if let Some(adapter) = probes[i].describe() {
                adapters.push(adapter);
            }
            i += 1;
        }
        assert(probes@.take(i as int) =~= probes@);
        adapters
    }
}

} // verus!
