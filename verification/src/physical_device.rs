//! The physical device: what an adapter can do, and the opening of its one
//! logical device.
//!
//! Opening takes two steps, because creating native objects is the caller's
//! part. `open` tests whether a device may be opened and answers with a plan
//! of the native objects to create. The caller creates them and hands them
//! to `OpenPlan::complete`, which builds the device and sorts the queues
//! into their groups.

use vstd::prelude::*;
use crate::device::{creation_plan_spec, Device, DeviceObjects};
use crate::features::Features;
use crate::format::{
    get_spec, FormatProperties, NativeAnswer, Properties, NUM_FORMATS,
};
use crate::image::{ImageFormatProperties, Tiling, Usage, ViewCapabilities};
use crate::limits::Limits;
use crate::memory::{
    heap_properties, heap_properties_spec, memory_heaps_spec, memory_types_spec, Capabilities,
    HeapProperties, MemoryProperties, MemoryType, DEVICE_LOCAL, NUM_HEAP_PROPERTIES,
};
use crate::native::{Creation, Handle, QueueDesc, FEATURE_LEVEL_11_0};
use crate::queue::CommandQueue;
use crate::queue_family::{CmdListType, QueueFamily};

verus! {

/// Why a device could not be opened.
#[derive(Clone, Copy, Debug, PartialEq, Eq, Structural)]
pub enum DeviceCreationError {
    OutOfHostMemory,
    OutOfDeviceMemory,
    InitializationFailed,
    MissingExtension,
    /// A requested feature is not among the advertised ones.
    MissingFeature,
    /// The physical device has its one logical device already.
    TooManyObjects,
    DeviceLost,
}

/// Whether a device may be opened: not while one is open, and not with a
/// feature that is not advertised. The open flag is tested first.
pub open spec fn open_outcome(is_open: bool, advertised: Features, requested: Features) -> Result<
    (),
    DeviceCreationError,
> {
    if is_open {
        Err(DeviceCreationError::TooManyObjects)
    } else if !advertised.spec_contains(requested) {
        Err(DeviceCreationError::MissingFeature)
    } else {
        Ok(())
    }
}

/// The open flag after an attempt to open: set by a success, left as it was
/// by a failure.
pub open spec fn flag_after_open(is_open: bool, advertised: Features, requested: Features) -> bool {
    is_open || open_outcome(is_open, advertised, requested).is_ok()
}

/// Where the queues of a requested family come from.
#[derive(Clone, Copy, Debug, PartialEq, Eq, Structural)]
pub enum QueueSource {
    /// The present queue of the device, with an idle fence and event of its
    /// own.
    PresentQueue,
    /// New native queues, created as described.
    NewQueue(QueueDesc),
}

/// What to create for one requested family.
#[derive(Clone, Copy, Debug, PartialEq, Eq, Structural)]
pub struct QueuePlan {
    pub family: QueueFamily,
    pub source: QueueSource,
    /// How many queues to try to create.
    pub count: usize,
}

impl QueuePlan {
    /// The plan for a family requested with a number of priorities: the
    /// present family gets exactly one queue, whatever the number; every
    /// other family one new queue per priority.
    pub open spec fn spec_for_family(family: QueueFamily, priorities: usize) -> QueuePlan {
        match family {
            QueueFamily::Present => QueuePlan {
                family,
                source: QueueSource::PresentQueue,
                count: 1,
            },
            QueueFamily::Normal(_) => QueuePlan {
                family,
                source: QueueSource::NewQueue(QueueDesc::spec_normal(family.spec_native_type())),
                count: priorities,
            },
        }
    }

    /// The plan for a family requested with a number of priorities.
    #[verifier::when_used_as_spec(spec_for_family)]
    pub fn for_family(family: QueueFamily, priorities: usize) -> (plan: QueuePlan)
        ensures
            plan == Self::spec_for_family(family, priorities),
    {
        match family {
            QueueFamily::Present => QueuePlan {
                family,
                source: QueueSource::PresentQueue,
                count: 1,
            },
            QueueFamily::Normal(_) => QueuePlan {
                family,
                source: QueueSource::NewQueue(QueueDesc::normal(family.native_type())),
                count: priorities,
            },
        }
    }
}

/// The plans for the requested families, one for each request, in order.
pub open spec fn queue_plans(families: Seq<(QueueFamily, usize)>) -> Seq<QueuePlan> {
    Seq::new(
        families.len(),
        |i: int| QueuePlan::spec_for_family(families[i].0, families[i].1),
    )
}

/// The native objects to create for an open, in order: the native device,
/// the present queue, the objects of the device, the queues of the
/// requested families.
#[derive(Debug)]
pub struct OpenPlan {
    /// Feature level of the native device.
    pub feature_level: u32,
    /// The present queue. It is created whether or not the present family
    /// was requested.
    pub present_queue: QueueDesc,
    pub objects: Vec<Creation>,
    pub queues: Vec<QueuePlan>,
}

impl OpenPlan {
    /// Whether this is the plan for the requested families.
    pub open spec fn models(&self, families: Seq<(QueueFamily, usize)>) -> bool {
        &&& self.feature_level == FEATURE_LEVEL_11_0
        &&& self.present_queue == QueueDesc::spec_normal(CmdListType::Direct)
        &&& self.objects@ == creation_plan_spec()
        &&& self.queues@ == queue_plans(families)
    }
}

/// The queues among the attempts that were created, in order.
pub open spec fn somes(attempts: Seq<Option<CommandQueue>>) -> Seq<CommandQueue>
    decreases attempts.len(),
{
    if attempts.len() == 0 {
        Seq::empty()
    } else {
        match attempts.last() {
            Some(queue) => somes(attempts.drop_last()).push(queue),
            None => somes(attempts.drop_last()),
        }
    }
}

/// All queues that were created, family after family.
pub open spec fn registered(created: Seq<Vec<Option<CommandQueue>>>) -> Seq<CommandQueue>
    decreases created.len(),
{
    if created.len() == 0 {
        Seq::empty()
    } else {
        registered(created.drop_last()) + somes(created.last()@)
    }
}

/// What the caller created after a plan.
#[derive(Debug)]
pub struct NativeObjects {
    pub device: Handle,
    pub present_queue: Handle,
    pub objects: DeviceObjects,
    /// For every requested family, in order, one entry for every queue the
    /// plan asked for: the queue, or `None` where its creation failed.
    pub queues: Vec<Vec<Option<CommandQueue>>>,
}

impl NativeObjects {
    /// Whether the objects are what the plans asked for: as many attempts
    /// as planned for every family, for the present family a queue on the
    /// present queue, and for no family more queues than it can have.
    pub open spec fn answers(&self, plans: Seq<QueuePlan>) -> bool {
        &&& self.queues@.len() == plans.len()
        &&& forall|i: int|
            0 <= i < plans.len() ==> {
                &&& (#[trigger] self.queues@[i])@.len() == plans[i].count
                &&& somes(self.queues@[i]@).len() <= plans[i].family.spec_max_queues()
                &&& plans[i].source == QueueSource::PresentQueue ==> {
                    &&& self.queues@[i]@.len() == 1
                    &&& self.queues@[i]@[0].is_some()
                    &&& self.queues@[i]@[0].unwrap().raw == self.present_queue
                }
            }
    }
}

/// Counts the queues among the attempts that were created.
pub fn count_created(attempts: &Vec<Option<CommandQueue>>) -> (count: usize)
    ensures
        count == somes(attempts@).len(),
        count <= attempts@.len(),
{
    let mut count: usize = 0;
    let mut k: usize = 0;
    while k < attempts.len()
        invariant
            k <= attempts@.len(),
            count == somes(attempts@.take(k as int)).len(),
            count <= k,
        decreases attempts@.len() - k,
    {
        assert(attempts@.take(k + 1).drop_last() =~= attempts@.take(k as int));
        if attempts[k].is_some() {
            count += 1;
        }
        k += 1;
    }
    assert(attempts@.take(k as int) =~= attempts@);
    count
}

impl NativeObjects {
    /// Tests whether the objects are what the plans asked for, so that
    /// `OpenPlan::complete` may be called with them.
    pub fn fits(&self, plans: &Vec<QueuePlan>) -> (yes: bool)
        ensures
            yes == self.answers(plans@),
    {
        if self.queues.len() != plans.len() {
            return false;
        }
        let mut i: usize = 0;
        while i < plans.len()
            invariant
                i <= plans@.len(),
                self.queues@.len() == plans@.len(),
                forall|j: int|
                    0 <= j < i ==> {
                        &&& (#[trigger] self.queues@[j])@.len() == plans@[j].count
                        &&& somes(self.queues@[j]@).len() <= plans@[j].family.spec_max_queues()
                        &&& plans@[j].source == QueueSource::PresentQueue ==> {
                            &&& self.queues@[j]@.len() == 1
                            &&& self.queues@[j]@[0].is_some()
                            &&& self.queues@[j]@[0].unwrap().raw == self.present_queue
                        }
                    },
            decreases plans@.len() - i,
        {
            let plan = plans[i];
            let attempts = &self.queues[i];
            let mut fine = attempts.len() == plan.count && count_created(attempts)
                <= plan.family.max_queues();
            if fine && plan.source == QueueSource::PresentQueue {
                fine = attempts.len() == 1 && match attempts[0] {
                    Some(queue) => queue.raw == self.present_queue,
                    None => false,
                };
            }
            if !fine {
                assert(!self.answers(plans@)) by {
                    let _ = self.queues@[i as int];
                }
                return false;
            }
            i += 1;
        }
        true
    }
}

/// The queues created for one requested family.
#[derive(Debug)]
pub struct QueueGroup {
    pub family: QueueFamily,
    pub queues: Vec<CommandQueue>,
}

/// An open device with its queues, grouped by the requested families.
#[derive(Debug)]
pub struct Gpu {
    pub device: Device,
    pub queues: Vec<QueueGroup>,
}

/// One adapter: what it can do, the format table it shares with its device,
/// and the flag that tells whether its one logical device is open.
#[derive(Debug)]
pub struct PhysicalDevice {
    adapter: Handle,
    features: Features,
    limits: Limits,
    format_properties: FormatProperties,
    private_caps: Capabilities,
    heap_properties: [HeapProperties; 3],
    memory_properties: MemoryProperties,
    is_open: bool,
}

impl PhysicalDevice {
    /// The handle of the native adapter.
    pub closed spec fn spec_adapter(&self) -> Handle {
        self.adapter
    }

    /// The features the adapter advertises.
    pub closed spec fn spec_features(&self) -> Features {
        self.features
    }

    /// The limits of the adapter.
    pub closed spec fn spec_limits(&self) -> Limits {
        self.limits
    }

    /// What the format table remembers, slot by slot.
    pub closed spec fn spec_formats(&self) -> Seq<Option<Properties>> {
        self.format_properties@
    }

    /// What the adapter's memory can do.
    pub closed spec fn spec_private_caps(&self) -> Capabilities {
        self.private_caps
    }

    /// The native heap properties of the adapter, by role.
    pub closed spec fn spec_heap_properties(&self) -> Seq<HeapProperties> {
        self.heap_properties@
    }

    /// The memory types of the adapter, in the order of their identifiers.
    pub closed spec fn spec_memory_types(&self) -> Seq<MemoryType> {
        self.memory_properties.memory_types@
    }

    /// The budgets of the memory heaps of the adapter.
    pub closed spec fn spec_memory_heaps(&self) -> Seq<u64> {
        self.memory_properties.memory_heaps@
    }

    /// Whether the logical device of the adapter is open.
    pub closed spec fn spec_is_open(&self) -> bool {
        self.is_open
    }

    /// Whether two values describe the same adapter in the same state but
    /// for the open flag.
    pub open spec fn same_adapter(&self, other: PhysicalDevice) -> bool {
        &&& self.spec_adapter() == other.spec_adapter()
        &&& self.spec_features() == other.spec_features()
        &&& self.spec_limits() == other.spec_limits()
        &&& self.spec_formats() == other.spec_formats()
        &&& self.spec_private_caps() == other.spec_private_caps()
        &&& self.spec_heap_properties() == other.spec_heap_properties()
        &&& self.spec_memory_types() == other.spec_memory_types()
        &&& self.spec_memory_heaps() == other.spec_memory_heaps()
    }

    /// What holds of every physical device: its memory types are those of
    /// its capabilities, it has the heaps of its architecture, its heap
    /// properties are those of its architecture, its features and limits are
    /// those of an adapter, and its format table has a slot for every format,
    /// the first one filled.
    pub open spec fn wf(&self) -> bool {
        let caps = self.spec_private_caps();
        &&& self.spec_memory_types() == memory_types_spec(caps)
        &&& self.spec_memory_heaps().len() == caps.memory_architecture.spec_heap_count()
        &&& self.spec_heap_properties() == heap_properties_spec(caps.memory_architecture)
        &&& self.spec_limits() == Limits::spec_of_adapter()
        &&& (self.spec_features() == Features::spec_of_adapter(false) || self.spec_features()
            == Features::spec_of_adapter(true))
        &&& self.spec_formats().len() == NUM_FORMATS
        &&& self.spec_formats()[0] == Some(Properties::spec_empty())
    }

    /// The physical device of an adapter, not open, with nothing remembered
    /// of any format.
    pub fn new(
        adapter: Handle,
        private_caps: Capabilities,
        depth_bounds_test_supported: bool,
        local_budget: u64,
        non_local_budget: u64,
    ) -> (device: PhysicalDevice)
        ensures
            device.wf(),
            !device.spec_is_open(),
            device.spec_adapter() == adapter,
            device.spec_private_caps() == private_caps,
            device.spec_features() == Features::spec_of_adapter(depth_bounds_test_supported),
            device.spec_limits() == Limits::spec_of_adapter(),
            device.spec_formats() == crate::format::fresh_slots(),
            device.spec_memory_heaps() == memory_heaps_spec(
                private_caps.memory_architecture,
                local_budget,
                non_local_budget,
            ),
    {
        PhysicalDevice {
            adapter,
            features: Features::of_adapter(depth_bounds_test_supported),
            limits: Limits::of_adapter(),
            format_properties: FormatProperties::new(),
            private_caps,
            heap_properties: heap_properties(private_caps.memory_architecture),
            memory_properties: MemoryProperties::new(
                &private_caps,
                local_budget,
                non_local_budget,
            ),
            is_open: false,
        }
    }

    /// The handle of the native adapter.
    pub fn adapter(&self) -> (adapter: Handle)
        ensures
            adapter == self.spec_adapter(),
    {
        self.adapter
    }

    /// Whether the logical device of this adapter is open.
    pub fn is_open(&self) -> (open: bool)
        ensures
            open == self.spec_is_open(),
    {
        self.is_open
    }

    /// What the adapter's memory can do.
    pub fn private_caps(&self) -> (caps: Capabilities)
        ensures
            caps == self.spec_private_caps(),
    {
        self.private_caps
    }

    /// The native heap properties of the adapter's architecture, by role.
    pub fn heap_properties(&self) -> (table: [HeapProperties; 3])
        ensures
            table@ == self.spec_heap_properties(),
    {
        self.heap_properties
    }

    /// The memory types and heaps of the adapter.
    pub fn memory_properties(&self) -> (model: MemoryProperties)
        ensures
            model.memory_types@ == self.spec_memory_types(),
            model.memory_heaps@ == self.spec_memory_heaps(),
            self.wf() ==> model.wf() && model.memory_types@ == memory_types_spec(
                self.spec_private_caps(),
            ),
    {
        proof {
            crate::memory::lemma_memory_model(self.private_caps, 0, 0);
        }
        self.memory_properties.duplicate()
    }

    /// The features the adapter advertises.
    pub fn features(&self) -> (features: Features)
        ensures
            features == self.spec_features(),
    {
        self.features
    }

    /// The limits of the adapter.
    pub fn limits(&self) -> (limits: Limits)
        ensures
            limits == self.spec_limits(),
    {
        self.limits
    }

    /// Clears the open flag.
    pub(crate) fn release(&mut self)
        ensures
            !final(self).spec_is_open(),
            final(self).same_adapter(*old(self)),
            old(self).wf() ==> final(self).wf(),
    {
        self.is_open = false;
    }

    /// What the format table remembers of a format; `None` stands for
    /// "no format", which is slot 0. A caller asks the native side about a
    /// format only after this gave `None`.
    pub fn cached_format_properties(&self, format: Option<usize>) -> (slot: Option<Properties>)
        requires
            self.wf(),
            format.is_some() ==> format.unwrap() < NUM_FORMATS,
        ensures
            slot == self.spec_formats()[format.unwrap_or(0) as int],
            format.is_none() ==> slot == Some(Properties::spec_empty()),
    {
        let index = match format {
            Some(index) => index,
            None => 0,
        };
        self.format_properties.cached(index)
    }

    /// The properties of a format; `None` stands for "no format", which can
    /// be used for nothing. The native answer is looked at only the first
    /// time a format is asked for.
    pub fn format_properties(&mut self, format: Option<usize>, native: NativeAnswer) -> (props:
        Properties)
        requires
            old(self).wf(),
            format.is_some() ==> format.unwrap() < NUM_FORMATS,
        ensures
            final(self).wf(),
            final(self).spec_is_open() == old(self).spec_is_open(),
            final(self).spec_adapter() == old(self).spec_adapter(),
            final(self).spec_features() == old(self).spec_features(),
            final(self).spec_limits() == old(self).spec_limits(),
            final(self).spec_private_caps() == old(self).spec_private_caps(),
            final(self).spec_heap_properties() == old(self).spec_heap_properties(),
            final(self).spec_memory_types() == old(self).spec_memory_types(),
            final(self).spec_memory_heaps() == old(self).spec_memory_heaps(),
            (props, final(self).spec_formats()) == get_spec(
                old(self).spec_formats(),
                format.unwrap_or(0),
                native,
            ),
            format.is_none() ==> props == Properties::spec_empty(),
    {
        let index = match format {
            Some(index) => index,
            None => 0,
        };
        self.format_properties.get(index, native)
    }

    /// How large an image of a format may be; `None` where no such image can
    /// be created, which is so for every format without a native
    /// counterpart. The support bits in the native answer are looked at only
    /// the first time a format is asked for.
    pub fn image_format_properties(
        &mut self,
        format: usize,
        native: NativeAnswer,
        dimensions: u8,
        tiling: Tiling,
        usage: Usage,
        view_caps: ViewCapabilities,
    ) -> (limits: Option<ImageFormatProperties>)
        requires
            old(self).wf(),
            1 <= format < NUM_FORMATS,
        ensures
            final(self).wf(),
            final(self).spec_is_open() == old(self).spec_is_open(),
            final(self).spec_adapter() == old(self).spec_adapter(),
            final(self).spec_features() == old(self).spec_features(),
            final(self).spec_limits() == old(self).spec_limits(),
            final(self).spec_private_caps() == old(self).spec_private_caps(),
            final(self).spec_heap_properties() == old(self).spec_heap_properties(),
            final(self).spec_memory_types() == old(self).spec_memory_types(),
            final(self).spec_memory_heaps() == old(self).spec_memory_heaps(),
            native.is_none() ==> limits.is_none() && final(self).spec_formats() == old(
                self,
            ).spec_formats(),
            native.is_some() ==> final(self).spec_formats() == get_spec(
                old(self).spec_formats(),
                format,
                native,
            ).1 && limits == ImageFormatProperties::spec_for_format(
                get_spec(old(self).spec_formats(), format, native).0,
                dimensions,
                tiling,
                usage,
                view_caps,
            ),
    {
        if native.is_none() {
            return None;
        }
        let props = self.format_properties.get(format, native);
        ImageFormatProperties::for_format(props, dimensions, tiling, usage, view_caps)
    }

    /// Asks to open the logical device with queues of the given families,
    /// each with the number of priorities requested for it, and with the
    /// given features.
    ///
    /// Fails at once, and changes nothing, while a device is open or where
    /// a requested feature is not advertised; nothing native is to be
    /// created then. Otherwise the device is taken: the open flag is set,
    /// and the plan says what to create for `OpenPlan::complete`.
    pub fn open(&mut self, families: &Vec<(QueueFamily, usize)>, requested_features: Features)
        -> (result: Result<OpenPlan, DeviceCreationError>)
        ensures
            final(self).same_adapter(*old(self)),
            old(self).wf() ==> final(self).wf(),
            final(self).spec_is_open() == flag_after_open(
                old(self).spec_is_open(),
                old(self).spec_features(),
                requested_features,
            ),
            match result {
                Ok(plan) => {
                    &&& open_outcome(
                        old(self).spec_is_open(),
                        old(self).spec_features(),
                        requested_features,
                    ).is_ok()
                    &&& plan.models(families@)
                },
                Err(error) => open_outcome(
                    old(self).spec_is_open(),
                    old(self).spec_features(),
                    requested_features,
                ) == Err::<(), DeviceCreationError>(error),
            },
    {
        if self.is_open {
            return Err(DeviceCreationError::TooManyObjects);
        }
        if !self.features.contains(requested_features) {
            return Err(DeviceCreationError::MissingFeature);
        }
        let mut queues: Vec<QueuePlan> = Vec::new();
        let mut i: usize = 0;
        while i < families.len()
            invariant
                i <= families@.len(),
                queues@ == queue_plans(families@).take(i as int),
            decreases families@.len() - i,
        {
            let (family, priorities) = families[i];
            queues.push(QueuePlan::for_family(family, priorities));
            assert(queues@ =~= queue_plans(families@).take(i + 1));
            i += 1;
        }
        assert(queues@ =~= queue_plans(families@));
        self.is_open = true;
        Ok(
            OpenPlan {
                feature_level: FEATURE_LEVEL_11_0,
                present_queue: QueueDesc::normal(QueueFamily::Present.native_type()),
                objects: Device::creation_plan(),
                queues,
            },
        )
    }
}

impl OpenPlan {
    /// Builds the device of a physical device that `open` has taken, from
    /// what the caller created after the plan. Every queue that was created
    /// is registered with the device, in the order of creation, and handed
    /// out in the group of its family; a queue whose creation failed is left
    /// out and fails nothing.
    pub fn complete(self, physical_device: &PhysicalDevice, natives: NativeObjects) -> (gpu: Gpu)
        requires
            physical_device.spec_is_open(),
            natives.answers(self.queues@),
        ensures
            gpu.device.fresh_from(
                natives.device,
                physical_device.spec_private_caps(),
                physical_device.spec_heap_properties(),
                natives.present_queue,
                natives.objects,
            ),
            gpu.device.queues@ == registered(natives.queues@),
            gpu.queues@.len() == self.queues@.len(),
            forall|i: int|
                0 <= i < self.queues@.len() ==> {
                    &&& (#[trigger] gpu.queues@[i]).family == self.queues@[i].family
                    &&& gpu.queues@[i].queues@ == somes(natives.queues@[i]@)
                    &&& gpu.queues@[i].queues@.len() <= self.queues@[i].count
                    &&& gpu.queues@[i].queues@.len() <= self.queues@[i].family.spec_max_queues()
                    &&& self.queues@[i].source == QueueSource::PresentQueue ==> {
                        &&& gpu.queues@[i].queues@.len() == 1
                        &&& gpu.queues@[i].queues@[0].raw == natives.present_queue
                    }
                },
    {
        let mut device = Device::new(
            natives.device,
            physical_device,
            natives.present_queue,
            natives.objects,
        );
        let mut groups: Vec<QueueGroup> = Vec::new();
        let mut i: usize = 0;
        while i < self.queues.len()
            invariant
                i <= self.queues@.len(),
                natives.answers(self.queues@),
                device.fresh_from(
                    natives.device,
                    physical_device.spec_private_caps(),
                    physical_device.spec_heap_properties(),
                    natives.present_queue,
                    natives.objects,
                ),
                device.queues@ == registered(natives.queues@.take(i as int)),
                groups@.len() == i,
                forall|j: int|
                    0 <= j < i ==> {
                        &&& (#[trigger] groups@[j]).family == self.queues@[j].family
                        &&& groups@[j].queues@ == somes(natives.queues@[j]@)
                    },
            decreases self.queues@.len() - i,
        {
            let plan = self.queues[i];
            let attempts = &natives.queues[i];
            let ghost before = device.queues@;
            let mut queues: Vec<CommandQueue> = Vec::new();
            let mut k: usize = 0;
            while k < attempts.len()
                invariant
                    k <= attempts@.len(),
                    device.fresh_from(
                        natives.device,
                        physical_device.spec_private_caps(),
                        physical_device.spec_heap_properties(),
                        natives.present_queue,
                        natives.objects,
                    ),
                    queues@ == somes(attempts@.take(k as int)),
                    device.queues@ == before + somes(attempts@.take(k as int)),
                decreases attempts@.len() - k,
            {
                assert(attempts@.take(k + 1).drop_last() =~= attempts@.take(k as int));
                if let Some(queue) = attempts[k] {
                    device.append_queue(queue);
                    queues.push(queue);
                    assert(device.queues@ =~= before + somes(attempts@.take(k + 1)));
                }
                k += 1;
            }
            assert(attempts@.take(k as int) =~= attempts@);
            assert(natives.queues@.take(i + 1).drop_last() =~= natives.queues@.take(i as int));
            groups.push(QueueGroup { family: plan.family, queues });
            i += 1;
        }
        assert(natives.queues@.take(i as int) =~= natives.queues@);
        proof {
            assert forall|j: int| 0 <= j < self.queues@.len() implies {
                &&& (#[trigger] groups@[j]).queues@.len() <= self.queues@[j].count
                &&& groups@[j].queues@.len() <= self.queues@[j].family.spec_max_queues()
                &&& self.queues@[j].source == QueueSource::PresentQueue ==> {
                    &&& groups@[j].queues@.len() == 1
                    &&& groups@[j].queues@[0].raw == natives.present_queue
                }
            } by {
                let attempts = natives.queues@[j]@;
                lemma_somes(attempts);
                if self.queues@[j].source == QueueSource::PresentQueue {
                    lemma_somes_first(attempts);
                }
            }
        }
        Gpu { device, queues: groups }
    }
}

/// The created queues are no more than the attempts, and exactly those the
/// attempts hold, in order.
pub proof fn lemma_somes(attempts: Seq<Option<CommandQueue>>)
    ensures
        somes(attempts).len() <= attempts.len(),
        forall|k: int|
            0 <= k < somes(attempts).len() ==> attempts.contains(Some(#[trigger] somes(attempts)[k])),
        forall|k: int|
            0 <= k < attempts.len() && (#[trigger] attempts[k]).is_some() ==> somes(
                attempts,
            ).contains(attempts[k].unwrap()),
        (forall|k: int| 0 <= k < attempts.len() ==> (#[trigger] attempts[k]).is_none())
            ==> somes(attempts).len() == 0,
        (forall|k: int| 0 <= k < attempts.len() ==> (#[trigger] attempts[k]).is_some())
            ==> somes(attempts).len() == attempts.len(),
    decreases attempts.len(),
{
    if attempts.len() > 0 {
        let rest = attempts.drop_last();
        lemma_somes(rest);
        assert forall|k: int| 0 <= k < somes(attempts).len() implies attempts.contains(
            Some(#[trigger] somes(attempts)[k]),
        ) by {
            if k < somes(rest).len() {
                let q = somes(rest)[k];
                assert(rest.contains(Some(q)));
                let w = choose|w: int| 0 <= w < rest.len() && rest[w] == Some(q);
                assert(attempts[w] == Some(q));
            } else {
                assert(attempts[attempts.len() - 1] == Some(somes(attempts)[k]));
            }
        }
        assert forall|k: int| 0 <= k < attempts.len() && (#[trigger] attempts[k]).is_some()
            implies somes(attempts).contains(attempts[k].unwrap()) by {
            if k < rest.len() {
                assert(rest[k] == attempts[k]);
                let q = attempts[k].unwrap();
                assert(somes(rest).contains(q));
                let w = choose|w: int| 0 <= w < somes(rest).len() && somes(rest)[w] == q;
                assert(somes(attempts)[w] == q);
            } else {
                assert(somes(attempts)[somes(attempts).len() - 1] == attempts[k].unwrap());
            }
        }
        if forall|k: int| 0 <= k < attempts.len() ==> (#[trigger] attempts[k]).is_none() {
            assert forall|k: int| 0 <= k < rest.len() implies (#[trigger] rest[k]).is_none() by {
                assert(rest[k] == attempts[k]);
            }
        }
        if forall|k: int| 0 <= k < attempts.len() ==> (#[trigger] attempts[k]).is_some() {
            assert forall|k: int| 0 <= k < rest.len() implies (#[trigger] rest[k]).is_some() by {
                assert(rest[k] == attempts[k]);
            }
        }
    }
}

/// Where the first attempt succeeded, its queue is the first created queue.
pub proof fn lemma_somes_first(attempts: Seq<Option<CommandQueue>>)
    requires
        attempts.len() > 0,
        attempts[0].is_some(),
    ensures
        somes(attempts).len() >= 1,
        somes(attempts)[0] == attempts[0].unwrap(),
    decreases attempts.len(),
{
    let rest = attempts.drop_last();
    if attempts.len() > 1 {
        assert(rest[0] == attempts[0]);
        lemma_somes_first(rest);
        assert(somes(attempts)[0] == somes(rest)[0]);
    } else {
        assert(somes(rest) =~= Seq::<CommandQueue>::empty());
        assert(somes(attempts) =~= seq![attempts[0].unwrap()]);
    }
}

/// The memory model of every physical device: there is a memory type; every
/// memory type names a heap of the device and is coherent or cached only
/// where it is visible to the host; the type of the default role is local to
/// the device and nothing else. A device with heterogeneous heaps has the
/// three base types, any other device four times as many, of which those of
/// the image group and of the target group carry no host-access flag.
pub proof fn lemma_device_memory_model(device: PhysicalDevice)
    requires
        device.wf(),
    ensures
        device.spec_memory_types().len() > 0,
        device.spec_memory_heaps().len() > 0,
        device.spec_private_caps().heterogeneous_resource_heaps ==> device.spec_memory_types().len()
            == NUM_HEAP_PROPERTIES,
        !device.spec_private_caps().heterogeneous_resource_heaps ==> device.spec_memory_types().len()
            == 4 * NUM_HEAP_PROPERTIES,
        forall|i: int|
            0 <= i < device.spec_memory_types().len() ==> {
                &&& (#[trigger] device.spec_memory_types()[i]).heap_index
                    < device.spec_memory_heaps().len()
                &&& device.spec_memory_types()[i].properties.host_consistent()
                &&& i % 3 == 0 ==> device.spec_memory_types()[i].properties == (
                crate::memory::Properties { bits: DEVICE_LOCAL }) && device.spec_memory_types()[i].properties.host_free()
                &&& !device.spec_private_caps().heterogeneous_resource_heaps && i >= 6
                    ==> device.spec_memory_types()[i].properties.host_free()
            },
{
    let caps = device.spec_private_caps();
    crate::memory::lemma_memory_model(caps, 0, 0);
    crate::memory::lemma_memory_type_count(caps);
    assert forall|i: int| 0 <= i < device.spec_memory_types().len() implies {
        &&& (#[trigger] device.spec_memory_types()[i]).heap_index
            < device.spec_memory_heaps().len()
        &&& device.spec_memory_types()[i].properties.host_consistent()
        &&& i % 3 == 0 ==> device.spec_memory_types()[i].properties == (crate::memory::Properties {
            bits: DEVICE_LOCAL,
        }) && device.spec_memory_types()[i].properties.host_free()
        &&& !caps.heterogeneous_resource_heaps && i >= 6
            ==> device.spec_memory_types()[i].properties.host_free()
    } by {
        if i % 3 == 0 {
            crate::memory::lemma_default_types_device_local(caps, i);
        }
        if !caps.heterogeneous_resource_heaps && i >= 6 {
            crate::memory::lemma_group_ranges(i);
            crate::memory::lemma_unmappable_groups_host_free(caps.memory_architecture, i);
        }
    }
}

/// A physical device has at most one logical device at a time: once an open
/// has succeeded, every further open fails with too many objects, whatever
/// it asks for, until the device is torn down, which clears the flag; after
/// that an open succeeds exactly where its features are advertised.
pub proof fn lemma_open_is_exclusive(
    advertised: Features,
    first: Features,
    second: Features,
    third: Features,
)
    requires
        advertised.spec_contains(first),
    ensures
        open_outcome(false, advertised, first).is_ok(),
        flag_after_open(false, advertised, first),
        open_outcome(flag_after_open(false, advertised, first), advertised, second) == Err::<
            (),
            DeviceCreationError,
        >(DeviceCreationError::TooManyObjects),
        flag_after_open(flag_after_open(false, advertised, first), advertised, second),
        open_outcome(false, advertised, third).is_ok() <==> advertised.spec_contains(third),
{
}

/// An open that asks for a feature that is not advertised fails with a
/// missing feature, unless a device is open already, and leaves the flag as
/// it was.
pub proof fn lemma_missing_feature(is_open: bool, advertised: Features, requested: Features)
    requires
        !advertised.spec_contains(requested),
    ensures
        open_outcome(is_open, advertised, requested).is_err(),
        !is_open ==> open_outcome(is_open, advertised, requested) == Err::<
            (),
            DeviceCreationError,
        >(DeviceCreationError::MissingFeature),
        flag_after_open(is_open, advertised, requested) == is_open,
{
}

} // verus!
