//! The logical device: the native objects it owns from its creation on, and
//! the order in which they are destroyed.

use vstd::prelude::*;
use crate::memory::{Capabilities, HeapProperties};
use crate::native::{
    Action, CommandSignature, Creation, Handle, HeapType, SAMPLER_HEAP_CAPACITY,
    VIEW_HEAP_CAPACITY,
};
use crate::physical_device::PhysicalDevice;
use crate::queue::CommandQueue;

verus! {

/// The signatures of the three indirect commands.
#[derive(Clone, Copy, Debug, PartialEq, Eq, Structural)]
pub struct CmdSignatures {
    pub draw: Handle,
    pub draw_indexed: Handle,
    pub dispatch: Handle,
}

/// What all command buffers of a device share.
#[derive(Clone, Copy, Debug, PartialEq, Eq, Structural)]
pub struct Shared {
    pub signatures: CmdSignatures,
    pub service_pipes: Handle,
}

impl CmdSignatures {
    /// The actions that destroy the three signatures, in order.
    pub open spec fn spec_destroy(&self) -> Seq<Action> {
        seq![
            Action::DestroyCommandSignature { signature: self.draw },
            Action::DestroyCommandSignature { signature: self.draw_indexed },
            Action::DestroyCommandSignature { signature: self.dispatch },
        ]
    }

    /// The actions that destroy the three signatures: draw, indexed draw,
    /// dispatch.
    pub fn destroy(&self) -> (actions: Vec<Action>)
        ensures
            actions@ == self.spec_destroy(),
    {
        let mut actions: Vec<Action> = Vec::new();
        actions.push(Action::DestroyCommandSignature { signature: self.draw });
        actions.push(Action::DestroyCommandSignature { signature: self.draw_indexed });
        actions.push(Action::DestroyCommandSignature { signature: self.dispatch });
        assert(actions@ =~= self.spec_destroy());
        actions
    }
}

impl Shared {
    /// The actions that destroy the shared objects, in order.
    pub open spec fn spec_destroy(&self) -> Seq<Action> {
        self.signatures.spec_destroy().push(
            Action::DestroyServicePipes { pipes: self.service_pipes },
        )
    }

    /// The actions that destroy the shared objects: the signatures, then the
    /// service pipelines.
    pub fn destroy(&self) -> (actions: Vec<Action>)
        ensures
            actions@ == self.spec_destroy(),
    {
        let mut actions = self.signatures.destroy();
        actions.push(Action::DestroyServicePipes { pipes: self.service_pipes });
        actions
    }
}

/// The handles of the native objects created for a device, named by their
/// purpose.
#[derive(Clone, Copy, Debug, PartialEq, Eq, Structural)]
pub struct DeviceObjects {
    pub rtv_pool: Handle,
    pub dsv_pool: Handle,
    pub srv_uav_pool: Handle,
    pub sampler_pool: Handle,
    pub heap_srv_cbv_uav: Handle,
    pub heap_sampler: Handle,
    pub draw_signature: Handle,
    pub draw_indexed_signature: Handle,
    pub dispatch_signature: Handle,
    pub service_pipes: Handle,
}

/// The native objects to create for a device, in the order of the fields of
/// `DeviceObjects`: four host-only descriptor pools, the two shader-visible
/// descriptor heaps, the three command signatures, the service pipelines.
pub open spec fn creation_plan_spec() -> Seq<Creation> {
    seq![
        Creation::DescriptorPool(HeapType::Rtv),
        Creation::DescriptorPool(HeapType::Dsv),
        Creation::DescriptorPool(HeapType::CbvSrvUav),
        Creation::DescriptorPool(HeapType::Sampler),
        Creation::DescriptorHeap {
            ty: HeapType::CbvSrvUav,
            shader_visible: true,
            capacity: VIEW_HEAP_CAPACITY,
        },
        Creation::DescriptorHeap {
            ty: HeapType::Sampler,
            shader_visible: true,
            capacity: SAMPLER_HEAP_CAPACITY,
        },
        Creation::CommandSignature(CommandSignature::Draw),
        Creation::CommandSignature(CommandSignature::DrawIndexed),
        Creation::CommandSignature(CommandSignature::Dispatch),
        Creation::ServicePipes,
    ]
}

/// The actions that destroy the queues of a device, queue after queue.
pub open spec fn queues_teardown(queues: Seq<CommandQueue>) -> Seq<Action>
    decreases queues.len(),
{
    if queues.len() == 0 {
        Seq::empty()
    } else {
        queues_teardown(queues.drop_last()) + queues.last().spec_destroy()
    }
}

/// The actions that destroy the scratch pools for descriptor updates.
pub open spec fn update_pools_teardown(pools: Seq<Handle>) -> Seq<Action> {
    Seq::new(pools.len(), |i: int| Action::DestroyUpdatePool { pool: pools[i] })
}

/// A logical device. Only one exists at a time for a physical device.
#[derive(Debug)]
pub struct Device {
    pub raw: Handle,
    pub private_caps: Capabilities,
    pub heap_properties: [HeapProperties; 3],
    /// Host-only pool of render-target views.
    pub rtv_pool: Handle,
    /// Host-only pool of depth-stencil views.
    pub dsv_pool: Handle,
    /// Host-only pool of shader-resource and unordered-access views.
    pub srv_uav_pool: Handle,
    /// Host-only pool of samplers.
    pub sampler_pool: Handle,
    /// Scratch pools for descriptor updates.
    pub descriptor_update_pools: Vec<Handle>,
    /// Shader-visible heap of resource views.
    pub heap_srv_cbv_uav: Handle,
    /// Shader-visible heap of samplers.
    pub heap_sampler: Handle,
    pub shared: Shared,
    /// The queue of the present family. A swapchain needs it at creation.
    pub present_queue: Handle,
    /// Every queue created from this device, in the order of creation.
    pub queues: Vec<CommandQueue>,
}

impl Device {
    /// The actions of a teardown, in order: every queue, the shared objects,
    /// the two shader-visible heaps, the four host-only pools, the scratch
    /// pools, the report of live objects, the native device.
    pub open spec fn spec_teardown(&self) -> Seq<Action> {
        queues_teardown(self.queues@) + self.shared.spec_destroy() + seq![
            Action::DestroyDescriptorHeap { heap: self.heap_srv_cbv_uav },
            Action::DestroyDescriptorHeap { heap: self.heap_sampler },
            Action::DestroyDescriptorPool { pool: self.rtv_pool },
            Action::DestroyDescriptorPool { pool: self.dsv_pool },
            Action::DestroyDescriptorPool { pool: self.srv_uav_pool },
            Action::DestroyDescriptorPool { pool: self.sampler_pool },
        ] + update_pools_teardown(self.descriptor_update_pools@) + seq![
            Action::ReportLiveObjects { device: self.raw },
            Action::DestroyDevice { device: self.raw },
        ]
    }

    /// Whether the device is as `new` makes it from these parts.
    pub open spec fn fresh_from(
        &self,
        raw: Handle,
        private_caps: Capabilities,
        heap_properties: Seq<HeapProperties>,
        present_queue: Handle,
        objects: DeviceObjects,
    ) -> bool {
        &&& self.raw == raw
        &&& self.private_caps == private_caps
        &&& self.heap_properties@ == heap_properties
        &&& self.rtv_pool == objects.rtv_pool
        &&& self.dsv_pool == objects.dsv_pool
        &&& self.srv_uav_pool == objects.srv_uav_pool
        &&& self.sampler_pool == objects.sampler_pool
        &&& self.descriptor_update_pools@ == Seq::<Handle>::empty()
        &&& self.heap_srv_cbv_uav == objects.heap_srv_cbv_uav
        &&& self.heap_sampler == objects.heap_sampler
        &&& self.shared == (Shared {
            signatures: CmdSignatures {
                draw: objects.draw_signature,
                draw_indexed: objects.draw_indexed_signature,
                dispatch: objects.dispatch_signature,
            },
            service_pipes: objects.service_pipes,
        })
        &&& self.present_queue == present_queue
    }

    /// The native objects to create for a device, in order.
    pub fn creation_plan() -> (plan: Vec<Creation>)
        ensures
            plan@ == creation_plan_spec(),
    {
        let mut plan: Vec<Creation> = Vec::new();
        plan.push(Creation::DescriptorPool(HeapType::Rtv));
        plan.push(Creation::DescriptorPool(HeapType::Dsv));
        plan.push(Creation::DescriptorPool(HeapType::CbvSrvUav));
        plan.push(Creation::DescriptorPool(HeapType::Sampler));
        plan.push(
            Creation::DescriptorHeap {
                ty: HeapType::CbvSrvUav,
                shader_visible: true,
                capacity: VIEW_HEAP_CAPACITY,
            },
        );
        plan.push(
            Creation::DescriptorHeap {
                ty: HeapType::Sampler,
                shader_visible: true,
                capacity: SAMPLER_HEAP_CAPACITY,
            },
        );
        plan.push(Creation::CommandSignature(CommandSignature::Draw));
        plan.push(Creation::CommandSignature(CommandSignature::DrawIndexed));
        plan.push(Creation::CommandSignature(CommandSignature::Dispatch));
        plan.push(Creation::ServicePipes);
        assert(plan@ =~= creation_plan_spec());
        plan
    }

    /// A device without queues, from the native device, the present queue
    /// and the objects created after `creation_plan`. Capabilities and heap
    /// properties are those of the physical device.
    pub fn new(
        raw: Handle,
        physical_device: &PhysicalDevice,
        present_queue: Handle,
        objects: DeviceObjects,
    ) -> (device: Device)
        ensures
            device.fresh_from(
                raw,
                physical_device.spec_private_caps(),
                physical_device.spec_heap_properties(),
                present_queue,
                objects,
            ),
            device.queues@ == Seq::<CommandQueue>::empty(),
    {
        let signatures = CmdSignatures {
            draw: objects.draw_signature,
            draw_indexed: objects.draw_indexed_signature,
            dispatch: objects.dispatch_signature,
        };
        let shared = Shared { signatures, service_pipes: objects.service_pipes };
        Device {
            raw,
            private_caps: physical_device.private_caps(),
            heap_properties: physical_device.heap_properties(),
            rtv_pool: objects.rtv_pool,
            dsv_pool: objects.dsv_pool,
            srv_uav_pool: objects.srv_uav_pool,
            sampler_pool: objects.sampler_pool,
            descriptor_update_pools: Vec::new(),
            heap_srv_cbv_uav: objects.heap_srv_cbv_uav,
            heap_sampler: objects.heap_sampler,
            shared,
            present_queue,
            queues: Vec::new(),
        }
    }

    /// Registers a queue created from this device.
    pub fn append_queue(&mut self, queue: CommandQueue)
        ensures
            final(self).queues@ == old(self).queues@.push(queue),
            final(self).raw == old(self).raw,
            final(self).private_caps == old(self).private_caps,
            final(self).heap_properties == old(self).heap_properties,
            final(self).rtv_pool == old(self).rtv_pool,
            final(self).dsv_pool == old(self).dsv_pool,
            final(self).srv_uav_pool == old(self).srv_uav_pool,
            final(self).sampler_pool == old(self).sampler_pool,
            final(self).descriptor_update_pools == old(self).descriptor_update_pools,
            final(self).heap_srv_cbv_uav == old(self).heap_srv_cbv_uav,
            final(self).heap_sampler == old(self).heap_sampler,
            final(self).shared == old(self).shared,
            final(self).present_queue == old(self).present_queue,
    {
        self.queues.push(queue);
    }

    /// The handle of the native device.
    pub fn as_raw(&self) -> (raw: Handle)
        ensures
            raw == self.raw,
    {
        self.raw
    }

    /// Ends the life of the device. The open flag of the physical device is
    /// cleared before anything else, so that by the time the first action is
    /// performed a new `open` is already free to go ahead. The actions
    /// returned destroy what the device owns, in the order of
    /// `spec_teardown`.
    pub fn teardown(self, physical_device: &mut PhysicalDevice) -> (actions: Vec<Action>)
        ensures
            !final(physical_device).spec_is_open(),
            final(physical_device).same_adapter(*old(physical_device)),
            old(physical_device).wf() ==> final(physical_device).wf(),
            actions@ == self.spec_teardown(),
    {
        physical_device.release();
        let mut actions: Vec<Action> = Vec::new();
        let mut i: usize = 0;
        while i < self.queues.len()
            invariant
                i <= self.queues@.len(),
                actions@ == queues_teardown(self.queues@.take(i as int)),
            decreases self.queues@.len() - i,
        {
            let mut step = self.queues[i].destroy();
            actions.append(&mut step);
            assert(self.queues@.take(i + 1).drop_last() =~= self.queues@.take(i as int));
            i += 1;
        }
        assert(self.queues@.take(i as int) =~= self.queues@);
        let mut shared = self.shared.destroy();
        actions.append(&mut shared);
        actions.push(Action::DestroyDescriptorHeap { heap: self.heap_srv_cbv_uav });
        actions.push(Action::DestroyDescriptorHeap { heap: self.heap_sampler });
        actions.push(Action::DestroyDescriptorPool { pool: self.rtv_pool });
        actions.push(Action::DestroyDescriptorPool { pool: self.dsv_pool });
        actions.push(Action::DestroyDescriptorPool { pool: self.srv_uav_pool });
        actions.push(Action::DestroyDescriptorPool { pool: self.sampler_pool });
        let ghost head = actions@;
        assert(head =~= queues_teardown(self.queues@) + self.shared.spec_destroy() + seq![
            Action::DestroyDescriptorHeap { heap: self.heap_srv_cbv_uav },
            Action::DestroyDescriptorHeap { heap: self.heap_sampler },
            Action::DestroyDescriptorPool { pool: self.rtv_pool },
            Action::DestroyDescriptorPool { pool: self.dsv_pool },
            Action::DestroyDescriptorPool { pool: self.srv_uav_pool },
            Action::DestroyDescriptorPool { pool: self.sampler_pool },
        ]);
        let mut j: usize = 0;
        while j < self.descriptor_update_pools.len()
            invariant
                j <= self.descriptor_update_pools@.len(),
                actions@ == head + update_pools_teardown(self.descriptor_update_pools@).take(
                    j as int,
                ),
            decreases self.descriptor_update_pools@.len() - j,
        {
            actions.push(Action::DestroyUpdatePool { pool: self.descriptor_update_pools[j] });
            assert(actions@ =~= head + update_pools_teardown(self.descriptor_update_pools@).take(
                j + 1,
            ));
            j += 1;
        }
        assert(update_pools_teardown(self.descriptor_update_pools@).take(j as int)
            =~= update_pools_teardown(self.descriptor_update_pools@));
        actions.push(Action::ReportLiveObjects { device: self.raw });
        actions.push(Action::DestroyDevice { device: self.raw });
        assert(actions@ =~= self.spec_teardown());
        actions
    }
}

/// The teardown of a device destroys each of its queues with three actions,
/// before anything else, and ends with the native device.
pub proof fn lemma_teardown_shape(device: Device)
    ensures
        queues_teardown(device.queues@).len() == 3 * device.queues@.len(),
        device.spec_teardown().len() == 3 * device.queues@.len() + 12
            + device.descriptor_update_pools@.len(),
        device.spec_teardown().last() == (Action::DestroyDevice { device: device.raw }),
        forall|i: int|
            0 <= i < device.queues@.len() ==> {
                &&& #[trigger] device.spec_teardown()[3 * i] == (Action::CloseEvent {
                    event: device.queues@[i].idle_event,
                })
                &&& device.spec_teardown()[3 * i + 1] == (Action::DestroyFence {
                    fence: device.queues@[i].idle_fence,
                })
                &&& device.spec_teardown()[3 * i + 2] == (Action::DestroyQueue {
                    queue: device.queues@[i].raw,
                })
            },
{
    lemma_queues_teardown(device.queues@);
}

/// The actions that destroy a list of queues: three for each queue, in the
/// order of the list.
pub proof fn lemma_queues_teardown(queues: Seq<CommandQueue>)
    ensures
        queues_teardown(queues).len() == 3 * queues.len(),
        forall|i: int|
            0 <= i < queues.len() ==> {
                &&& #[trigger] queues_teardown(queues)[3 * i] == (Action::CloseEvent {
                    event: queues[i].idle_event,
                })
                &&& queues_teardown(queues)[3 * i + 1] == (Action::DestroyFence {
                    fence: queues[i].idle_fence,
                })
                &&& queues_teardown(queues)[3 * i + 2] == (Action::DestroyQueue {
                    queue: queues[i].raw,
                })
            },
    decreases queues.len(),
{
    if queues.len() > 0 {
        lemma_queues_teardown(queues.drop_last());
        assert forall|i: int| 0 <= i < queues.len() implies {
            &&& #[trigger] queues_teardown(queues)[3 * i] == (Action::CloseEvent {
                event: queues[i].idle_event,
            })
            &&& queues_teardown(queues)[3 * i + 1] == (Action::DestroyFence {
                fence: queues[i].idle_fence,
            })
            &&& queues_teardown(queues)[3 * i + 2] == (Action::DestroyQueue {
                queue: queues[i].raw,
            })
        } by {
            if i < queues.len() - 1 {
                assert(queues.drop_last()[i] == queues[i]);
                assert(queues_teardown(queues.drop_last())[3 * i] == (Action::CloseEvent {
                    event: queues[i].idle_event,
                }));
            }
        }
    }
}

} // verus!
