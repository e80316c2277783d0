//! The vocabulary shared with the native side: handles of native objects,
//! the objects to create, and the operations to perform.
//!
//! Nothing here touches the native API. A handle is a number by which the
//! caller finds a native object again; an action names one native operation
//! that the caller performs, in the order in which the actions are handed
//! out.

use vstd::prelude::*;
use crate::queue_family::CmdListType;

verus! {

/// The feature level every native device is created at.
pub const FEATURE_LEVEL_11_0: u32 = 0xb000;

/// Value a fence holds once the work before its signal has completed.
pub const FENCE_SIGNALED: u64 = 1;

/// Value an idle fence is reset to before a submission.
pub const FENCE_RESET: u64 = 0;

/// Timeout of a wait that never gives up.
pub const INFINITE: u32 = 0xFFFF_FFFF;

/// Number of vertical blanks a present waits for.
pub const PRESENT_SYNC_INTERVAL: u32 = 1;

/// Capacity of the shader-visible heap of resource views.
pub const VIEW_HEAP_CAPACITY: usize = 1_000_000;

/// Capacity of the shader-visible heap of samplers.
pub const SAMPLER_HEAP_CAPACITY: usize = 2_048;

/// Names a native object. The library never looks inside.
#[derive(Clone, Copy, Debug, PartialEq, Eq, Hash, Structural)]
pub struct Handle(pub usize);

/// What a descriptor heap or pool holds.
#[derive(Clone, Copy, Debug, PartialEq, Eq, Structural)]
pub enum HeapType {
    /// Constant-buffer, shader-resource and unordered-access views.
    CbvSrvUav,
    Sampler,
    /// Render-target views.
    Rtv,
    /// Depth-stencil views.
    Dsv,
}

/// The argument layout of an indirect command.
#[derive(Clone, Copy, Debug, PartialEq, Eq, Structural)]
pub enum CommandSignature {
    Draw,
    DrawIndexed,
    Dispatch,
}

/// How a native queue is created.
#[derive(Clone, Copy, Debug, PartialEq, Eq, Structural)]
pub struct QueueDesc {
    pub list_type: CmdListType,
    /// Native priority; 0 is normal.
    pub priority: i32,
    /// Native queue flags; 0 is none.
    pub flags: u32,
    pub node_mask: u32,
}

impl QueueDesc {
    /// A queue of normal priority, without flags, on the first node.
    pub open spec fn spec_normal(list_type: CmdListType) -> QueueDesc {
        QueueDesc { list_type, priority: 0, flags: 0, node_mask: 0 }
    }

    /// A queue of normal priority, without flags, on the first node.
    #[verifier::when_used_as_spec(spec_normal)]
    pub fn normal(list_type: CmdListType) -> (desc: QueueDesc)
        ensures
            desc == Self::spec_normal(list_type),
    {
        QueueDesc { list_type, priority: 0, flags: 0, node_mask: 0 }
    }
}

/// A native object that a device needs from its creation on.
#[derive(Clone, Copy, Debug, PartialEq, Eq, Structural)]
pub enum Creation {
    /// A pool of descriptors that only the host reads.
    DescriptorPool(HeapType),
    /// A heap of descriptors.
    DescriptorHeap { ty: HeapType, shader_visible: bool, capacity: usize },
    CommandSignature(CommandSignature),
    /// The internal pipelines for blits and the like.
    ServicePipes,
}

/// One native operation.
#[derive(Clone, Copy, Debug, PartialEq, Eq, Structural)]
pub enum Action {
    /// Set the value of a fence from the host.
    SignalFence { fence: Handle, value: u64 },
    /// Put an event back into the unsignaled state.
    ResetEvent { event: Handle },
    /// Have the queue set the fence to the value once the work submitted
    /// before has completed.
    QueueSignal { queue: Handle, fence: Handle, value: u64 },
    /// Present the current image of a swapchain.
    Present { swapchain: Handle, sync_interval: u32, flags: u32 },
    /// Have the event fire once the fence reaches the value.
    SetEventOnCompletion { fence: Handle, event: Handle, value: u64 },
    /// Block the calling thread until the event fires.
    WaitForEvent { event: Handle, timeout: u32 },
    CloseEvent { event: Handle },
    DestroyFence { fence: Handle },
    DestroyQueue { queue: Handle },
    DestroyCommandSignature { signature: Handle },
    DestroyServicePipes { pipes: Handle },
    DestroyDescriptorHeap { heap: Handle },
    DestroyDescriptorPool { pool: Handle },
    /// Destroy a scratch pool for descriptor updates.
    DestroyUpdatePool { pool: Handle },
    /// Report the objects of the device that are still alive, where the
    /// debug layer is there to do so.
    ReportLiveObjects { device: Handle },
    DestroyDevice { device: Handle },
}

} // verus!
