//! Verified core of a Direct3D 12 style graphics backend.
//!
//! The crate holds the decisions such a backend takes: how an adapter's
//! memory model is synthesised from its heap tier and memory architecture,
//! which queues an `open` creates and in which groups they end up, in what
//! order a device is torn down, and which capabilities a format has given
//! the support bits the native device reports. Talking to the native API is
//! left to the caller: every native object appears here as an opaque handle,
//! and every native operation as an action value that the caller performs.

pub mod device;
pub mod features;
pub mod format;
pub mod image;
pub mod instance;
pub mod limits;
pub mod memory;
pub mod native;
pub mod physical_device;
pub mod queue;
pub mod queue_family;

pub use crate::device::Device;
pub use crate::format::FormatProperties;
pub use crate::instance::Instance;
pub use crate::memory::Capabilities;
pub use crate::physical_device::PhysicalDevice;
pub use crate::queue::CommandQueue;
pub use crate::queue_family::QueueFamily;

use vstd::prelude::*;

verus! {

/// Marker type that ties the backend's types together. It carries no data:
/// its single value only names the backend.
#[derive(Copy, Clone, Debug, Eq, Hash, PartialEq)]
pub enum Backend {
    Dx12,
}

} // verus!
