//! Command queues: what a submission, a present and a wait for idle ask of
//! the native side, and in what order.

use vstd::prelude::*;
use crate::native::{Action, Handle, FENCE_RESET, FENCE_SIGNALED, INFINITE, PRESENT_SYNC_INTERVAL};

verus! {

/// Marks a present that went through although the swapchain no longer fits
/// its surface exactly.
#[derive(Clone, Copy, Debug, PartialEq, Eq, Structural)]
pub struct Suboptimal;

/// Why a present failed.
#[derive(Clone, Copy, Debug, PartialEq, Eq, Structural)]
pub enum PresentError {
    OutOfMemory,
    OutOfDate,
    SurfaceLost,
    DeviceLost,
}

/// Why an operation failed on the host.
#[derive(Clone, Copy, Debug, PartialEq, Eq, Structural)]
pub enum HostExecutionError {
    OutOfHostMemory,
    OutOfDeviceMemory,
    DeviceLost,
}

/// A native queue together with the fence and the event by which a thread
/// waits for the queue to run dry. The value is a handle: copies name the
/// same queue, and only the device that created the queue destroys it.
#[derive(Clone, Copy, Debug, PartialEq, Eq, Structural)]
pub struct CommandQueue {
    pub raw: Handle,
    pub idle_fence: Handle,
    pub idle_event: Handle,
}

/// What a submission asks of the native side: the actions before the batch,
/// the batch to execute on the queue, and the actions after it.
#[derive(Debug)]
pub struct Submission {
    pub before: Vec<Action>,
    pub queue: Handle,
    pub command_lists: Vec<Handle>,
    pub after: Vec<Action>,
}

/// The presents of a batch of swapchains, one for each, in order.
pub open spec fn present_actions(swapchains: Seq<(Handle, u32)>) -> Seq<Action> {
    Seq::new(
        swapchains.len(),
        |i: int|
            Action::Present {
                swapchain: swapchains[i].0,
                sync_interval: PRESENT_SYNC_INTERVAL,
                flags: 0,
            },
    )
}

impl CommandQueue {
    /// The actions that destroy the queue: the idle event first, then the
    /// idle fence, then the native queue.
    pub open spec fn spec_destroy(&self) -> Seq<Action> {
        seq![
            Action::CloseEvent { event: self.idle_event },
            Action::DestroyFence { fence: self.idle_fence },
            Action::DestroyQueue { queue: self.raw },
        ]
    }

    /// The actions before a batch: the idle fence and the idle event are
    /// reset.
    pub open spec fn spec_before_submit(&self) -> Seq<Action> {
        seq![
            Action::SignalFence { fence: self.idle_fence, value: FENCE_RESET },
            Action::ResetEvent { event: self.idle_event },
        ]
    }

    /// The actions after a batch: the fence of the submission, where there is
    /// one, is signaled by the queue.
    pub open spec fn spec_after_submit(&self, fence: Option<Handle>) -> Seq<Action> {
        match fence {
            Some(fence) => seq![
                Action::QueueSignal { queue: self.raw, fence, value: FENCE_SIGNALED },
            ],
            None => Seq::empty(),
        }
    }

    /// The actions of a wait for idle: the queue signals the idle fence, the
    /// idle event is armed to fire at that value, and the thread blocks on
    /// the event without a timeout.
    pub open spec fn spec_wait_idle(&self) -> Seq<Action> {
        seq![
            Action::QueueSignal { queue: self.raw, fence: self.idle_fence, value: FENCE_SIGNALED },
            Action::SetEventOnCompletion {
                fence: self.idle_fence,
                event: self.idle_event,
                value: FENCE_SIGNALED,
            },
            Action::WaitForEvent { event: self.idle_event, timeout: INFINITE },
        ]
    }

    /// A queue from its native parts.
    pub fn new(raw: Handle, idle_fence: Handle, idle_event: Handle) -> (queue: CommandQueue)
        ensures
            queue == (CommandQueue { raw, idle_fence, idle_event }),
    {
        CommandQueue { raw, idle_fence, idle_event }
    }

    /// The actions that destroy the queue.
    pub fn destroy(&self) -> (actions: Vec<Action>)
        ensures
            actions@ == self.spec_destroy(),
    {
        let mut actions: Vec<Action> = Vec::new();
        actions.push(Action::CloseEvent { event: self.idle_event });
        actions.push(Action::DestroyFence { fence: self.idle_fence });
        actions.push(Action::DestroyQueue { queue: self.raw });
        assert(actions@ =~= self.spec_destroy());
        actions
    }

    /// Submits a batch of command lists. The idle fence and event are reset
    /// first, which is sound because one thread at a time drives a queue;
    /// then the batch is executed; then the fence, where one is given, is
    /// signaled by the queue, so that it is reached only after the batch.
    /// Semaphores are not honoured.
    pub fn submit(&mut self, command_lists: Vec<Handle>, fence: Option<Handle>) -> (submission:
        Submission)
        ensures
            *final(self) == *old(self),
            submission.before@ == old(self).spec_before_submit(),
            submission.queue == old(self).raw,
            submission.command_lists@ == command_lists@,
            submission.after@ == old(self).spec_after_submit(fence),
    {
        let mut before: Vec<Action> = Vec::new();
        before.push(Action::SignalFence { fence: self.idle_fence, value: FENCE_RESET });
        before.push(Action::ResetEvent { event: self.idle_event });
        assert(before@ =~= self.spec_before_submit());
        let mut after: Vec<Action> = Vec::new();
        if let Some(fence) = fence {
            after.push(Action::QueueSignal { queue: self.raw, fence, value: FENCE_SIGNALED });
        }
        assert(after@ =~= self.spec_after_submit(fence));
        Submission { before, queue: self.raw, command_lists, after }
    }

    /// Presents a batch of swapchains, each given with the index of the
    /// image to show: one present for each, in order. The result is what to
    /// report once the actions are performed: success, never suboptimal.
    /// Semaphores to wait for are not honoured.
    pub fn present(&mut self, swapchains: &Vec<(Handle, u32)>) -> (outcome: (
        Vec<Action>,
        Result<Option<Suboptimal>, PresentError>,
    ))
        ensures
            *final(self) == *old(self),
            outcome.0@ == present_actions(swapchains@),
            outcome.1 == Ok::<Option<Suboptimal>, PresentError>(None),
    {
        let mut actions: Vec<Action> = Vec::new();
        let mut i: usize = 0;
        while i < swapchains.len()
            invariant
                i <= swapchains@.len(),
                actions@ == present_actions(swapchains@).take(i as int),
            decreases swapchains@.len() - i,
        {
            let (swapchain, _) = swapchains[i];
            actions.push(
                Action::Present { swapchain, sync_interval: PRESENT_SYNC_INTERVAL, flags: 0 },
            );
            assert(actions@ =~= present_actions(swapchains@).take(i + 1));
            i += 1;
        }
        assert(actions@ =~= present_actions(swapchains@));
        (actions, Ok(None))
    }

    /// Waits until the queue has run dry. The result is what to report once
    /// the actions are performed, the last of which returns only when all
    /// work submitted before has completed.
    pub fn wait_idle(&self) -> (outcome: (Vec<Action>, Result<(), HostExecutionError>))
        ensures
            outcome.0@ == self.spec_wait_idle(),
            outcome.1 == Ok::<(), HostExecutionError>(()),
    {
        let mut actions: Vec<Action> = Vec::new();
        actions.push(
            Action::QueueSignal { queue: self.raw, fence: self.idle_fence, value: FENCE_SIGNALED },
        );
        actions.push(
            Action::SetEventOnCompletion {
                fence: self.idle_fence,
                event: self.idle_event,
                value: FENCE_SIGNALED,
            },
        );
        actions.push(Action::WaitForEvent { event: self.idle_event, timeout: INFINITE });
        assert(actions@ =~= self.spec_wait_idle());
        (actions, Ok(()))
    }
}

} // verus!
