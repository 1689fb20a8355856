//! The loop-facing side of the channel: the readiness query and the
//! dispatch protocol.
//!
//! The event loop polls `is_ready` without taking the queue lock for long,
//! and when the task is ready it runs one dispatch on its own thread:
//! check the thread affinity, lower the marker with
//! `dispatch_clear_ready`, then drain the queue step by step with
//! `dispatch_next`, handing each delivered item to the user callback
//! outside the lock.  `KeepAttached` ends the dispatch with the task still
//! registered; `RemoveTask` asks the loop to remove and finalize it.

use crate::errors::TryRecvError;
use crate::model::{Attachment, Readiness};
use crate::queue_core::QueueCore;
use vstd::prelude::*;

verus! {

/// What one dispatch step tells the loop to do next.
#[derive(Debug, PartialEq, Eq)]
pub enum DispatchStep<T> {
    /// Pass this item to the user callback, then take the next step.
    Deliver(T),
    /// The queue is drained and producers remain: stop here and keep the
    /// task registered.
    KeepAttached,
    /// No producer is left; the task will never be woken again, so the
    /// loop should remove and finalize it.
    RemoveTask,
}

impl<T> QueueCore<T> {
    /// The readiness query the loop polls: dispatch now, or nothing to do.
    pub fn is_ready(&self) -> (r: bool)
        ensures
            r == self@.ready_now(),
    {
        match self.ready {
            Readiness::Immediate => true,
            Readiness::Idle => false,
        }
    }

    /// Whether `thread` is the thread the task was attached on.  Dispatch
    /// from any other thread is a programming error, and the runtime
    /// aborts on it rather than continue into a data race.
    pub fn thread_allowed(&self, thread: usize) -> (r: bool)
        ensures
            r == (self@.attachment matches Attachment::Attached { owner_thread } && owner_thread
                == thread),
    {
        match self.attachment {
            Attachment::Attached { owner_thread } => owner_thread == thread,
            _ => false,
        }
    }

    /// Start a dispatch on the owning thread: lower the readiness marker.
    /// Items drained from here on are covered by this dispatch; a new push
    /// raises the marker again.
    pub fn dispatch_clear_ready(&mut self, thread: usize)
        requires
            old(self)@.attachment matches Attachment::Attached { owner_thread } && owner_thread
                == thread,
        ensures
            final(self)@ == old(self)@.ready_cleared(),
    {
        self.ready = Readiness::Idle;
        proof {
            assert(self@ =~= old(self)@.ready_cleared());
        }
    }

    /// One step of the dispatch drain: deliver the oldest item, or say how
    /// the dispatch ends.  The queue reporting `Disconnected` rather than
    /// `Empty` is what tells the loop to drop the task for good.
    pub fn dispatch_next(&mut self) -> (r: DispatchStep<T>)
        ensures
            final(self)@ == old(self)@.popped(),
            old(self)@.items.len() > 0 ==> r == DispatchStep::Deliver(old(self)@.items[0]),
            old(self)@.items.len() == 0 && old(self)@.senders == 0 ==> r
                == DispatchStep::RemoveTask::<T>,
            old(self)@.items.len() == 0 && old(self)@.senders > 0 ==> r
                == DispatchStep::KeepAttached::<T>,
    {
        match self.try_recv() {
            Ok(item) => DispatchStep::Deliver(item),
            Err(TryRecvError::Empty) => DispatchStep::KeepAttached,
            Err(TryRecvError::Disconnected) => DispatchStep::RemoveTask,
        }
    }
}

} // verus!
