//! The mathematical model of the channel core.
//!
//! `CoreModel` is the ghost state that every contract in this crate speaks
//! of: the queued items as a sequence, the consumer attachment, the
//! readiness marker, the number of live producer handles, and the optional
//! capacity bound.  The spec functions on it describe each transition of
//! the channel exactly once; the executable code in `queue_core` and
//! `dispatch` promises to realise these transitions.

use crate::errors::TryRecvError;
use vstd::prelude::*;

verus! {

/// Where the consumer side of the channel stands.  The transition order is
/// one-directional: `NotAttached` to `Attached` to `Destroyed`, or
/// `NotAttached` to `Destroyed` directly when the consumer handle is
/// dropped without ever joining a loop.
#[derive(Clone, Copy, Debug, PartialEq, Eq, Structural)]
pub enum Attachment {
    /// The consumer handle exists but has not been turned into a loop task.
    NotAttached,
    /// A live loop task exists; it was created on `owner_thread` and may
    /// only ever be dispatched there.
    Attached { owner_thread: usize },
    /// The task was finalized, or the unused consumer handle was dropped.
    Destroyed,
}

/// The readiness marker the event loop polls without taking the queue lock.
#[derive(Clone, Copy, Debug, PartialEq, Eq, Structural)]
pub enum Readiness {
    /// Nothing to do; the loop leaves the task alone.
    Idle,
    /// Dispatch the task now: an item arrived or the producers are gone.
    Immediate,
}

/// The ghost state of one channel core.
#[verifier::ext_equal]
pub struct CoreModel<T> {
    /// Queued items, oldest first.
    pub items: Seq<T>,
    /// The consumer attachment state.
    pub attachment: Attachment,
    /// The readiness marker.
    pub ready: Readiness,
    /// Number of live producer handles.
    pub senders: nat,
    /// `None` for an unbounded channel; `Some(limit)` for a bounded one,
    /// where `limit == 0` means rendezvous mode.
    pub capacity: Option<nat>,
}

impl<T> CoreModel<T> {
    /// The consumer is permanently gone.
    pub open spec fn receiver_gone(self) -> bool {
        self.attachment is Destroyed
    }

    /// A live loop task is attached.
    pub open spec fn live_task(self) -> bool {
        self.attachment is Attached
    }

    /// The loop would dispatch the task now.
    pub open spec fn ready_now(self) -> bool {
        self.ready is Immediate
    }

    /// The channel is rendezvous-mode: every send waits for the handoff.
    pub open spec fn rendezvous(self) -> bool {
        self.capacity matches Some(limit) && limit == 0
    }

    /// The capacity bound is saturated.  An unbounded channel is never
    /// full; a rendezvous channel is full whenever an item is in flight.
    pub open spec fn is_full(self) -> bool {
        match self.capacity {
            Some(limit) => self.items.len() >= limit && self.items.len() > 0,
            None => false,
        }
    }

    /// A blocking send must keep waiting for space: the bound is saturated
    /// and the consumer still exists.  Disconnection ends the wait so that
    /// producers fail fast instead of hanging.
    pub open spec fn send_waits(self) -> bool {
        self.is_full() && !self.receiver_gone()
    }

    /// A rendezvous send must keep waiting for its item to be taken out:
    /// the queue is non-empty and the consumer still exists.
    pub open spec fn handoff_waits(self) -> bool {
        self.items.len() > 0 && !self.receiver_gone()
    }

    /// The queue never exceeds the bound, except for the single in-flight
    /// item of a rendezvous handoff.
    pub open spec fn wf(self) -> bool {
        match self.capacity {
            Some(limit) => self.items.len() <= (if limit == 0 { 1nat } else { limit }),
            None => true,
        }
    }

    /// What a non-blocking receive returns: the oldest item if one is
    /// queued, `Disconnected` if no producer handle is left, `Empty`
    /// otherwise.
    pub open spec fn pop_view(self) -> Result<T, TryRecvError> {
        if self.items.len() > 0 {
            Ok(self.items[0])
        } else if self.senders == 0 {
            Err(TryRecvError::Disconnected)
        } else {
            Err(TryRecvError::Empty)
        }
    }

    /// What a non-blocking bounded send returns, before any handoff wait.
    pub open spec fn try_send_view(self, t: T) -> Result<(), crate::errors::TrySendError<T>> {
        if self.is_full() {
            Err(crate::errors::TrySendError::Full(t))
        } else if self.receiver_gone() {
            Err(crate::errors::TrySendError::Disconnected(t))
        } else {
            Ok(())
        }
    }

    /// Raise the readiness marker, which only a live task can observe.
    pub open spec fn with_ready_immediate(self) -> CoreModel<T> {
        if self.live_task() {
            CoreModel { ready: Readiness::Immediate, ..self }
        } else {
            self
        }
    }

    /// An item is appended and the loop is signalled.
    pub open spec fn enqueued(self, t: T) -> CoreModel<T> {
        (CoreModel { items: self.items.push(t), ..self }).with_ready_immediate()
    }

    /// The oldest item leaves the queue; nothing else changes.
    pub open spec fn popped(self) -> CoreModel<T> {
        if self.items.len() > 0 {
            CoreModel { items: self.items.drop_first(), ..self }
        } else {
            self
        }
    }

    /// A producer handle was cloned.
    pub open spec fn add_sender(self) -> CoreModel<T> {
        CoreModel { senders: self.senders + 1, ..self }
    }

    /// A producer handle was dropped.  The last drop signals the loop so
    /// the consumer can observe "no producers left" without polling.
    pub open spec fn drop_sender(self) -> CoreModel<T>
        recommends
            self.senders > 0,
    {
        let base = CoreModel { senders: (self.senders - 1) as nat, ..self };
        if self.senders == 1 {
            base.with_ready_immediate()
        } else {
            base
        }
    }

    /// The consumer handle became a loop task owned by `thread`.  The task
    /// starts ready exactly when work is already waiting: items are queued
    /// or all producers are gone.
    pub open spec fn attached_on(self, thread: usize) -> CoreModel<T> {
        CoreModel {
            attachment: Attachment::Attached { owner_thread: thread },
            ready: if self.items.len() > 0 || self.senders == 0 {
                Readiness::Immediate
            } else {
                Readiness::Idle
            },
            ..self
        }
    }

    /// The consumer side went away for good: the task was finalized or the
    /// unattached consumer handle was dropped.  The two paths are the same
    /// transition, so producers cannot tell them apart.
    pub open spec fn disconnected(self) -> CoreModel<T> {
        CoreModel { attachment: Attachment::Destroyed, ..self }
    }

    /// The loop thread lowered the marker at the start of a dispatch.
    pub open spec fn ready_cleared(self) -> CoreModel<T> {
        CoreModel { ready: Readiness::Idle, ..self }
    }

    /// End of a rendezvous send after the wait: if the consumer vanished
    /// while the item was still queued, the item is taken back out.
    pub open spec fn send_finished(self) -> CoreModel<T> {
        if self.receiver_gone() && self.items.len() > 0 {
            self.popped()
        } else {
            self
        }
    }
}

} // verus!
