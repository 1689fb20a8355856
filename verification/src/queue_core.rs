//! The executable channel core.
//!
//! One `QueueCore` holds everything the producer and consumer sides share.
//! The surrounding runtime keeps it behind a single mutex and calls one
//! transition per critical section; every transition's contract is stated
//! over the ghost `CoreModel` view.  Blocking operations are split at their
//! wait points: the runtime loops on `send_should_wait` /
//! `handoff_should_wait` with a condition variable and re-checks after
//! every wake, then completes the operation with `send_enqueue` /
//! `send_finish` under the same lock.

use crate::errors::{SendError, TryRecvError, TrySendError};
use crate::model::{Attachment, CoreModel, Readiness};
use vstd::prelude::*;

verus! {

/// The shared state of one channel: the queued items, the consumer
/// attachment, the readiness marker, the count of live producer handles,
/// and the optional capacity bound.
pub struct QueueCore<T> {
    /// Queued items, oldest first.
    pub items: Vec<T>,
    /// The consumer attachment state.
    pub attachment: Attachment,
    /// The readiness marker the loop polls.
    pub ready: Readiness,
    /// Number of live producer handles.
    pub senders: usize,
    /// `None` for unbounded, `Some(limit)` for bounded, `Some(0)` for
    /// rendezvous mode.
    pub capacity: Option<usize>,
}

impl<T> View for QueueCore<T> {
    type V = CoreModel<T>;

    open spec fn view(&self) -> CoreModel<T> {
        CoreModel {
            items: self.items@,
            attachment: self.attachment,
            ready: self.ready,
            senders: self.senders as nat,
            capacity: match self.capacity {
                Some(limit) => Some(limit as nat),
                None => None,
            },
        }
    }
}

impl<T> QueueCore<T> {
    /// A fresh channel core: empty queue, consumer not yet attached,
    /// marker idle, and exactly one producer handle outstanding.
    pub fn new(capacity: Option<usize>) -> (core: QueueCore<T>)
        ensures
            core@.items == Seq::<T>::empty(),
            core@.attachment == Attachment::NotAttached,
            core@.ready == Readiness::Idle,
            core@.senders == 1nat,
            core@.capacity == (match capacity {
                Some(limit) => Some(limit as nat),
                None => None::<nat>,
            }),
            core@.wf(),
    {
        QueueCore {
            items: Vec::new(),
            attachment: Attachment::NotAttached,
            ready: Readiness::Idle,
            senders: 1,
            capacity,
        }
    }

    /// The consumer side is permanently gone.
    pub fn receiver_gone(&self) -> (r: bool)
        ensures
            r == self@.receiver_gone(),
    {
        match self.attachment {
            Attachment::Destroyed => true,
            _ => false,
        }
    }

    /// Raise the readiness marker if a live task is attached to see it.
    fn signal_ready(&mut self)
        ensures
            final(self)@ == old(self)@.with_ready_immediate(),
    {
        match self.attachment {
            Attachment::Attached { .. } => {
                self.ready = Readiness::Immediate;
            },
            _ => {},
        }
        proof {
            assert(self@ =~= old(self)@.with_ready_immediate());
        }
    }

    /// The wait predicate of a blocking bounded send: the caller must keep
    /// waiting while the bound is saturated and the consumer still exists.
    /// The runtime re-checks this after every wake of the capacity
    /// condition variable.
    pub fn send_should_wait(&self) -> (r: bool)
        ensures
            r == self@.send_waits(),
    {
        match self.capacity {
            Some(limit) => {
                self.items.len() >= limit && self.items.len() > 0 && !self.receiver_gone()
            },
            None => false,
        }
    }

    /// Complete the enqueue half of a send, once waiting (if any) is over:
    /// fail and hand the item back if the consumer is gone, otherwise
    /// append the item and signal the loop.
    pub fn send_enqueue(&mut self, t: T) -> (r: Result<(), SendError<T>>)
        requires
            !old(self)@.send_waits(),
            old(self)@.wf(),
        ensures
            old(self)@.receiver_gone() ==> r == Err::<(), SendError<T>>(SendError(t))
                && final(self)@ == old(self)@,
            !old(self)@.receiver_gone() ==> r == Ok::<(), SendError<T>>(())
                && final(self)@ == old(self)@.enqueued(t),
            final(self)@.wf(),
    {
        if self.receiver_gone() {
            return Err(SendError(t));
        }
        self.items.push(t);
        proof {
            assert(self@ =~= (CoreModel { items: old(self)@.items.push(t), ..old(self)@ }));
        }
        self.signal_ready();
        Ok(())
    }

    /// The wait predicate of the rendezvous handoff: the caller must keep
    /// waiting while its item is still queued and the consumer still
    /// exists.
    pub fn handoff_should_wait(&self) -> (r: bool)
        ensures
            r == self@.handoff_waits(),
    {
        self.items.len() > 0 && !self.receiver_gone()
    }

    /// Complete a rendezvous send once the handoff wait is over.  If the
    /// consumer vanished while the item was still queued, the item is
    /// taken back out and the send reports failure; if the item was
    /// already consumed before the disconnection, the send counts as
    /// successful even though the consumer is gone now.
    pub fn send_finish(&mut self) -> (r: Result<(), SendError<T>>)
        requires
            old(self)@.rendezvous(),
            !old(self)@.handoff_waits(),
        ensures
            final(self)@ == old(self)@.send_finished(),
            old(self)@.receiver_gone() && old(self)@.items.len() > 0 ==> r
                == Err::<(), SendError<T>>(SendError(old(self)@.items[0])),
            !(old(self)@.receiver_gone() && old(self)@.items.len() > 0) ==> r == Ok::<
                (),
                SendError<T>,
            >(()),
    {
        if self.receiver_gone() {
            if self.items.len() > 0 {
                let t = self.items.remove(0);
                proof {
                    assert(self@ =~= old(self)@.send_finished());
                }
                return Err(SendError(t));
            }
        }
        Ok(())
    }

    /// The non-blocking half of `try_send` on a bounded channel: reject
    /// with `Full` when the bound is saturated, with `Disconnected` when
    /// the consumer is gone, and otherwise enqueue and signal the loop.
    /// In rendezvous mode the caller still waits for the handoff
    /// afterwards; "try" only governs whether enqueuing waits for space.
    pub fn try_send_enqueue(&mut self, t: T) -> (r: Result<(), TrySendError<T>>)
        requires
            old(self)@.capacity is Some,
            old(self)@.wf(),
        ensures
            r == old(self)@.try_send_view(t),
            old(self)@.try_send_view(t) is Ok ==> final(self)@ == old(self)@.enqueued(t),
            old(self)@.try_send_view(t) is Err ==> final(self)@ == old(self)@,
            final(self)@.wf(),
    {
        let full = match self.capacity {
            Some(limit) => self.items.len() >= limit && self.items.len() > 0,
            None => false,
        };
        if full {
            return Err(TrySendError::Full(t));
        }
        if self.receiver_gone() {
            return Err(TrySendError::Disconnected(t));
        }
        self.items.push(t);
        proof {
            assert(self@ =~= (CoreModel { items: old(self)@.items.push(t), ..old(self)@ }));
        }
        self.signal_ready();
        Ok(())
    }

    /// Take the oldest item out, or report why there is none: `Empty`
    /// while producers remain, `Disconnected` once none is left.  The
    /// runtime wakes one blocked producer after every successful pop.
    pub fn try_recv(&mut self) -> (r: Result<T, TryRecvError>)
        ensures
            r == old(self)@.pop_view(),
            final(self)@ == old(self)@.popped(),
    {
        if self.items.len() > 0 {
            let t = self.items.remove(0);
            proof {
                assert(old(self)@.items.remove(0) =~= old(self)@.items.drop_first());
                assert(self@ =~= old(self)@.popped());
            }
            Ok(t)
        } else if self.senders == 0 {
            Err(TryRecvError::Disconnected)
        } else {
            Err(TryRecvError::Empty)
        }
    }

    /// A producer handle was cloned.
    pub fn sender_added(&mut self)
        requires
            old(self).senders < usize::MAX,
        ensures
            final(self)@ == old(self)@.add_sender(),
    {
        self.senders = self.senders + 1;
        proof {
            assert(self@ =~= old(self)@.add_sender());
        }
    }

    /// A producer handle was dropped.  The last drop raises the readiness
    /// marker so an attached consumer observes "no producers left" without
    /// a separate poll.
    pub fn sender_removed(&mut self)
        requires
            old(self).senders > 0,
        ensures
            final(self)@ == old(self)@.drop_sender(),
    {
        self.senders = self.senders - 1;
        if self.senders == 0 {
            proof {
                assert(self@ =~= (CoreModel { senders: (old(self)@.senders - 1) as nat, ..old(self)@ }));
            }
            self.signal_ready();
        } else {
            proof {
                assert(self@ =~= old(self)@.drop_sender());
            }
        }
    }

    /// The consumer handle became a loop task owned by `thread`.  The task
    /// starts ready exactly when work is already waiting for it: items are
    /// queued or every producer is gone.
    pub fn attach(&mut self, thread: usize)
        requires
            old(self).attachment is NotAttached,
        ensures
            final(self)@ == old(self)@.attached_on(thread),
    {
        let now_ready = self.items.len() > 0 || self.senders == 0;
        self.attachment = Attachment::Attached { owner_thread: thread };
        self.ready = if now_ready {
            Readiness::Immediate
        } else {
            Readiness::Idle
        };
        proof {
            assert(self@ =~= old(self)@.attached_on(thread));
        }
    }

    /// The consumer side goes away for good: the loop finalized the task,
    /// or the consumer handle was dropped without ever being attached.
    /// The runtime wakes all blocked producers right after this, so they
    /// observe the disconnection instead of hanging.
    pub fn disconnect_receiver(&mut self)
        ensures
            final(self)@ == old(self)@.disconnected(),
    {
        self.attachment = Attachment::Destroyed;
        proof {
            assert(self@ =~= old(self)@.disconnected());
        }
    }
}

} // verus!
