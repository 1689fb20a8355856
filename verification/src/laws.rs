//! The channel's guarantees, stated and proved over the ghost model.
//!
//! Each proof function here is a law of the transition system in
//! `model`: what a caller may rely on across whole runs of pushes, pops,
//! drops and teardowns, beyond the per-call contracts in `queue_core` and
//! `dispatch`.

use crate::errors::{TryRecvError, TrySendError};
use crate::model::{Attachment, CoreModel};
use vstd::prelude::*;

verus! {

/// The state after pushing every item of `xs`, oldest first.
pub open spec fn enqueue_all<T>(m: CoreModel<T>, xs: Seq<T>) -> CoreModel<T>
    decreases xs.len(),
{
    if xs.len() == 0 {
        m
    } else {
        enqueue_all(m.enqueued(xs[0]), xs.drop_first())
    }
}

/// The state after `n` pops.
pub open spec fn pop_n<T>(m: CoreModel<T>, n: nat) -> CoreModel<T>
    decreases n,
{
    if n == 0 {
        m
    } else {
        pop_n(m.popped(), (n - 1) as nat)
    }
}

/// The items that `n` pops deliver, in delivery order.
pub open spec fn delivered<T>(m: CoreModel<T>, n: nat) -> Seq<T>
    decreases n,
{
    if n == 0 || m.items.len() == 0 {
        Seq::empty()
    } else {
        seq![m.items[0]] + delivered(m.popped(), (n - 1) as nat)
    }
}

/// Every item of `xs` is accepted in turn by a non-blocking send.
pub open spec fn all_accepted<T>(m: CoreModel<T>, xs: Seq<T>) -> bool
    decreases xs.len(),
{
    xs.len() == 0 || (m.try_send_view(xs[0]) is Ok && all_accepted(m.enqueued(xs[0]), xs.drop_first()))
}

/// Pushes append in order and touch nothing but the queue and the marker.
pub proof fn lemma_enqueue_order<T>(m: CoreModel<T>, xs: Seq<T>)
    ensures
        enqueue_all(m, xs).items == m.items + xs,
        enqueue_all(m, xs).senders == m.senders,
        enqueue_all(m, xs).attachment == m.attachment,
        enqueue_all(m, xs).capacity == m.capacity,
    decreases xs.len(),
{
    if xs.len() == 0 {
        assert(m.items + xs =~= m.items);
    } else {
        lemma_enqueue_order(m.enqueued(xs[0]), xs.drop_first());
        assert(m.items.push(xs[0]) + xs.drop_first() =~= m.items + xs);
    }
}

/// Pops deliver the oldest items first and touch nothing but the queue.
pub proof fn lemma_delivery_order<T>(m: CoreModel<T>, n: nat)
    requires
        n <= m.items.len(),
    ensures
        delivered(m, n) == m.items.take(n as int),
        pop_n(m, n).items == m.items.skip(n as int),
        pop_n(m, n).senders == m.senders,
        pop_n(m, n).attachment == m.attachment,
        pop_n(m, n).capacity == m.capacity,
        pop_n(m, n).ready == m.ready,
    decreases n,
{
    if n == 0 {
        assert(delivered(m, n) =~= m.items.take(0));
        assert(m.items.skip(0) =~= m.items);
    } else {
        lemma_delivery_order(m.popped(), (n - 1) as nat);
        assert(m.items.drop_first().take(n - 1) =~= m.items.take(n as int).drop_first());
        assert(seq![m.items[0]] + m.items.take(n as int).drop_first() =~= m.items.take(n as int));
        assert(m.items.drop_first().skip(n - 1) =~= m.items.skip(n as int));
    }
}

/// FIFO: starting from an empty queue, pushing the items of `xs` in order
/// and then draining them delivers exactly `xs`, in the same order the
/// pushes went in.
pub proof fn lemma_fifo<T>(m: CoreModel<T>, xs: Seq<T>)
    requires
        m.items.len() == 0,
    ensures
        delivered(enqueue_all(m, xs), xs.len()) == xs,
{
    lemma_enqueue_order(m, xs);
    lemma_delivery_order(enqueue_all(m, xs), xs.len());
    assert((m.items + xs).take(xs.len() as int) =~= xs);
}

/// Disconnection visibility: once the last producer handle is gone,
/// draining the queue ends in `Disconnected`, never in an endless
/// `Empty`.  The items still queued at the drop are delivered first.
pub proof fn lemma_disconnection_visible<T>(m: CoreModel<T>)
    requires
        m.senders == 0,
    ensures
        delivered(m, m.items.len()) == m.items,
        pop_n(m, m.items.len()).pop_view() == Err::<T, TryRecvError>(TryRecvError::Disconnected),
{
    lemma_delivery_order(m, m.items.len());
    assert(m.items.take(m.items.len() as int) =~= m.items);
    assert(m.items.skip(m.items.len() as int) =~= Seq::<T>::empty());
}

/// While the queue stays under its bound, every non-blocking send is
/// accepted.
proof fn lemma_accepts_under_capacity<T>(m: CoreModel<T>, xs: Seq<T>)
    requires
        !m.receiver_gone(),
        m.capacity matches Some(limit) && m.items.len() + xs.len() <= limit,
    ensures
        all_accepted(m, xs),
    decreases xs.len(),
{
    if xs.len() > 0 {
        lemma_accepts_under_capacity(m.enqueued(xs[0]), xs.drop_first());
    }
}

/// Bounded backpressure: on a bounded channel with capacity `N == xs.len()`
/// and an empty queue, all `N` non-blocking sends are accepted, the next
/// one reports `Full`, a blocking send at that point waits, and a single
/// pop frees exactly the space that lets it proceed.
pub proof fn lemma_bounded_backpressure<T>(m: CoreModel<T>, xs: Seq<T>, extra: T)
    requires
        m.items.len() == 0,
        !m.receiver_gone(),
        m.capacity matches Some(limit) && limit == xs.len() && limit > 0,
    ensures
        all_accepted(m, xs),
        enqueue_all(m, xs).try_send_view(extra) == Err::<(), TrySendError<T>>(TrySendError::Full(
            extra,
        )),
        enqueue_all(m, xs).send_waits(),
        !enqueue_all(m, xs).popped().send_waits(),
{
    lemma_accepts_under_capacity(m, xs);
    lemma_enqueue_order(m, xs);
    assert((m.items + xs).len() == xs.len());
}

/// Teardown wakes waiters: once the consumer side is gone, neither wait
/// predicate holds, so a blocked producer that is woken re-checks and
/// returns `Disconnected` instead of hanging.
pub proof fn lemma_teardown_unblocks<T>(m: CoreModel<T>)
    ensures
        !m.disconnected().send_waits(),
        !m.disconnected().handoff_waits(),
{
}

/// Rendezvous handoff: while a sent item is still queued and the consumer
/// exists, the sending producer keeps waiting; the moment the single
/// in-flight item is popped, the wait is over and the send completes.
pub proof fn lemma_rendezvous_handoff<T>(m: CoreModel<T>)
    requires
        m.rendezvous(),
        m.items.len() > 0,
        !m.receiver_gone(),
    ensures
        m.handoff_waits(),
        m.items.len() == 1 ==> !m.popped().handoff_waits(),
{
}

/// No spurious dispatch: every transition that is neither a push nor a
/// disconnection leaves an idle readiness marker idle, so the loop is
/// never told "ready" when nothing happened since the last dispatch.
pub proof fn lemma_no_spurious_ready<T>(m: CoreModel<T>)
    requires
        !m.ready_now(),
    ensures
        !m.popped().ready_now(),
        !m.add_sender().ready_now(),
        m.senders > 1 ==> !m.drop_sender().ready_now(),
        !m.ready_cleared().ready_now(),
{
}

/// The marker misses no real readiness transition: a push signals an
/// attached task, and so does the drop of the last producer handle.
pub proof fn lemma_ready_signals<T>(m: CoreModel<T>, t: T)
    ensures
        m.live_task() ==> m.enqueued(t).ready_now(),
        m.live_task() && m.senders == 1 ==> m.drop_sender().ready_now(),
{
}

/// The capacity invariant holds across every transition: the queue never
/// exceeds its bound, except for the single in-flight item of a
/// rendezvous handoff.  Enqueues keep it because they only happen once
/// the channel is not full.
pub proof fn lemma_wf_preserved<T>(m: CoreModel<T>, t: T, thread: usize)
    requires
        m.wf(),
    ensures
        !m.is_full() ==> m.enqueued(t).wf(),
        m.try_send_view(t) is Ok ==> m.enqueued(t).wf(),
        m.popped().wf(),
        m.add_sender().wf(),
        m.drop_sender().wf(),
        m.disconnected().wf(),
        m.attached_on(thread).wf(),
        m.ready_cleared().wf(),
        m.send_finished().wf(),
{
}

/// Destruction is final: once the consumer side is gone, no transition
/// brings it back, so producers that saw `Disconnected` stay
/// disconnected.  (Attaching is no exception: it is only ever applied to
/// a channel whose consumer was never attached nor destroyed.)
pub proof fn lemma_destroyed_is_final<T>(m: CoreModel<T>, t: T)
    requires
        m.receiver_gone(),
    ensures
        m.enqueued(t).receiver_gone(),
        m.popped().receiver_gone(),
        m.add_sender().receiver_gone(),
        m.drop_sender().receiver_gone(),
        m.ready_cleared().receiver_gone(),
        m.send_finished().receiver_gone(),
        m.disconnected().receiver_gone(),
{
}

/// Thread affinity: a task attached on one thread never passes the
/// affinity check on another, so cross-thread dispatch is detected.
pub proof fn lemma_thread_affinity<T>(m: CoreModel<T>, attach_thread: usize, other: usize)
    requires
        other != attach_thread,
    ensures
        !(m.attached_on(attach_thread).attachment matches Attachment::Attached { owner_thread }
            && owner_thread == other),
{
}

} // verus!
