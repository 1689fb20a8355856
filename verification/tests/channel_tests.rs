//! The channel driven end to end through the verified core: producers
//! enqueue, the loop thread drains through a callback, teardown races are
//! replayed step by step.

use loop_channel::dispatch::DispatchStep;
use loop_channel::errors::{SendError, TrySendError};
use loop_channel::queue_core::QueueCore;

const LOOP_THREAD: usize = 1;

/// Drive one full dispatch on the loop thread: lower the marker, then
/// drain through `callback` until the queue is empty, the producers are
/// gone, or the callback asks to stop.  Returns `true` while the task
/// stays registered; on `false` the task is finalized, as the loop would.
fn run_dispatch<F: FnMut(i32) -> bool>(core: &mut QueueCore<i32>, mut callback: F) -> bool {
    assert!(core.thread_allowed(LOOP_THREAD));
    core.dispatch_clear_ready(LOOP_THREAD);
    loop {
        match core.dispatch_next() {
            DispatchStep::Deliver(item) => {
                if !callback(item) {
                    core.disconnect_receiver();
                    return false;
                }
            }
            DispatchStep::KeepAttached => return true,
            DispatchStep::RemoveTask => {
                core.disconnect_receiver();
                return false;
            }
        }
    }
}

#[test]
fn test_channel() {
    let mut core: QueueCore<i32> = QueueCore::new(None);
    core.attach(LOOP_THREAD);

    core.send_enqueue(1).unwrap();
    core.send_enqueue(2).unwrap();
    core.send_enqueue(3).unwrap();

    let mut sum = 0;
    assert!(core.is_ready());
    run_dispatch(&mut core, |item| {
        sum += item;
        sum != 6
    });

    assert_eq!(sum, 6);
}

#[test]
fn test_drop_sender() {
    let mut core: QueueCore<i32> = QueueCore::new(None);
    core.attach(LOOP_THREAD);

    // Dropping the only sender raises the marker; the next dispatch sees
    // the disconnection and the loop removes the task.
    core.sender_removed();
    assert!(core.is_ready());
    let keep = run_dispatch(&mut core, |_| true);
    assert!(!keep);
}

#[test]
fn test_drop_receiver() {
    let mut core: QueueCore<i32> = QueueCore::new(None);

    // The receiver is dropped without ever being attached.
    core.disconnect_receiver();
    assert_eq!(core.send_enqueue(1), Err(SendError(1)));
}

#[test]
fn test_remove_receiver() {
    let mut core: QueueCore<i32> = QueueCore::new(None);
    core.attach(LOOP_THREAD);

    // The loop destroys the source; finalize marks the channel.
    core.disconnect_receiver();

    assert_eq!(core.send_enqueue(1), Err(SendError(1)));
}

#[test]
fn test_remove_receiver_and_drop_source() {
    let mut core: QueueCore<i32> = QueueCore::new(None);
    core.attach(LOOP_THREAD);

    core.disconnect_receiver();

    // Finalize ran: the disconnection is observable on both sides.
    assert!(core.receiver_gone());
    assert_eq!(core.send_enqueue(1), Err(SendError(1)));
}

#[test]
fn test_sync_channel() {
    let mut core: QueueCore<i32> = QueueCore::new(Some(2));
    core.attach(LOOP_THREAD);

    // The first two must succeed.
    core.try_send_enqueue(1).unwrap();
    core.try_send_enqueue(2).unwrap();

    // This fills up the channel.
    assert!(core.try_send_enqueue(3).is_err());

    // A blocking send would wait now.
    assert!(core.send_should_wait());

    let mut sum = 0;
    let mut keep = run_dispatch(&mut core, |item| {
        sum += item;
        sum != 6
    });
    assert!(keep);

    // The drain freed space, so the blocked sender proceeds.
    assert!(!core.send_should_wait());
    core.send_enqueue(3).unwrap();

    keep = run_dispatch(&mut core, |item| {
        sum += item;
        sum != 6
    });
    assert!(!keep);
    assert_eq!(sum, 6);
}

#[test]
fn test_sync_channel_drop_wakeup() {
    let mut core: QueueCore<i32> = QueueCore::new(Some(3));
    core.attach(LOOP_THREAD);

    // The first three must succeed.
    core.try_send_enqueue(1).unwrap();
    core.try_send_enqueue(2).unwrap();
    core.try_send_enqueue(3).unwrap();

    // The fourth send would block until the receiver is removed.
    assert!(core.send_should_wait());

    let mut sum = 0;
    let keep = run_dispatch(&mut core, |item| {
        sum += item;
        sum != 6
    });
    assert!(!keep);
    assert_eq!(sum, 6);

    // Teardown woke the blocked sender; its re-check sees the
    // disconnection and the send errors out instead of hanging.
    assert!(!core.send_should_wait());
    assert_eq!(core.send_enqueue(4), Err(SendError(4)));
}

#[test]
fn test_sync_channel_drop_receiver_wakeup() {
    let mut core: QueueCore<i32> = QueueCore::new(Some(2));

    // The first two must succeed.
    core.try_send_enqueue(1).unwrap();
    core.try_send_enqueue(2).unwrap();

    // The third send blocks; dropping the receiver must wake it.
    assert!(core.send_should_wait());
    core.disconnect_receiver();
    assert!(!core.send_should_wait());
    assert_eq!(core.send_enqueue(3), Err(SendError(3)));
}

#[test]
fn test_sync_channel_rendezvous() {
    let mut core: QueueCore<i32> = QueueCore::new(Some(0));
    core.attach(LOOP_THREAD);

    // First send: the queue is empty, so the enqueue goes through, but
    // the sender then waits for the handoff.
    assert!(!core.send_should_wait());
    core.send_enqueue(1).unwrap();
    assert!(core.handoff_should_wait());

    // The second send must not proceed before the first item is consumed.
    assert!(core.send_should_wait());

    let mut sum = 0;

    // The loop takes the first item; only now is the first sender
    // released and the second may enqueue.
    let step = {
        core.dispatch_clear_ready(LOOP_THREAD);
        core.dispatch_next()
    };
    assert_eq!(step, DispatchStep::Deliver(1));
    sum += 1;
    assert!(!core.handoff_should_wait());
    assert_eq!(core.send_finish(), Ok(()));

    assert!(!core.send_should_wait());
    core.send_enqueue(2).unwrap();
    assert!(core.handoff_should_wait());
    let step = {
        core.dispatch_clear_ready(LOOP_THREAD);
        core.dispatch_next()
    };
    assert_eq!(step, DispatchStep::Deliver(2));
    sum += 2;
    assert_eq!(core.send_finish(), Ok(()));

    assert!(!core.send_should_wait());
    core.send_enqueue(3).unwrap();
    let step = {
        core.dispatch_clear_ready(LOOP_THREAD);
        core.dispatch_next()
    };
    assert_eq!(step, DispatchStep::Deliver(3));
    sum += 3;
    assert_eq!(core.send_finish(), Ok(()));

    assert_eq!(sum, 6);
}

#[test]
fn try_send_full_then_disconnected() {
    let mut core: QueueCore<i32> = QueueCore::new(Some(1));
    assert_eq!(core.try_send_enqueue(10), Ok(()));
    assert_eq!(core.try_send_enqueue(11), Err(TrySendError::Full(11)));
    core.disconnect_receiver();
    // Still full: fullness is reported before the disconnection.
    assert_eq!(core.try_send_enqueue(12), Err(TrySendError::Full(12)));
    core.try_recv().unwrap();
    assert_eq!(core.try_send_enqueue(13), Err(TrySendError::Disconnected(13)));
}

#[test]
fn rendezvous_send_fails_when_item_not_taken() {
    let mut core: QueueCore<i32> = QueueCore::new(Some(0));
    core.send_enqueue(9).unwrap();
    assert!(core.handoff_should_wait());

    // The consumer vanishes while the item is still queued: the item is
    // taken back out and the send reports failure.
    core.disconnect_receiver();
    assert!(!core.handoff_should_wait());
    assert_eq!(core.send_finish(), Err(SendError(9)));
}

#[test]
fn rendezvous_send_succeeds_when_item_taken_before_disconnect() {
    let mut core: QueueCore<i32> = QueueCore::new(Some(0));
    core.attach(LOOP_THREAD);
    core.send_enqueue(9).unwrap();

    // The item is consumed first, the disconnection comes right after:
    // the send still counts as successful.
    core.dispatch_clear_ready(LOOP_THREAD);
    assert_eq!(core.dispatch_next(), DispatchStep::Deliver(9));
    core.disconnect_receiver();
    assert!(!core.handoff_should_wait());
    assert_eq!(core.send_finish(), Ok(()));
}
