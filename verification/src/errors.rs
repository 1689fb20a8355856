//! Failure values returned by the channel operations.

use vstd::prelude::*;

verus! {

/// A blocking send failed because the consumer side is permanently gone.
/// The item is handed back to the caller.
#[derive(Debug, PartialEq, Eq)]
pub struct SendError<T>(pub T);

/// A non-blocking send was rejected.  `Full` is distinct from
/// `Disconnected` so that callers can choose between retrying and giving
/// up.  Both variants hand the item back.
#[derive(Debug, PartialEq, Eq)]
pub enum TrySendError<T> {
    /// The capacity bound is saturated; the consumer may still drain items.
    Full(T),
    /// The consumer side is permanently gone.
    Disconnected(T),
}

/// A non-blocking receive found nothing to take.
#[derive(Debug, Clone, Copy, PartialEq, Eq, Structural)]
pub enum TryRecvError {
    /// The queue is empty but producers still exist.
    Empty,
    /// The queue is empty and no producer handle is left.
    Disconnected,
}

} // verus!
