//! A multi-producer channel whose single consumer is a task on a
//! single-threaded event loop.
//!
//! Producer handles push items into a shared queue and raise a readiness
//! marker; the loop observes the marker without blocking, drains the queue on
//! its own thread, and tears the channel down when the consumer side goes
//! away.  This crate holds the verified core of that design: the queue state,
//! the readiness marker, the attachment lifecycle, and the wait predicates
//! that blocking producers re-check after every wake.  The surrounding
//! runtime (mutex, condition variable, the loop itself) drives these
//! transitions and supplies the actual blocking.

pub mod dispatch;
pub mod errors;
pub mod laws;
pub mod model;
pub mod queue_core;
