//! The spinning wait group: no lock, no notifier, just an atomic count.
//!
//! This flavour suits contexts without an operating system's parking
//! primitives. It has no notifier: a waiter is expected to busy-spin
//! re-reading [`waitings`](WaitGroup::waitings) — with
//! [`counter::quiescent`](crate::counter::quiescent) as the completion test —
//! until the count is zero. That documented low-efficiency driving loop has
//! no termination measure of its own (only the other handles' `done` calls
//! end it), so it lives with the embedding application, not here.

use core::sync::atomic::AtomicUsize;
use core::sync::atomic::Ordering;
use vstd::prelude::*;

use crate::arc::arc_deref;
use crate::arc::arc_new;
use crate::atomic::fetch_add_step;
use crate::atomic::fetch_try_decrement;
use crate::counter::done_step;

verus! {

#[derive(Debug)]
struct Inner {
    counter: AtomicUsize,
}

/// A wait group that waits for a collection of concurrent tasks to finish
/// by spinning on the shared count.
///
/// The coordinator calls [`add`](WaitGroup::add) once per unit of work
/// before dispatching it, every worker calls [`done`](WaitGroup::done)
/// exactly once on completion, and a wait spins until
/// [`waitings`](WaitGroup::waitings) is back to zero. All clones share one
/// count.
#[derive(Clone, Debug)]
pub struct WaitGroup {
    inner: triomphe::Arc<Inner>,
}

impl Default for WaitGroup {
    /// The default wait group has no outstanding work.
    fn default() -> Self {
        Self::new()
    }
}

impl WaitGroup {
    /// Whether two handles are views onto one shared state, so that the
    /// count one of them moves is the count the other observes.
    pub closed spec fn shares_state_with(&self, other: &Self) -> bool {
        self.inner == other.inner
    }

    /// Creates a wait group with no outstanding work: a wait on it
    /// completes immediately.
    pub fn new() -> Self {
        Self::from(0)
    }

    /// Creates a wait group with `count` units of work already outstanding.
    pub fn from(count: usize) -> Self {
        Self { inner: arc_new(Inner { counter: AtomicUsize::new(count) }) }
    }

    /// Raises the shared count by `num` (`0` is a no-op; the count saturates
    /// at the machine limit) and returns another handle to the same state,
    /// ready to hand to the dispatched worker.
    ///
    /// `add` calls that establish a wait cycle's count must be sequenced
    /// before the corresponding wait; on reuse, before the next cycle's
    /// `add`, the previous wait must have returned.
    pub fn add(&self, num: usize) -> (r: Self)
        ensures
            r.shares_state_with(self),
    {
        fetch_add_step(&arc_deref(&self.inner).counter, num);
        Self { inner: self.inner.clone() }
    }

    /// Lowers the shared count by one, floored at zero — a `done` beyond the
    /// outstanding work is a safe no-op, never an underflow — and returns
    /// the remaining count the update left behind.
    pub fn done(&self) -> (r: usize) {
        let prev = match fetch_try_decrement(&arc_deref(&self.inner).counter) {
            Ok(p) => p,
            Err(p) => p,
        };
        let (next, _) = done_step(prev);
        next
    }

    /// Reads the current count: how many units of work are still
    /// outstanding at some moment during the call.
    pub fn waitings(&self) -> (r: usize) {
        arc_deref(&self.inner).counter.load(Ordering::Acquire)
    }

}

} // verus!
