//! The suspending wait group for tokio: an atomic count, with a
//! `tokio::sync::Notify` as notifier.
//!
//! The count moves exactly as in the other flavours, through the verified
//! transition functions of [`crate::counter`]; only the `done` call that
//! moves the count from one to zero notifies, and it wakes every waiter
//! currently registered on the notifier. A suspending waiter registers
//! through [`register`](AsyncWaitGroup::register) and decides each poll
//! through [`counter::poll_transition`](crate::counter::poll_transition);
//! the future driving that loop, and the helper that blocks a thread on it,
//! live with the embedding application, since they need an executor.

use core::sync::atomic::AtomicUsize;
use core::sync::atomic::Ordering;
use vstd::prelude::*;

use crate::arc::arc_deref;
use crate::arc::arc_new;
use crate::atomic::fetch_add_step;
use crate::atomic::fetch_try_decrement;
use crate::counter::done_step;

verus! {

#[verifier::external_type_specification]
#[verifier::external_body]
pub struct ExNotify(::tokio::sync::Notify);

#[verifier::external_type_specification]
#[verifier::external_body]
pub struct ExNotified<'a>(::tokio::sync::futures::Notified<'a>);

/// Relies on `tokio::sync::Notify::new`: a fresh notifier with no waiters
/// and no stored notification.
#[verifier::external_body]
fn notify_new() -> (r: ::tokio::sync::Notify) {
    ::tokio::sync::Notify::new()
}

/// Relies on `tokio::sync::Notify::notify_waiters`: wakes every
/// registration created on this notifier before the call (polled or not);
/// it stores no permit for registrations created later.
#[verifier::external_body]
fn notify_all_waiters(notify: &::tokio::sync::Notify) {
    notify.notify_waiters();
}

/// Relies on `tokio::sync::Notify::notified`: a future that completes once
/// `notify_waiters` is called after the future's creation. A notification
/// sent before its creation is not delivered to it, which is why a waiter
/// must re-check the count after registering rather than trust a pending
/// registration.
#[verifier::external_body]
fn notify_register<'a>(notify: &'a ::tokio::sync::Notify) -> (r: ::tokio::sync::futures::Notified<
    'a,
>) {
    notify.notified()
}

#[derive(Debug)]
struct Inner {
    counter: AtomicUsize,
    notify: ::tokio::sync::Notify,
}

/// A wait group that waits for a collection of tokio tasks to finish.
///
/// The coordinator calls [`add`](AsyncWaitGroup::add) once per unit of work
/// before dispatching it, and every worker calls
/// [`done`](AsyncWaitGroup::done) exactly once on completion. A suspending
/// waiter registers through [`register`](AsyncWaitGroup::register) and polls
/// by the protocol of
/// [`counter::poll_transition`](crate::counter::poll_transition). All clones
/// share one count.
#[derive(Clone, Debug)]
pub struct AsyncWaitGroup {
    inner: triomphe::Arc<Inner>,
}

impl Default for AsyncWaitGroup {
    /// The default wait group has no outstanding work.
    fn default() -> Self {
        Self::new()
    }
}

impl AsyncWaitGroup {
    /// Whether two handles are views onto one shared state, so that the
    /// count one of them moves is the count the other observes.
    pub closed spec fn shares_state_with(&self, other: &Self) -> bool {
        self.inner == other.inner
    }

    /// Creates a wait group with no outstanding work: a wait on it completes
    /// immediately.
    pub fn new() -> Self {
        Self::from(0)
    }

    /// Creates a wait group with `count` units of work already outstanding.
    pub fn from(count: usize) -> Self {
        Self { inner: arc_new(Inner { counter: AtomicUsize::new(count), notify: notify_new() }) }
    }

    /// Raises the shared count by `num` atomically (`0` is a no-op; the
    /// count saturates at the machine limit rather than wrapping) and
    /// returns another handle to the same state, ready to hand to the
    /// dispatched worker. Raising the count notifies nobody: only the
    /// zero-transition of [`done`](AsyncWaitGroup::done) does.
    ///
    /// `add` calls that establish a wait cycle's count must be sequenced
    /// before the corresponding wait; on reuse, before the next cycle's
    /// `add`, the previous wait must have returned.
    pub fn add(&self, num: usize) -> (r: Self)
        ensures
            r.shares_state_with(self),
    {
        fetch_add_step(&arc_deref(&self.inner).counter, num);
        Self { inner: self.inner.clone() }
    }

    /// Lowers the shared count by one atomically, floored at zero — a `done`
    /// beyond the outstanding work is a safe no-op, never an underflow or a
    /// wrap-around. When this very call moves the count from one to zero it
    /// wakes every registered waiter, after the lowered count is already
    /// visible; no other transition notifies.
    pub fn done(self) {
        let inner = arc_deref(&self.inner);
        let prev = match fetch_try_decrement(&inner.counter) {
            Ok(p) => p,
            Err(p) => p,
        };
        let (_, zero_transition) = done_step(prev);
        if zero_transition {
            notify_all_waiters(&inner.notify);
        }
    }

    /// Reads the current count: how many units of work are still
    /// outstanding at some moment during the call.
    pub fn waitings(&self) -> (r: usize) {
        arc_deref(&self.inner).counter.load(Ordering::Acquire)
    }

    /// Registers interest in the next notification: the returned future
    /// completes when a [`done`](AsyncWaitGroup::done) performs the
    /// zero-transition after this registration was created. A registration
    /// alone proves nothing about the count: a waiter must re-check
    /// [`waitings`](AsyncWaitGroup::waitings) on every poll, through
    /// [`counter::poll_transition`](crate::counter::poll_transition), before
    /// trusting a pending registration.
    pub fn register(&self) -> (r: ::tokio::sync::futures::Notified<'_>) {
        notify_register(&arc_deref(&self.inner).notify)
    }
}

} // verus!
