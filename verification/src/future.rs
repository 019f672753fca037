//! The suspending wait group: an atomic count, with an event-listener
//! registry as notifier.
//!
//! This flavour supports any number of concurrent suspended waiters. A waiter
//! follows the registration discipline of [`crate::counter`]: check the
//! count, register a listener, re-check the count before trusting the
//! registration, and on every later poll decide through
//! [`counter::poll_transition`](crate::counter::poll_transition) — so the
//! race between a zero-transition and a waiter registering is closed. Only
//! the `done` call that moves the count from one to zero notifies, and it
//! notifies every registered listener.

use core::sync::atomic::AtomicUsize;
use core::sync::atomic::Ordering;
use event_listener::Listener;
use vstd::prelude::*;

use crate::arc::arc_deref;
use crate::arc::arc_new;
use crate::atomic::fetch_add_step;
use crate::atomic::fetch_try_decrement;
use crate::counter::done_step;
use crate::counter::quiescent;

verus! {

#[verifier::external_type_specification]
#[verifier::external_body]
#[verifier::reject_recursive_types(T)]
pub struct ExEvent<T>(event_listener::Event<T>);

#[verifier::external_type_specification]
#[verifier::external_body]
#[verifier::reject_recursive_types(T)]
pub struct ExEventListener<T>(event_listener::EventListener<T>);

/// Relies on `event_listener::Event::new`: a fresh event with no listeners.
#[verifier::external_body]
fn event_new() -> (r: event_listener::Event) {
    event_listener::Event::new()
}

/// Relies on `event_listener::Event::listen`: registers a fresh listener on
/// this event. The listener will be woken by any later notification of the
/// event; a notification sent before this call is never delivered to it.
#[verifier::external_body]
fn event_listen(event: &event_listener::Event) -> (l: event_listener::EventListener) {
    event.listen()
}

/// Relies on `event_listener::Event::notify`: wakes every listener currently
/// registered on this event (the whole registry, not a single waiter).
#[verifier::external_body]
fn event_notify_all(event: &event_listener::Event) {
    event.notify(usize::MAX);
}

/// Relies on `event_listener::Listener::wait`: blocks the calling thread
/// until this listener receives a notification.
#[verifier::external_body]
fn listener_block(l: event_listener::EventListener) {
    l.wait();
}

#[derive(Debug)]
struct Inner {
    counter: AtomicUsize,
    event: event_listener::Event,
}

/// A wait group that waits for a collection of concurrent tasks to finish.
///
/// The coordinator calls [`add`](AsyncWaitGroup::add) once per unit of work
/// before dispatching it, and every worker calls
/// [`done`](AsyncWaitGroup::done) exactly once on completion. A suspending
/// waiter registers through [`register`](AsyncWaitGroup::register) and polls
/// by the protocol of [`counter::poll_transition`](crate::counter::poll_transition);
/// a thread-context waiter calls
/// [`wait_blocking`](AsyncWaitGroup::wait_blocking). All clones share one
/// count.
#[derive(Clone, Debug)]
pub struct AsyncWaitGroup {
    inner: triomphe::Arc<Inner>,
}

impl Default for AsyncWaitGroup {
    /// The default wait group has no outstanding work.
    fn default() -> Self {
        Self::new()
    }
}

impl AsyncWaitGroup {
    /// Whether two handles are views onto one shared state, so that the
    /// count one of them moves is the count the other observes.
    pub closed spec fn shares_state_with(&self, other: &Self) -> bool {
        self.inner == other.inner
    }

    /// Creates a wait group with no outstanding work: a wait on it completes
    /// immediately.
    pub fn new() -> Self {
        Self::from(0)
    }

    /// Creates a wait group with `count` units of work already outstanding.
    pub fn from(count: usize) -> Self {
        Self { inner: arc_new(Inner { counter: AtomicUsize::new(count), event: event_new() }) }
    }

    /// Raises the shared count by `num` atomically (`0` is a no-op; the
    /// count saturates at the machine limit rather than wrapping) and
    /// returns another handle to the same state, ready to hand to the
    /// dispatched worker. Raising the count notifies nobody: only the
    /// zero-transition of [`done`](AsyncWaitGroup::done) does.
    ///
    /// `add` calls that establish a wait cycle's count must be sequenced
    /// before the corresponding wait; on reuse, before the next cycle's
    /// `add`, the previous wait must have returned.
    pub fn add(&self, num: usize) -> (r: Self)
        ensures
            r.shares_state_with(self),
    {
        fetch_add_step(&arc_deref(&self.inner).counter, num);
        Self { inner: self.inner.clone() }
    }

    /// Lowers the shared count by one atomically, floored at zero — a `done`
    /// beyond the outstanding work is a safe no-op, never an underflow — and
    /// returns the remaining count its update left behind. When this very
    /// call moves the count from one to zero it notifies every registered
    /// listener, after the lowered count is already visible; no other
    /// transition notifies.
    pub fn done(&self) -> (r: usize) {
        let inner = arc_deref(&self.inner);
        let prev = match fetch_try_decrement(&inner.counter) {
            Ok(p) => p,
            Err(p) => p,
        };
        let (lowered, zero_transition) = done_step(prev);
        if zero_transition {
            event_notify_all(&inner.event);
        }
        lowered
    }

    /// Reads the current count: how many units of work are still
    /// outstanding at some moment during the call.
    pub fn waitings(&self) -> (r: usize) {
        arc_deref(&self.inner).counter.load(Ordering::Acquire)
    }

    /// Registers interest in the next notification: the returned listener
    /// fires when a later [`done`](AsyncWaitGroup::done) performs the
    /// zero-transition. A registration alone proves nothing about the count:
    /// a waiter must re-check [`waitings`](AsyncWaitGroup::waitings) after
    /// registering — and on every poll, through
    /// [`counter::poll_transition`](crate::counter::poll_transition) —
    /// before trusting a pending registration.
    pub fn register(&self) -> (l: event_listener::EventListener) {
        event_listen(&arc_deref(&self.inner).event)
    }

    /// Blocks the calling thread until the shared count is zero, for use
    /// where suspension is unavailable. When the count is already zero it
    /// returns at once, without registering or parking. Otherwise it
    /// registers a listener, re-checks the count — closing the race with a
    /// zero-transition that fell between the first check and the
    /// registration — and parks until the notification that only the
    /// zero-transition sends. By the reuse contract the count then stays
    /// zero until this wait has returned, so the notified waiter is released.
    pub fn wait_blocking(&self) {
        let inner = arc_deref(&self.inner);
        if quiescent(inner.counter.load(Ordering::SeqCst)) {
            return;
        }
        let listener = event_listen(&inner.event);
        if quiescent(inner.counter.load(Ordering::SeqCst)) {
            return;
        }
        listener_block(listener);
    }
}

} // verus!
