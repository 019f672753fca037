//! The blocking wait group: a count under a mutex, with a condition variable
//! as notifier.
//!
//! Every count update happens under the one lock of the shared state, through
//! the verified transition functions of [`crate::counter`]; the `done` call
//! that performs the zero-transition broadcasts on the condition variable —
//! while still holding the lock — so that all parked waiters are released,
//! and no other update notifies. A waiter re-checks the count on every wake,
//! so spurious wakeups never release it early.

use vstd::prelude::*;

use crate::arc::arc_deref;
use crate::arc::arc_new;
use crate::counter::add_step;
use crate::counter::done_step;
use crate::counter::quiescent;
use crate::counter::still_outstanding;

verus! {

#[verifier::external_type_specification]
#[verifier::external_body]
#[verifier::reject_recursive_types(R)]
#[verifier::reject_recursive_types(T)]
pub struct ExMutex<R, T: ?Sized>(parking_lot::lock_api::Mutex<R, T>);

/// The held lock on a shared state's count. Verus refuses a declaration of
/// `lock_api::MutexGuard` itself (its `RawMutex` trait bound cannot be
/// named here), so the guard is carried opaquely; the count it protects is
/// read and written only through the accessors below.
#[verifier::external_body]
struct CountGuard<'a> {
    guard: parking_lot::MutexGuard<'a, usize>,
}

#[verifier::external_type_specification]
#[verifier::external_body]
pub struct ExRawMutex(parking_lot::RawMutex);

#[verifier::external_type_specification]
#[verifier::external_body]
pub struct ExCondvar(parking_lot::Condvar);

/// Relies on `lock_api::Mutex::new`: a fresh unlocked mutex holding `count`.
#[verifier::external_body]
fn mutex_new(count: usize) -> (r: parking_lot::Mutex<usize>) {
    parking_lot::Mutex::new(count)
}

/// Relies on `parking_lot::Condvar::new`: a fresh condition variable with
/// no waiters.
#[verifier::external_body]
fn condvar_new() -> (r: parking_lot::Condvar) {
    parking_lot::Condvar::new()
}

/// Relies on `lock_api::Mutex::lock`: blocks until the lock is held and
/// returns the guard through which the count is read and written.
#[verifier::external_body]
fn lock_count<'a>(m: &'a parking_lot::Mutex<usize>) -> (g: CountGuard<'a>) {
    CountGuard { guard: m.lock() }
}

/// Relies on `lock_api::MutexGuard`'s `Deref`: reads the locked count.
#[verifier::external_body]
fn guard_read<'a>(g: &CountGuard<'a>) -> (c: usize) {
    *g.guard
}

/// Relies on `lock_api::MutexGuard`'s `DerefMut`: stores `count` as the
/// locked count.
#[verifier::external_body]
fn guard_write<'a>(g: &mut CountGuard<'a>, count: usize) {
    *g.guard = count;
}

/// Relies on `parking_lot::Condvar::notify_all`: wakes every thread parked
/// on this condition variable.
#[verifier::external_body]
fn condvar_notify_all(cvar: &parking_lot::Condvar) {
    cvar.notify_all();
}

/// Relies on `parking_lot::Condvar::wait_while`: releases the lock and
/// parks, re-acquiring the lock and re-evaluating `counter::still_outstanding`
/// on the locked count at every wake (spurious ones included), and returns —
/// with the lock re-acquired — only once that predicate is false. Panics only
/// if a second mutex is ever used with the same condition variable, which
/// this module never does: each shared state pairs its condition variable
/// with its one count mutex.
#[verifier::external_body]
fn condvar_wait_while_outstanding<'a>(cvar: &parking_lot::Condvar, g: &mut CountGuard<'a>) {
    cvar.wait_while(&mut g.guard, |count| still_outstanding(*count));
}

#[derive(Debug)]
struct Inner {
    cvar: parking_lot::Condvar,
    count: parking_lot::Mutex<usize>,
}

/// A wait group that waits for a collection of threads to finish.
///
/// The coordinator calls [`add`](WaitGroup::add) once per unit of work
/// before dispatching it, every worker calls [`done`](WaitGroup::done)
/// exactly once on completion, and [`wait`](WaitGroup::wait) blocks until
/// the count is back to zero. All clones share one count.
#[derive(Clone, Debug)]
pub struct WaitGroup {
    inner: triomphe::Arc<Inner>,
}

impl Default for WaitGroup {
    /// The default wait group has no outstanding work.
    fn default() -> Self {
        Self::new()
    }
}

impl WaitGroup {
    /// Whether two handles are views onto one shared state, so that the
    /// count one of them moves is the count the other observes.
    pub closed spec fn shares_state_with(&self, other: &Self) -> bool {
        self.inner == other.inner
    }

    /// Creates a wait group with no outstanding work: a [`wait`](WaitGroup::wait)
    /// on it returns immediately.
    pub fn new() -> Self {
        Self::from(0)
    }

    /// Creates a wait group with `count` units of work already outstanding.
    pub fn from(count: usize) -> Self {
        Self { inner: arc_new(Inner { cvar: condvar_new(), count: mutex_new(count) }) }
    }

    /// Raises the shared count by `num` under the lock (`0` is a no-op; the
    /// count saturates at the machine limit rather than overflowing) and
    /// returns another handle to the same state, ready to hand to the
    /// dispatched worker. Raising the count notifies nobody: only the
    /// zero-transition of [`done`](WaitGroup::done) does.
    ///
    /// `add` calls that establish a wait cycle's count must be sequenced
    /// before the corresponding [`wait`](WaitGroup::wait); on reuse, before
    /// the next cycle's `add`, the previous `wait` must have returned.
    pub fn add(&self, num: usize) -> (r: Self)
        ensures
            r.shares_state_with(self),
    {
        let inner = arc_deref(&self.inner);
        let mut g = lock_count(&inner.count);
        let count = guard_read(&g);
        let raised = add_step(count, num);
        guard_write(&mut g, raised);
        Self { inner: self.inner.clone() }
    }

    /// Lowers the shared count by one under the lock, floored at zero — a
    /// `done` beyond the outstanding work is a safe no-op, never an
    /// underflow or a panic — and returns the remaining count. When this
    /// very call moves the count from one to zero it broadcasts to all
    /// parked waiters, still holding the lock; no other transition notifies.
    pub fn done(&self) -> (r: usize) {
        let inner = arc_deref(&self.inner);
        let mut g = lock_count(&inner.count);
        let count = guard_read(&g);
        let (lowered, zero_transition) = done_step(count);
        guard_write(&mut g, lowered);
        if zero_transition {
            condvar_notify_all(&inner.cvar);
        }
        lowered
    }

    /// Reads the current count under the lock: how many units of work are
    /// still outstanding at some moment during the call.
    pub fn waitings(&self) -> (r: usize) {
        let inner = arc_deref(&self.inner);
        let g = lock_count(&inner.count);
        guard_read(&g)
    }

    /// Blocks until the shared count is zero. When the locked count is
    /// already zero it returns at once, without parking; otherwise it parks
    /// on the condition variable, re-checking the count on every wake, and
    /// returns only once a zero count has been observed under the lock.
    pub fn wait(&self) {
        let inner = arc_deref(&self.inner);
        let mut g = lock_count(&inner.count);
        if quiescent(guard_read(&g)) {
            return;
        }
        condvar_wait_while_outstanding(&inner.cvar, &mut g);
    }
}

} // verus!
