//! Atomic counter updates for the lock-free handle flavours.
//!
//! The suspending and spinning wait groups keep their count in an
//! `AtomicUsize`. Plain loads go through the standard library directly; the
//! two read-modify-write updates below hand the verified transition functions
//! of [`crate::counter`] to `fetch_update`, so the value stored is always the
//! one the protocol prescribes for the value read — atomically, with no
//! unsynchronized read-then-write.

use core::sync::atomic::AtomicUsize;
use core::sync::atomic::Ordering;
use vstd::prelude::*;

verus! {

/// Relies on `AtomicUsize::fetch_update`: atomically replaces the count with
/// `counter::try_decrement` of it, returning `Ok` of the previous value when
/// the closure stored one (so the previous value was nonzero) and `Err` of
/// the previous value when it declined (so the count was zero and was left
/// alone).
#[verifier::external_body]
pub(crate) fn fetch_try_decrement(counter: &AtomicUsize) -> (r: Result<usize, usize>)
    ensures
        r matches Ok(prev) ==> prev != 0,
        r matches Err(prev) ==> prev == 0,
{
    counter.fetch_update(Ordering::SeqCst, Ordering::SeqCst, |v| crate::counter::try_decrement(v))
}

/// Relies on `AtomicUsize::fetch_update`: atomically replaces the count with
/// `counter::add_step` of it and `num`, raising it by `num` (saturating at
/// the machine limit). The update never declines, so the call always stores.
#[verifier::external_body]
pub(crate) fn fetch_add_step(counter: &AtomicUsize, num: usize) {
    let _ = counter.fetch_update(
        Ordering::SeqCst,
        Ordering::SeqCst,
        |v| Some(crate::counter::add_step(v, num)),
    );
}

} // verus!
