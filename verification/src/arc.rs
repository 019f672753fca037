//! The shared allocation behind every handle.
//!
//! All handles cloned from one root are views onto a single reference-counted
//! block (a `triomphe::Arc`). The type is opaque here: the verified code only
//! ever places a value into a fresh block and borrows it back out, and the
//! interior-mutable count it holds is reasoned about through the transition
//! functions of [`crate::counter`], never through the pointer itself.

use vstd::prelude::*;

verus! {

#[verifier::external_type_specification]
#[verifier::external_body]
#[verifier::reject_recursive_types(T)]
pub struct ExArc<T: ?Sized>(triomphe::Arc<T>);

/// Relies on `triomphe::Arc`'s `Clone`: cloning copies the pointer (and
/// raises the reference count), so the clone is the very same shared
/// reference, not a new allocation.
pub assume_specification<T: ?Sized>[ <triomphe::Arc<T> as Clone>::clone ](
    a: &triomphe::Arc<T>,
) -> (r: triomphe::Arc<T>)
    ensures
        r == *a,
;

/// Relies on `triomphe::Arc::new`: moves `data` into a fresh shared
/// allocation with a reference count of one.
#[verifier::external_body]
pub(crate) fn arc_new<T>(data: T) -> (r: triomphe::Arc<T>) {
    triomphe::Arc::new(data)
}

/// Relies on `triomphe::Arc`'s `Deref`: borrows the value all clones of
/// this pointer share.
#[verifier::external_body]
pub(crate) fn arc_deref<T>(a: &triomphe::Arc<T>) -> (r: &T) {
    &**a
}

} // verus!
