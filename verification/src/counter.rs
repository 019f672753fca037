//! The counter protocol shared by every wait-group flavour.
//!
//! A wait group is, at heart, a single unsigned count: `add` raises it, `done`
//! lowers it by one but never below zero, and a waiter is released exactly
//! when the count is zero. This module states that protocol over unbounded
//! naturals ([`counter_step`], [`counter_run`]), proves the laws the handles
//! rely on, and provides the executable transition functions that every
//! handle flavour calls at the point where it has exclusive sight of the
//! count (under its lock, or inside an atomic read-modify-write).

use vstd::prelude::*;

verus! {

/// One operation on the shared count.
pub enum CounterOp {
    /// Raise the count by `n` outstanding work units.
    Add { n: nat },
    /// Report one unit complete: lower the count by one, floored at zero.
    Done,
}

/// How a single operation moves the count. `Done` on a zero count is a
/// no-op rather than an underflow.
pub open spec fn counter_step(c: nat, op: CounterOp) -> nat {
    match op {
        CounterOp::Add { n } => c + n,
        CounterOp::Done => if c == 0 { 0 } else { (c - 1) as nat },
    }
}

/// The count after running a whole sequence of operations, in order,
/// from the initial count `c0`.
pub open spec fn counter_run(c0: nat, ops: Seq<CounterOp>) -> nat
    decreases ops.len(),
{
    if ops.len() == 0 {
        c0
    } else {
        counter_step(counter_run(c0, ops.drop_last()), ops.last())
    }
}

/// The units one operation adds to the count.
pub open spec fn op_added(op: CounterOp) -> nat {
    match op {
        CounterOp::Add { n } => n,
        CounterOp::Done => 0,
    }
}

/// The total units added over a sequence of operations.
pub open spec fn total_added(ops: Seq<CounterOp>) -> nat
    decreases ops.len(),
{
    if ops.len() == 0 {
        0
    } else {
        total_added(ops.drop_last()) + op_added(ops.last())
    }
}

/// The number of `Done` operations in a sequence.
pub open spec fn total_done(ops: Seq<CounterOp>) -> nat
    decreases ops.len(),
{
    if ops.len() == 0 {
        0
    } else {
        total_done(ops.drop_last()) + if ops.last() is Done { 1nat } else { 0nat }
    }
}

/// A usage is balanced when no `Done` ever meets a zero count: every unit
/// reported complete was still outstanding. This is the documented calling
/// contract; the counter itself degrades safely when it is broken.
pub open spec fn never_floored(c0: nat, ops: Seq<CounterOp>) -> bool {
    forall|i: int|
        0 <= i < ops.len() && (#[trigger] ops[i]) is Done ==> counter_run(c0, ops.take(i)) > 0
}

/// The count never underflows: however `add` and `done` calls interleave,
/// the count stays at or above the signed sum of the operations, so it is
/// never observed negative and superfluous `done` calls only pin it at zero.
pub proof fn lemma_no_underflow(c0: nat, ops: Seq<CounterOp>)
    ensures
        counter_run(c0, ops) + total_done(ops) >= c0 + total_added(ops),
    decreases ops.len(),
{
    if ops.len() > 0 {
        lemma_no_underflow(c0, ops.drop_last());
    }
}

/// A `done` that meets a zero count leaves it at zero.
pub proof fn lemma_done_on_zero()
    ensures
        counter_step(0, CounterOp::Done) == 0,
{
}

/// While any outstanding unit is still unreported, the count is positive,
/// so a wait over the same operations cannot complete early: a root waiter
/// is held until every completion — nested dispatches included — is in.
pub proof fn lemma_outstanding_work(c0: nat, ops: Seq<CounterOp>)
    requires
        total_done(ops) < c0 + total_added(ops),
    ensures
        counter_run(c0, ops) > 0,
{
    lemma_no_underflow(c0, ops);
}

/// In a balanced usage the floor is never exercised, so the count is exactly
/// the initial count plus the units added, less the units reported complete.
pub proof fn lemma_balanced_run_exact(c0: nat, ops: Seq<CounterOp>)
    requires
        never_floored(c0, ops),
    ensures
        counter_run(c0, ops) + total_done(ops) == c0 + total_added(ops),
    decreases ops.len(),
{
    if ops.len() > 0 {
        let pre = ops.drop_last();
        assert forall|i: int|
            0 <= i < pre.len() && (#[trigger] pre[i]) is Done implies counter_run(
            c0,
            pre.take(i),
        ) > 0 by {
            assert(pre.take(i) =~= ops.take(i));
            assert(ops[i] is Done);
        }
        lemma_balanced_run_exact(c0, pre);
        if ops.last() is Done {
            assert(ops.take(ops.len() - 1) =~= pre);
            assert(counter_run(c0, pre) > 0);
        }
    }
}

/// A wait terminates once the last matching completion is in: in a balanced
/// usage where every added unit (and every initially outstanding one) has
/// reported `done`, the count is back at zero and a wait over this state
/// completes at once.
pub proof fn lemma_wait_terminates(c0: nat, ops: Seq<CounterOp>)
    requires
        never_floored(c0, ops),
        total_done(ops) == c0 + total_added(ops),
    ensures
        counter_run(c0, ops) == 0,
{
    lemma_balanced_run_exact(c0, ops);
}

/// A sequence of `Add` operations alone raises the count by exactly their
/// total: with no `Done` among them, the floor is never exercised.
pub proof fn lemma_adds_only_run(c0: nat, ops: Seq<CounterOp>)
    requires
        forall|i: int| 0 <= i < ops.len() ==> (#[trigger] ops[i]) is Add,
    ensures
        counter_run(c0, ops) == c0 + total_added(ops),
    decreases ops.len(),
{
    if ops.len() > 0 {
        lemma_adds_only_run(c0, ops.drop_last());
        assert(ops[ops.len() - 1] is Add);
    }
}

/// A sequence of `m` completions and nothing else.
pub open spec fn repeated_done(m: nat) -> Seq<CounterOp> {
    Seq::new(m, |i: int| CounterOp::Done)
}

/// Running `m` completions lowers the count by `m`, stopping at zero.
pub proof fn lemma_done_run(s: nat, m: nat)
    ensures
        counter_run(s, repeated_done(m)) == if m <= s {
            (s - m) as nat
        } else {
            0
        },
    decreases m,
{
    if m > 0 {
        lemma_done_run(s, (m - 1) as nat);
        assert(repeated_done(m).drop_last() =~= repeated_done((m - 1) as nat));
        assert(repeated_done(m).last() is Done);
    }
}

/// A wait is released once enough completions are in: after the `add` calls
/// that established a cycle's count, any number of `done` calls at least
/// matching the initial count plus the added units — over-completion
/// included — brings the count to zero, and a wait over this state
/// completes at once.
pub proof fn lemma_enough_dones_release_wait(c0: nat, adds: Seq<CounterOp>, m: nat)
    requires
        forall|i: int| 0 <= i < adds.len() ==> (#[trigger] adds[i]) is Add,
        m >= c0 + total_added(adds),
    ensures
        counter_run(c0, adds + repeated_done(m)) == 0,
{
    lemma_reuse(c0, adds, repeated_done(m));
    lemma_adds_only_run(c0, adds);
    lemma_done_run(c0 + total_added(adds), m);
}

/// Reuse: running one cycle of operations and then a second over the
/// resulting count is the same as running their concatenation, so a wait
/// group whose count has returned to zero behaves in the next
/// add-dispatch-wait cycle exactly as a fresh one would.
pub proof fn lemma_reuse(c0: nat, ops1: Seq<CounterOp>, ops2: Seq<CounterOp>)
    ensures
        counter_run(c0, ops1 + ops2) == counter_run(counter_run(c0, ops1), ops2),
    decreases ops2.len(),
{
    if ops2.len() == 0 {
        assert(ops1 + ops2 =~= ops1);
    } else {
        lemma_reuse(c0, ops1, ops2.drop_last());
        assert((ops1 + ops2).drop_last() =~= ops1 + ops2.drop_last());
        assert((ops1 + ops2).last() == ops2.last());
    }
}

/// Whether an observed count means the wait is over. Every wait discipline
/// uses this as its completion test, and completes immediately — without
/// parking, registering or suspending — when the count it observes is zero.
pub fn quiescent(count: usize) -> (r: bool)
    ensures
        r <==> count == 0,
{
    count == 0
}

/// Whether an observed count means work is still outstanding: the parking
/// predicate of the blocking wait discipline, the negation of [`quiescent`].
pub fn still_outstanding(count: usize) -> (r: bool)
    ensures
        r <==> count != 0,
{
    count != 0
}

/// Raise a count by `num`, saturating at the machine limit instead of
/// wrapping or panicking. Within the machine range this is exactly the
/// protocol's `Add` step.
pub fn add_step(count: usize, num: usize) -> (r: usize)
    ensures
        r == if count + num <= usize::MAX {
            (count + num) as usize
        } else {
            usize::MAX
        },
        count + num <= usize::MAX ==> r == counter_step(
            count as nat,
            CounterOp::Add { n: num as nat },
        ),
{
    if num <= usize::MAX - count {
        count + num
    } else {
        usize::MAX
    }
}

/// Lower a count by one, floored at zero: exactly the protocol's `Done`
/// step. The second component reports the zero-transition — the one case,
/// a count of exactly one, in which the caller must notify its waiters.
pub fn done_step(count: usize) -> (r: (usize, bool))
    ensures
        r.0 == counter_step(count as nat, CounterOp::Done),
        r.1 <==> count == 1,
{
    if count == 0 {
        (0, false)
    } else {
        (count - 1, count == 1)
    }
}

/// The `Done` step in the shape an atomic read-modify-write wants: `None`
/// (leave the value alone) on a zero count, otherwise the lowered count.
pub fn try_decrement(count: usize) -> (r: Option<usize>)
    ensures
        count == 0 ==> r is None,
        count != 0 ==> r == Some((count - 1) as usize),
        r matches Some(next) ==> next == counter_step(count as nat, CounterOp::Done),
{
    if count == 0 {
        None
    } else {
        Some(count - 1)
    }
}

/// What one poll of a suspending wait decides, given the count observed
/// after polling the registration.
#[derive(Debug, PartialEq, Eq)]
pub enum WaitPoll {
    /// The count was zero: the wait is over.
    Complete,
    /// Work is still outstanding: stay suspended. When the registration had
    /// fired anyway (`renew`), it is stale and a fresh one must be put in
    /// place before yielding, or a later zero-transition could be missed.
    Pending { renew: bool },
}

/// The poll decision as a function of the observed state.
pub open spec fn poll_outcome(count: nat, notified: bool) -> WaitPoll {
    if count == 0 {
        WaitPoll::Complete
    } else {
        WaitPoll::Pending { renew: notified }
    }
}

/// Decide one poll of a suspending wait. `notified` says whether the
/// caller's registration reported ready when polled; `count` is the count
/// read *after* that poll. The wait completes exactly on a zero count — a
/// registration's state alone is never trusted — and a fired-but-stale
/// registration is renewed rather than silently dropped.
pub fn poll_transition(count: usize, notified: bool) -> (v: WaitPoll)
    ensures
        v == poll_outcome(count as nat, notified),
        v == WaitPoll::Complete <==> count == 0,
        v matches WaitPoll::Pending { renew } ==> renew == notified,
{
    if count == 0 {
        WaitPoll::Complete
    } else {
        WaitPoll::Pending { renew: notified }
    }
}

/// No missed wakeup: a waiter whose registration is polled after the count
/// has crossed to zero always completes, whatever state the registration
/// itself reports. A zero-transition therefore releases every waiter that
/// re-polls, registered before or after the crossing.
pub proof fn lemma_no_missed_wakeup(notified: bool)
    ensures
        poll_outcome(0, notified) == WaitPoll::Complete,
{
}

/// A registration that fired while work was still outstanding is renewed:
/// the waiter never yields holding only a spent registration.
pub proof fn lemma_stale_registration_renewed(count: nat)
    requires
        count > 0,
    ensures
        poll_outcome(count, true) == (WaitPoll::Pending { renew: true }),
{
}

} // verus!

