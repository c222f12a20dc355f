//! The deadline queue: pending wake requests keyed by logical deadline.
//!
//! The queue itself is `embassy_time_queue_utils::Queue` (its generic,
//! fixed-capacity form). Its contents are seen here as the multiset of the
//! deadlines it holds; the wake handles stay opaque.

use core::task::Waker;
use embassy_time_queue_utils::Queue;
use vstd::multiset::Multiset;
use vstd::prelude::*;

verus! {

/// `core::task::Waker`, the handle that resumes a suspended task; opaque here.
#[verifier::external_type_specification]
#[verifier::external_body]
pub struct ExWaker(Waker);

/// `embassy_time_queue_utils::Queue`, the deadline queue; its contents are
/// seen through `queue_deadlines`.
#[verifier::external_type_specification]
#[verifier::external_body]
pub struct ExQueue(Queue);

/// The deadlines of the entries that a queue holds, one per entry.
pub uninterp spec fn queue_deadlines(q: Queue) -> Multiset<u64>;

/// The entries of `deadlines` that are still in the future at `now`.
pub open spec fn pending(deadlines: Multiset<u64>, now: u64) -> Multiset<u64> {
    deadlines.filter(|d: u64| d > now)
}

/// `r` is the smallest of `deadlines`, or `u64::MAX` when there is none.
pub open spec fn is_earliest(deadlines: Multiset<u64>, r: u64) -> bool {
    &&& deadlines.len() == 0 ==> r == u64::MAX
    &&& deadlines.len() > 0 ==> deadlines.contains(r)
    &&& forall|d: u64| deadlines.contains(d) ==> r <= d
}

/// Relies on `Queue::new`: a new queue holds no entry.
#[verifier::external_body]
pub(crate) fn queue_new() -> (q: Queue)
    ensures
        queue_deadlines(q) == Multiset::<u64>::empty(),
{
    Queue::new()
}

/// Relies on `Queue::schedule_wake`. When an entry with the same waker is
/// there, its deadline is lowered to `at` if `at` is earlier (result `true`)
/// and left alone otherwise (result `false`). Else a new entry is pushed
/// (result `true`); a full queue first drops, and wakes, one entry.
#[verifier::external_body]
pub(crate) fn queue_schedule_wake(q: &mut Queue, at: u64, waker: &Waker) -> (changed: bool)
    ensures
        !changed ==> queue_deadlines(*final(q)) == queue_deadlines(*old(q)),
        !changed ==> exists|d: u64| queue_deadlines(*old(q)).contains(d) && d <= at,
        changed ==> {
            ||| queue_deadlines(*final(q)) == queue_deadlines(*old(q)).insert(at)
            ||| exists|d: u64|
                queue_deadlines(*old(q)).contains(d) && queue_deadlines(*final(q))
                    == queue_deadlines(*old(q)).remove(d).insert(at)
        },
{
    q.schedule_wake(at, waker)
}

/// Relies on `Queue::next_expiration`: removes and wakes every entry whose
/// deadline is at or before `now`, keeps the rest, and returns the earliest
/// deadline kept, or `u64::MAX` when none is.
#[verifier::external_body]
pub(crate) fn queue_next_expiration(q: &mut Queue, now: u64) -> (next: u64)
    ensures
        queue_deadlines(*final(q)) == pending(queue_deadlines(*old(q)), now),
        is_earliest(queue_deadlines(*final(q)), next),
{
    q.next_expiration(now)
}

} // verus!
