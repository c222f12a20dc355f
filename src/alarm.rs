//! The alarm scheduler: decides when the next periodic check must find
//! expired entries, and drives the deadline queue.
//!
//! There is no compare-match hardware: checks happen only on the periodic
//! overflow interrupt. After each change to the queue the alarm is re-armed by
//! a short retry protocol. Its steps alternate between taking expired entries
//! out of the queue and recording the earliest remaining deadline, each with a
//! fresh clock reading. [`AlarmScheduler::rearm_step`] performs one step; the
//! caller reads the clock and repeats until it returns [`AlarmPhase::Settled`].

use core::task::Waker;
use embassy_time_queue_utils::Queue;
use vstd::multiset::{Multiset, group_multiset_axioms};
use vstd::prelude::*;

use crate::deadline_queue::{
    is_earliest, pending, queue_deadlines, queue_new, queue_next_expiration, queue_schedule_wake,
};

verus! {

/// The logical time at which the next check is expected to find expired
/// entries, or `u64::MAX` when nothing is pending.
pub struct AlarmState {
    timestamp: u64,
}

impl View for AlarmState {
    type V = u64;

    closed spec fn view(&self) -> u64 {
        self.timestamp
    }
}

impl AlarmState {
    /// An alarm that is not armed.
    pub fn new() -> (a: Self)
        ensures
            a@ == u64::MAX,
    {
        AlarmState { timestamp: u64::MAX }
    }

    /// The recorded deadline.
    pub fn timestamp(&self) -> (r: u64)
        ensures
            r == self@,
    {
        self.timestamp
    }

    /// Disarms the alarm.
    pub fn clear(&mut self)
        ensures
            final(self)@ == u64::MAX,
    {
        self.timestamp = u64::MAX;
    }

    /// Records `timestamp` as the next deadline, given the clock reading
    /// `now` taken after the candidate was computed. A candidate that is
    /// already due is not kept: the alarm is disarmed and `false` returned,
    /// so that the caller expires it and computes a new one.
    pub fn set_alarm(&mut self, timestamp: u64, now: u64) -> (armed: bool)
        ensures
            armed == (timestamp > now),
            armed ==> final(self)@ == timestamp,
            !armed ==> final(self)@ == u64::MAX,
    {
        self.timestamp = timestamp;
        if timestamp <= now {
            self.timestamp = u64::MAX;
            false
        } else {
            true
        }
    }
}

/// Where the re-arming of the alarm stands.
#[derive(Clone, Copy, Debug, PartialEq, Eq, Structural)]
pub enum AlarmPhase {
    /// Expired entries must be taken out of the queue at a fresh reading.
    Expire,
    /// `candidate`, the earliest deadline left, must be recorded at a fresh
    /// reading.
    Record { candidate: u64 },
    /// The alarm holds a deadline in the future, or nothing is pending.
    Settled,
}

/// One step of re-arming, as [`AlarmScheduler::rearm_step`] takes it with the
/// reading `now`, seen on the queue's deadlines: `deadlines` before the step,
/// `next_deadlines` after it, and the phase `next` that follows `phase`.
pub open spec fn rearm_transition(
    phase: AlarmPhase,
    deadlines: Multiset<u64>,
    now: u64,
    next: AlarmPhase,
    next_deadlines: Multiset<u64>,
) -> bool {
    match phase {
        AlarmPhase::Expire => {
            &&& next_deadlines == pending(deadlines, now)
            &&& next is Record
            &&& is_earliest(next_deadlines, next->candidate)
        },
        AlarmPhase::Record { candidate } => {
            &&& next_deadlines == deadlines
            &&& next == if candidate > now {
                AlarmPhase::Settled
            } else {
                AlarmPhase::Expire
            }
        },
        AlarmPhase::Settled => next == AlarmPhase::Settled && next_deadlines == deadlines,
    }
}

/// A run of re-arming steps: `phases[i]` and `queues[i]` hold before step
/// `i`, which is taken with the clock reading `readings[i]`. The readings come
/// from a clock that does not go backwards and is short of `u64::MAX`.
pub open spec fn is_rearm_run(phases: Seq<AlarmPhase>, queues: Seq<Multiset<u64>>, readings: Seq<u64>) -> bool {
    &&& phases.len() == readings.len() + 1
    &&& queues.len() == readings.len() + 1
    &&& forall|i: int|
        0 <= i < readings.len() ==> #[trigger] rearm_transition(
            phases[i],
            queues[i],
            readings[i],
            phases[i + 1],
            queues[i + 1],
        )
    &&& forall|i: int, j: int| 0 <= i <= j < readings.len() ==> readings[i] <= readings[j]
    &&& forall|i: int| 0 <= i < readings.len() ==> #[trigger] readings[i] < u64::MAX
}

/// The alarm together with the deadline queue that it watches.
pub struct AlarmScheduler {
    alarm: AlarmState,
    queue: Queue,
}

impl AlarmScheduler {
    /// The deadlines of the pending wake requests.
    pub closed spec fn deadlines(&self) -> Multiset<u64> {
        queue_deadlines(self.queue)
    }

    /// The deadline that the alarm holds.
    pub closed spec fn alarm_at(&self) -> u64 {
        self.alarm@
    }

    /// A scheduler with an empty queue and a disarmed alarm.
    pub fn new() -> (s: Self)
        ensures
            s.deadlines() == Multiset::<u64>::empty(),
            s.alarm_at() == u64::MAX,
    {
        AlarmScheduler { alarm: AlarmState::new(), queue: queue_new() }
    }

    /// The deadline of the next check that is expected to find expired
    /// entries; `u64::MAX` when none is pending.
    pub fn next_deadline(&self) -> (r: u64)
        ensures
            r == self.alarm_at(),
    {
        self.alarm.timestamp()
    }

    /// Registers a request to wake `waker` at logical time `at`.
    ///
    /// A waker that is already queued keeps the earlier of its two deadlines.
    /// When the queue changed, the alarm must be re-armed: the result is then
    /// [`AlarmPhase::Expire`], else [`AlarmPhase::Settled`].
    pub fn schedule_wake(&mut self, at: u64, waker: &Waker) -> (phase: AlarmPhase)
        ensures
            final(self).alarm_at() == old(self).alarm_at(),
            phase is Expire || phase is Settled,
            phase is Settled ==> final(self).deadlines() == old(self).deadlines(),
            phase is Settled ==> exists|d: u64| old(self).deadlines().contains(d) && d <= at,
            phase is Expire ==> {
                ||| final(self).deadlines() == old(self).deadlines().insert(at)
                ||| exists|d: u64|
                    old(self).deadlines().contains(d) && final(self).deadlines()
                        == old(self).deadlines().remove(d).insert(at)
            },
    {
        if queue_schedule_wake(&mut self.queue, at, waker) {
            AlarmPhase::Expire
        } else {
            AlarmPhase::Settled
        }
    }

    /// Starts the periodic check: disarms the alarm and asks for the expired
    /// entries to be taken out.
    pub fn trigger_alarm(&mut self) -> (phase: AlarmPhase)
        ensures
            final(self).alarm_at() == u64::MAX,
            final(self).deadlines() == old(self).deadlines(),
            phase == AlarmPhase::Expire,
    {
        self.alarm.clear();
        AlarmPhase::Expire
    }

    /// Performs one step of re-arming with the clock reading `now`, and
    /// returns the phase that follows.
    ///
    /// - `Expire`: wakes and removes every entry due at `now`; the next phase
    ///   records the earliest deadline left (`u64::MAX` when none is).
    /// - `Record`: arms the alarm with the candidate if it is after `now` and
    ///   settles; else disarms it and goes back to `Expire`.
    /// - `Settled`: nothing to do.
    pub fn rearm_step(&mut self, phase: AlarmPhase, now: u64) -> (next: AlarmPhase)
        ensures
            rearm_transition(phase, old(self).deadlines(), now, next, final(self).deadlines()),
            phase is Expire ==> final(self).alarm_at() == old(self).alarm_at(),
            phase is Record ==> final(self).alarm_at() == if phase->candidate > now {
                phase->candidate
            } else {
                u64::MAX
            },
            phase is Settled ==> *final(self) == *old(self),
    {
        match phase {
            AlarmPhase::Expire => {
                let candidate = queue_next_expiration(&mut self.queue, now);
                AlarmPhase::Record { candidate }
            },
            AlarmPhase::Record { candidate } => {
                if self.alarm.set_alarm(candidate, now) {
                    AlarmPhase::Settled
                } else {
                    AlarmPhase::Expire
                }
            },
            AlarmPhase::Settled => AlarmPhase::Settled,
        }
    }
}

/// Taking out the entries due at `now` removes every one of them: an entry
/// whose deadline is at or before `now` (one registered at `now` itself
/// included) leaves the queue in that pass, which therefore shrinks.
pub proof fn lemma_due_entry_expires(deadlines: Multiset<u64>, at: u64, now: u64)
    requires
        deadlines.contains(at),
        at <= now,
    ensures
        !pending(deadlines, now).contains(at),
        forall|d: u64| pending(deadlines, now).contains(d) ==> d > now,
        pending(deadlines, now).len() < deadlines.len(),
{
    broadcast use group_multiset_axioms;

    let p = pending(deadlines, now);
    assert(p.subset_of(deadlines));
    let gone = deadlines.sub(p);
    assert(gone.count(at) > 0);
    assert(gone.len() == deadlines.len() - p.len());
}

/// Whether some entry of `deadlines` is due at `now`.
spec fn has_due(deadlines: Multiset<u64>, now: u64) -> bool {
    exists|d: u64| deadlines.contains(d) && d <= now
}

/// How far a run is from settling, before step `i`.
spec fn rearm_measure(
    phases: Seq<AlarmPhase>,
    queues: Seq<Multiset<u64>>,
    readings: Seq<u64>,
    i: int,
) -> int {
    match phases[i] {
        AlarmPhase::Settled => 0int,
        AlarmPhase::Record { .. } => 2 * queues[i].len() as int + 1,
        AlarmPhase::Expire => if i > 0 && has_due(queues[i], readings[i - 1]) {
            2 * queues[i].len() as int
        } else {
            2 * queues[i].len() as int + 2
        },
    }
}

/// Along a run that has not settled, each step lowers the measure.
proof fn lemma_rearm_measure_falls(
    phases: Seq<AlarmPhase>,
    queues: Seq<Multiset<u64>>,
    readings: Seq<u64>,
    i: int,
)
    requires
        is_rearm_run(phases, queues, readings),
        phases[0] == AlarmPhase::Expire,
        0 <= i <= readings.len(),
        forall|k: int| 0 <= k < i ==> phases[k] != AlarmPhase::Settled,
    ensures
        phases[i] is Record ==> is_earliest(queues[i], phases[i]->candidate),
        phases[i] is Expire && i > 0 ==> has_due(queues[i], readings[i - 1]),
        rearm_measure(phases, queues, readings, i) + i <= rearm_measure(phases, queues, readings, 0),
    decreases i,
{
    if i > 0 {
        let k = i - 1;
        lemma_rearm_measure_falls(phases, queues, readings, k);
        assert(rearm_transition(phases[k], queues[k], readings[k], phases[k + 1], queues[k + 1]));
        assert(phases[k + 1] == phases[i] && queues[k + 1] == queues[i]);
        assert(readings[k] < u64::MAX);
        match phases[k] {
            AlarmPhase::Expire => {
                if k > 0 && has_due(queues[k], readings[k - 1]) {
                    let d = choose|d: u64| queues[k].contains(d) && d <= readings[k - 1];
                    assert(readings[k - 1] <= readings[k]);
                    lemma_due_entry_expires(queues[k], d, readings[k]);
                }
                assert(queues[i] == pending(queues[k], readings[k]));
                lemma_pending_no_larger(queues[k], readings[k]);
            },
            AlarmPhase::Record { candidate } => {
                if candidate <= readings[k] {
                    assert(queues[k].contains(candidate));
                    assert(has_due(queues[i], readings[k]));
                }
            },
            AlarmPhase::Settled => {},
        }
    }
}

/// Taking out the due entries never makes the queue longer.
proof fn lemma_pending_no_larger(deadlines: Multiset<u64>, now: u64)
    ensures
        pending(deadlines, now).len() <= deadlines.len(),
{
    broadcast use group_multiset_axioms;

    let p = pending(deadlines, now);
    assert(p.subset_of(deadlines));
    assert(deadlines.sub(p).len() == deadlines.len() - p.len());
}

/// Re-arming always ends: started in [`AlarmPhase::Expire`], as both
/// [`AlarmScheduler::schedule_wake`] and [`AlarmScheduler::trigger_alarm`]
/// start it, it reaches [`AlarmPhase::Settled`] within two steps per entry of
/// the queue, plus two, whatever the clock readings, as long as they do not go
/// backwards.
pub proof fn lemma_rearm_settles(phases: Seq<AlarmPhase>, queues: Seq<Multiset<u64>>, readings: Seq<u64>)
    requires
        is_rearm_run(phases, queues, readings),
        phases[0] == AlarmPhase::Expire,
        forall|k: int| 0 <= k < readings.len() ==> phases[k] != AlarmPhase::Settled,
    ensures
        readings.len() <= 2 * queues[0].len() + 2,
{
    lemma_rearm_measure_falls(phases, queues, readings, readings.len() as int);
}

} // verus!
