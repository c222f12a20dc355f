use std::sync::atomic::{AtomicUsize, Ordering};
use std::sync::Arc;
use std::task::{Wake, Waker};

use embassy_agb::{AlarmPhase, AlarmScheduler, AlarmState};

struct WakeCount(AtomicUsize);

impl Wake for WakeCount {
    fn wake(self: Arc<Self>) {
        self.0.fetch_add(1, Ordering::SeqCst);
    }
}

fn counting_waker() -> (Arc<WakeCount>, Waker) {
    let count = Arc::new(WakeCount(AtomicUsize::new(0)));
    (count.clone(), Waker::from(count))
}

fn wakes(count: &Arc<WakeCount>) -> usize {
    count.0.load(Ordering::SeqCst)
}

/// Runs the re-arming protocol to its end with one clock reading.
fn settle(s: &mut AlarmScheduler, mut phase: AlarmPhase, now: u64) -> usize {
    let mut steps = 0;
    while phase != AlarmPhase::Settled {
        phase = s.rearm_step(phase, now);
        steps += 1;
        assert!(steps < 100, "re-arming does not end");
    }
    steps
}

#[test]
fn alarm_state_starts_disarmed() {
    assert_eq!(AlarmState::new().timestamp(), u64::MAX);
}

#[test]
fn set_alarm_keeps_a_future_deadline() {
    let mut a = AlarmState::new();
    assert!(a.set_alarm(100, 99));
    assert_eq!(a.timestamp(), 100);
}

#[test]
fn set_alarm_refuses_a_due_deadline() {
    let mut a = AlarmState::new();
    assert!(a.set_alarm(100, 50));
    assert!(!a.set_alarm(100, 100));
    assert_eq!(a.timestamp(), u64::MAX);
    assert!(!a.set_alarm(7, 8));
    assert_eq!(a.timestamp(), u64::MAX);
}

#[test]
fn clear_disarms() {
    let mut a = AlarmState::new();
    a.set_alarm(5, 0);
    a.clear();
    assert_eq!(a.timestamp(), u64::MAX);
}

#[test]
fn new_scheduler_has_no_deadline() {
    let s = AlarmScheduler::new();
    assert_eq!(s.next_deadline(), u64::MAX);
}

#[test]
fn empty_queue_settles_on_no_deadline() {
    let mut s = AlarmScheduler::new();
    let phase = s.trigger_alarm();
    assert_eq!(phase, AlarmPhase::Expire);
    assert_eq!(s.rearm_step(phase, 10), AlarmPhase::Record { candidate: u64::MAX });
    assert_eq!(s.rearm_step(AlarmPhase::Record { candidate: u64::MAX }, 10), AlarmPhase::Settled);
    assert_eq!(s.next_deadline(), u64::MAX);
}

#[test]
fn periodic_check_signals_only_expired_entries() {
    let mut s = AlarmScheduler::new();
    let (c100, w100) = counting_waker();
    let (c50, w50) = counting_waker();
    let (c200, w200) = counting_waker();
    for (at, w) in [(100u64, &w100), (50, &w50), (200, &w200)] {
        let phase = s.schedule_wake(at, w);
        assert_eq!(phase, AlarmPhase::Expire);
        settle(&mut s, phase, 0);
    }
    assert_eq!(s.next_deadline(), 50);

    let phase = s.trigger_alarm();
    settle(&mut s, phase, 60);
    assert_eq!(wakes(&c50), 1);
    assert_eq!(wakes(&c100), 0);
    assert_eq!(wakes(&c200), 0);
    assert_eq!(s.next_deadline(), 100);
}

#[test]
fn deadline_at_current_time_is_signalled_at_once() {
    let mut s = AlarmScheduler::new();
    let (c, w) = counting_waker();
    let phase = s.schedule_wake(500, &w);
    let steps = settle(&mut s, phase, 500);
    assert_eq!(wakes(&c), 1);
    assert_eq!(steps, 2);
    assert_eq!(s.next_deadline(), u64::MAX);
}

#[test]
fn deadline_reached_is_signalled_by_the_check_that_sees_it() {
    let mut s = AlarmScheduler::new();
    let (c, w) = counting_waker();
    let phase = s.schedule_wake(60, &w);
    settle(&mut s, phase, 10);
    assert_eq!(s.next_deadline(), 60);
    assert_eq!(wakes(&c), 0);

    let phase = s.trigger_alarm();
    assert_eq!(s.next_deadline(), u64::MAX);
    settle(&mut s, phase, 60);
    assert_eq!(wakes(&c), 1);
    assert_eq!(s.next_deadline(), u64::MAX);
}

#[test]
fn retry_expires_a_candidate_that_fell_due() {
    let mut s = AlarmScheduler::new();
    let (c100, w100) = counting_waker();
    let (c101, w101) = counting_waker();
    settle(&mut s, AlarmPhase::Settled, 0);
    s.schedule_wake(100, &w100);
    s.schedule_wake(101, &w101);

    let phase = s.trigger_alarm();
    let phase = s.rearm_step(phase, 99);
    assert_eq!(phase, AlarmPhase::Record { candidate: 100 });
    // The clock moved on while the candidate was computed.
    let phase = s.rearm_step(phase, 100);
    assert_eq!(phase, AlarmPhase::Expire);
    assert_eq!(s.next_deadline(), u64::MAX);
    let phase = s.rearm_step(phase, 100);
    assert_eq!(phase, AlarmPhase::Record { candidate: 101 });
    assert_eq!(wakes(&c100), 1);
    assert_eq!(wakes(&c101), 0);
    let phase = s.rearm_step(phase, 100);
    assert_eq!(phase, AlarmPhase::Settled);
    assert_eq!(s.next_deadline(), 101);
}

#[test]
fn same_waker_keeps_the_earlier_deadline() {
    let mut s = AlarmScheduler::new();
    let (c, w) = counting_waker();
    assert_eq!(s.schedule_wake(100, &w), AlarmPhase::Expire);
    assert_eq!(s.schedule_wake(150, &w), AlarmPhase::Settled);
    assert_eq!(s.schedule_wake(80, &w), AlarmPhase::Expire);
    settle(&mut s, AlarmPhase::Expire, 0);
    assert_eq!(s.next_deadline(), 80);

    let phase = s.trigger_alarm();
    settle(&mut s, phase, 80);
    assert_eq!(wakes(&c), 1);
    assert_eq!(s.next_deadline(), u64::MAX);
}

#[test]
fn entries_sharing_a_deadline_are_all_signalled() {
    let mut s = AlarmScheduler::new();
    let (c1, w1) = counting_waker();
    let (c2, w2) = counting_waker();
    s.schedule_wake(40, &w1);
    s.schedule_wake(40, &w2);
    let phase = s.trigger_alarm();
    settle(&mut s, phase, 40);
    assert_eq!(wakes(&c1), 1);
    assert_eq!(wakes(&c2), 1);
}

#[test]
fn full_queue_wakes_one_entry_early_to_make_room() {
    let mut s = AlarmScheduler::new();
    let mut counts = Vec::new();
    let mut wakers = Vec::new();
    for i in 0..9u64 {
        let (c, w) = counting_waker();
        assert_eq!(s.schedule_wake(1000 + i, &w), AlarmPhase::Expire);
        counts.push(c);
        wakers.push(w);
    }
    let early: usize = counts.iter().map(wakes).sum();
    assert_eq!(early, 1);
    assert_eq!(wakes(&counts[8]), 0);
}
