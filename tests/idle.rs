use embassy_agb::{IdleAction, IdleLoop, IdleState};

#[test]
fn idle_loop_starts_with_a_pass() {
    let l = IdleLoop::new();
    assert_eq!(l.state(), IdleState::Run);
}

#[test]
fn every_pass_is_followed_by_exactly_one_halt() {
    let mut l = IdleLoop::new();
    let mut actions = Vec::new();
    for _ in 0..10 {
        actions.push(l.next_action());
    }
    for (k, a) in actions.iter().enumerate() {
        if k % 2 == 0 {
            assert_eq!(*a, IdleAction::PollTasks);
        } else {
            assert_eq!(*a, IdleAction::WaitForInterrupt);
        }
    }
    assert_eq!(l.state(), IdleState::Run);
}

#[test]
fn pass_moves_to_halt() {
    let mut l = IdleLoop::new();
    assert_eq!(l.next_action(), IdleAction::PollTasks);
    assert_eq!(l.state(), IdleState::Halt);
    assert_eq!(l.next_action(), IdleAction::WaitForInterrupt);
    assert_eq!(l.state(), IdleState::Run);
}
