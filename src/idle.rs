//! The halt-based idle loop, as a two-state machine.
//!
//! In `Run` the executor makes one pass over its ready tasks; after every
//! pass the loop moves to `Halt` and the processor is suspended until the next
//! interrupt, after which it runs again. The caller performs the actions; the
//! hardware guarantees that a halt requested while an interrupt is pending
//! returns at once.

use vstd::prelude::*;

verus! {

/// The state of the idle loop.
#[derive(Clone, Copy, Debug, PartialEq, Eq, Structural)]
pub enum IdleState {
    /// The next thing to do is a pass over the ready tasks.
    Run,
    /// The next thing to do is to suspend until an interrupt.
    Halt,
}

/// What the caller must do next.
#[derive(Clone, Copy, Debug, PartialEq, Eq, Structural)]
pub enum IdleAction {
    /// Poll every ready task once.
    PollTasks,
    /// Suspend the processor until the next interrupt.
    WaitForInterrupt,
}

/// The action that a state calls for, and the state that follows it.
pub open spec fn idle_step(state: IdleState) -> (IdleState, IdleAction) {
    match state {
        IdleState::Run => (IdleState::Halt, IdleAction::PollTasks),
        IdleState::Halt => (IdleState::Run, IdleAction::WaitForInterrupt),
    }
}

/// The first `n` actions of the loop from `state`.
pub open spec fn idle_trace(state: IdleState, n: nat) -> Seq<IdleAction>
    decreases n,
{
    if n == 0 {
        Seq::empty()
    } else {
        seq![idle_step(state).1] + idle_trace(idle_step(state).0, (n - 1) as nat)
    }
}

/// The idle loop's state machine.
pub struct IdleLoop {
    state: IdleState,
}

impl View for IdleLoop {
    type V = IdleState;

    closed spec fn view(&self) -> IdleState {
        self.state
    }
}

impl IdleLoop {
    /// A loop that starts with a pass over the ready tasks.
    pub fn new() -> (l: Self)
        ensures
            l@ == IdleState::Run,
    {
        IdleLoop { state: IdleState::Run }
    }

    /// The current state.
    pub fn state(&self) -> (s: IdleState)
        ensures
            s == self@,
    {
        self.state
    }

    /// The action to perform now; the loop moves to the state that follows
    /// it.
    pub fn next_action(&mut self) -> (a: IdleAction)
        ensures
            (final(self)@, a) == idle_step(old(self)@),
    {
        match self.state {
            IdleState::Run => {
                self.state = IdleState::Halt;
                IdleAction::PollTasks
            },
            IdleState::Halt => {
                self.state = IdleState::Run;
                IdleAction::WaitForInterrupt
            },
        }
    }
}

/// From either state, the actions alternate strictly between a pass and a
/// halt request.
proof fn lemma_idle_trace_alternates(state: IdleState, n: nat)
    ensures
        idle_trace(state, n).len() == n,
        forall|k: int|
            0 <= k < n ==> #[trigger] idle_trace(state, n)[k] == if (k + if state == IdleState::Run {
                0int
            } else {
                1int
            }) % 2 == 0 {
                IdleAction::PollTasks
            } else {
                IdleAction::WaitForInterrupt
            },
    decreases n,
{
    if n > 0 {
        let next = idle_step(state).0;
        lemma_idle_trace_alternates(next, (n - 1) as nat);
        let t = idle_trace(state, n);
        let rest = idle_trace(next, (n - 1) as nat);
        assert forall|k: int| 0 < k < n implies #[trigger] t[k] == rest[k - 1] by {}
    }
}

/// Every pass over the tasks is followed by exactly one halt request, and
/// every halt by a pass: the loop never polls twice without halting, nor
/// halts twice without polling.
pub proof fn lemma_each_pass_followed_by_one_halt(n: nat)
    ensures
        forall|k: int|
            0 <= k < n ==> (#[trigger] idle_trace(IdleState::Run, n)[k] == IdleAction::PollTasks
                <==> k % 2 == 0),
        forall|k: int|
            0 <= k && k + 1 < n && idle_trace(IdleState::Run, n)[k] == IdleAction::PollTasks
                ==> #[trigger] idle_trace(IdleState::Run, n)[k + 1] == IdleAction::WaitForInterrupt,
        forall|k: int|
            0 <= k && k + 1 < n && idle_trace(IdleState::Run, n)[k] == IdleAction::WaitForInterrupt
                ==> #[trigger] idle_trace(IdleState::Run, n)[k + 1] == IdleAction::PollTasks,
{
    lemma_idle_trace_alternates(IdleState::Run, n);
}

} // verus!
