use deepflow_agent::state::{
    AgentState, InnerState, WaitAction, WaitEvent, WaitOutcome, Waiter,
};

#[test]
fn new_state_is_not_terminated() {
    assert!(!AgentState::new().is_terminated());
    assert!(!AgentState::default().is_terminated());
}

#[test]
fn request_termination_is_seen_and_stays() {
    let state = AgentState::new();
    state.request_termination();
    assert!(state.is_terminated());
    state.request_termination();
    assert!(state.is_terminated());
    assert!(state.is_terminated());
}

#[test]
fn shared_state_is_one_state() {
    let state = AgentState::shared();
    let other = AgentState::share(&state);
    assert!(!other.is_terminated());
    state.request_termination();
    assert!(other.is_terminated());
    other.notify_change();
    assert!(state.is_terminated());
}

#[test]
fn shared_handles_block_on_one_notifier() {
    let state = AgentState::shared();
    let other = AgentState::share(&state);
    assert!(std::ptr::eq(state.notifier(), other.notifier()));
    assert!(std::ptr::eq(&*state, &*other));
    let apart = AgentState::shared();
    assert!(!std::ptr::eq(state.notifier(), apart.notifier()));
}

#[test]
fn states_are_independent() {
    let a = AgentState::new();
    let b = AgentState::new();
    a.request_termination();
    assert!(!b.is_terminated());
}

#[test]
fn inner_state_is_a_plain_pair() {
    let s = InnerState { enabled: true, melted_down: false };
    assert_eq!(s, InnerState { enabled: true, melted_down: false });
    assert_ne!(s, InnerState { enabled: true, melted_down: true });
}

#[test]
fn a_wait_begins_by_reading_the_flag() {
    let w = Waiter::new(500);
    assert_eq!(w.timeout_ms, 500);
    assert_eq!(w.pending, WaitAction::CheckTerminated);
    assert_eq!(w.outcome(), None);
}

#[test]
fn terminated_flag_ends_the_wait_at_once() {
    let mut w = Waiter::new(500);
    w.handle(WaitEvent::Flag(true));
    assert_eq!(w.pending, WaitAction::Finish(WaitOutcome::Terminated));
    assert_eq!(w.outcome(), Some(WaitOutcome::Terminated));
}

#[test]
fn satisfied_condition_ends_the_wait() {
    let mut w = Waiter::new(500);
    w.handle(WaitEvent::Flag(false));
    assert_eq!(w.pending, WaitAction::TestPredicate);
    w.handle(WaitEvent::Tested { satisfied: true, elapsed_ms: 10_000 });
    assert_eq!(w.outcome(), Some(WaitOutcome::ChangeObserved));
}

#[test]
fn unsatisfied_condition_blocks_for_the_time_left() {
    let mut w = Waiter::new(500);
    w.handle(WaitEvent::Flag(false));
    w.handle(WaitEvent::Tested { satisfied: false, elapsed_ms: 120 });
    assert_eq!(w.pending, WaitAction::Block(380));
    w.handle(WaitEvent::Woken);
    assert_eq!(w.pending, WaitAction::CheckTerminated);
    w.handle(WaitEvent::Flag(false));
    w.handle(WaitEvent::Tested { satisfied: false, elapsed_ms: 499 });
    assert_eq!(w.pending, WaitAction::Block(1));
}

#[test]
fn wait_times_out_when_the_time_is_up() {
    let mut w = Waiter::new(500);
    w.handle(WaitEvent::Flag(false));
    w.handle(WaitEvent::Tested { satisfied: false, elapsed_ms: 500 });
    assert_eq!(w.outcome(), Some(WaitOutcome::TimedOut));
    let mut z = Waiter::new(0);
    z.handle(WaitEvent::Flag(false));
    z.handle(WaitEvent::Tested { satisfied: false, elapsed_ms: 0 });
    assert_eq!(z.outcome(), Some(WaitOutcome::TimedOut));
}

#[test]
fn blocked_waiter_reports_termination_after_waking() {
    let mut w = Waiter::new(500);
    w.handle(WaitEvent::Flag(false));
    w.handle(WaitEvent::Tested { satisfied: false, elapsed_ms: 100 });
    w.handle(WaitEvent::Woken);
    w.handle(WaitEvent::Flag(true));
    assert_eq!(w.outcome(), Some(WaitOutcome::Terminated));
}

#[test]
fn termination_wins_even_when_the_time_is_long_gone() {
    let mut w = Waiter::new(5);
    w.handle(WaitEvent::Flag(false));
    w.handle(WaitEvent::Tested { satisfied: false, elapsed_ms: 1 });
    w.handle(WaitEvent::Woken);
    w.handle(WaitEvent::Flag(true));
    assert_eq!(w.outcome(), Some(WaitOutcome::Terminated));
}

#[test]
fn waiter_ignores_events_out_of_turn() {
    let mut w = Waiter::new(500);
    w.handle(WaitEvent::Woken);
    w.handle(WaitEvent::Tested { satisfied: true, elapsed_ms: 0 });
    assert_eq!(w, Waiter::new(500));
    w.handle(WaitEvent::Flag(false));
    w.handle(WaitEvent::Flag(true));
    w.handle(WaitEvent::Woken);
    assert_eq!(w.pending, WaitAction::TestPredicate);
    w.handle(WaitEvent::Tested { satisfied: false, elapsed_ms: 1 });
    w.handle(WaitEvent::Flag(true));
    w.handle(WaitEvent::Tested { satisfied: true, elapsed_ms: 1 });
    assert_eq!(w.pending, WaitAction::Block(499));
}

#[test]
fn finished_wait_stays_finished() {
    let mut w = Waiter::new(500);
    w.handle(WaitEvent::Flag(true));
    let done = w;
    w.handle(WaitEvent::Flag(false));
    w.handle(WaitEvent::Woken);
    w.handle(WaitEvent::Tested { satisfied: true, elapsed_ms: 0 });
    assert_eq!(w, done);
}

#[test]
fn a_wait_driven_against_a_real_flag_ends_terminated() {
    let state = AgentState::new();
    let mut w = Waiter::new(1_000);
    let mut rounds = 0;
    let outcome = loop {
        match w.pending {
            WaitAction::CheckTerminated => w.handle(WaitEvent::Flag(state.is_terminated())),
            WaitAction::TestPredicate => {
                w.handle(WaitEvent::Tested { satisfied: false, elapsed_ms: rounds })
            }
            WaitAction::Block(_) => {
                rounds += 1;
                if rounds == 3 {
                    state.request_termination();
                }
                w.handle(WaitEvent::Woken)
            }
            WaitAction::Finish(outcome) => break outcome,
        }
    };
    assert_eq!(outcome, WaitOutcome::Terminated);
    assert_eq!(rounds, 3);
}
