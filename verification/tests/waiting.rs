use deepflow_agent::state::{AgentState, WaitAction, WaitEvent, WaitOutcome, Waiter};
use std::sync::Mutex;
use std::time::{Duration, Instant};

fn await_change(state: &AgentState, inner: &Mutex<(bool, bool)>, timeout: Duration) -> WaitOutcome {
    let notifier = state.notifier();
    let started = Instant::now();
    let mut waiter = Waiter::new(timeout.as_millis() as u64);
    let mut guard = None;
    loop {
        match waiter.pending {
            WaitAction::CheckTerminated => {
                guard = None;
                waiter.handle(WaitEvent::Flag(state.is_terminated()));
            }
            WaitAction::TestPredicate => {
                let held = inner.lock().unwrap();
                let satisfied = held.0 && !held.1;
                guard = Some(held);
                waiter.handle(WaitEvent::Tested {
                    satisfied,
                    elapsed_ms: started.elapsed().as_millis() as u64,
                });
            }
            WaitAction::Block(ms) => {
                let held = guard.take().unwrap();
                let (held, _) = notifier.wait_timeout(held, Duration::from_millis(ms)).unwrap();
                drop(held);
                waiter.handle(WaitEvent::Woken);
            }
            WaitAction::Finish(outcome) => return outcome,
        }
    }
}

#[test]
fn waiter_times_out_when_nothing_happens() {
    let state = AgentState::new();
    let inner = Mutex::new((false, false));
    let started = Instant::now();
    let outcome = await_change(&state, &inner, Duration::from_millis(30));
    assert_eq!(outcome, WaitOutcome::TimedOut);
    assert!(started.elapsed() >= Duration::from_millis(30));
}

#[test]
fn waiter_reports_termination_without_touching_the_lock() {
    let state = AgentState::new();
    let inner = Mutex::new((true, false));
    state.request_termination();
    let held = inner.lock().unwrap();
    let outcome = await_change_without_lock(&state);
    drop(held);
    assert_eq!(outcome, WaitOutcome::Terminated);
    assert_eq!(
        await_change(&state, &inner, Duration::from_secs(5)),
        WaitOutcome::Terminated
    );
}

fn await_change_without_lock(state: &AgentState) -> WaitOutcome {
    let mut waiter = Waiter::new(5_000);
    loop {
        match waiter.pending {
            WaitAction::CheckTerminated => waiter.handle(WaitEvent::Flag(state.is_terminated())),
            WaitAction::Finish(outcome) => return outcome,
            WaitAction::TestPredicate | WaitAction::Block(_) => {
                panic!("the lock was asked for after termination")
            }
        }
    }
}

#[test]
fn waiter_sees_a_condition_that_holds() {
    let state = AgentState::new();
    let inner = Mutex::new((true, false));
    assert_eq!(
        await_change(&state, &inner, Duration::from_secs(5)),
        WaitOutcome::ChangeObserved
    );
}
