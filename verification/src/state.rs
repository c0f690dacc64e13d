//! The lifecycle signal shared by the supervisor and its workers, and the
//! order of steps by which a worker waits on it.

use std::sync::atomic::AtomicBool;
use std::sync::atomic::Ordering;
use std::sync::Arc;
use std::sync::Condvar;
use vstd::prelude::*;

verus! {

/// The condition variable of the standard library.
#[verifier::external_type_specification]
#[verifier::external_body]
pub struct ExCondvar(std::sync::Condvar);

/// `Condvar::new`: a condition variable that no thread waits on yet.
#[verifier::external_body]
fn new_notifier() -> Condvar {
    Condvar::new()
}

/// `Condvar::notify_all`: wakes up every thread that is blocked on the
/// condition variable.
#[verifier::external_body]
fn wake_all(notifier: &Condvar) {
    notifier.notify_all()
}

/// `Arc::clone`: another pointer to the same allocation, so that what it
/// points to is the state that the first one points to.
#[verifier::external_body]
fn clone_shared(state: &Arc<AgentState>) -> (r: Arc<AgentState>)
    ensures
        *r == **state,
{
    Arc::clone(state)
}

/// The process-wide lifecycle signal: the termination flag, and the
/// notifier on which threads block while they wait for a change. The flag
/// stands apart from any lock, so that whoever asks for termination never
/// has to take a lock that a worker may be holding.
pub struct AgentState {
    terminated: AtomicBool,
    notifier: Condvar,
}

impl Default for AgentState {
    fn default() -> Self {
        AgentState::new()
    }
}

impl AgentState {
    /// A state in which termination has not been asked for.
    pub fn new() -> AgentState {
        AgentState { terminated: AtomicBool::new(false), notifier: new_notifier() }
    }

    /// A state to be shared between threads.
    pub fn shared() -> Arc<AgentState> {
        Arc::new(AgentState::new())
    }

    /// Another pointer to a shared state, for another thread. It points to
    /// the very state that `state` points to: the same flag, and the same
    /// notifier.
    pub fn share(state: &Arc<AgentState>) -> (r: Arc<AgentState>)
        ensures
            *r == **state,
    {
        clone_shared(state)
    }

    /// Asks every thread to stop: sets the flag, then wakes the threads
    /// that block on the notifier. May be called from any thread, any
    /// number of times. Takes no lock.
    pub fn request_termination(&self) {
        self.terminated.store(true, Ordering::SeqCst);
        wake_all(&self.notifier);
    }

    /// Whether termination has been asked for. Takes no lock.
    pub fn is_terminated(&self) -> bool {
        self.terminated.load(Ordering::SeqCst)
    }

    /// Wakes the threads that block on the notifier, after a change to the
    /// state they wait on.
    pub fn notify_change(&self) {
        wake_all(&self.notifier);
    }

    /// The notifier of this state: the one that its threads block on, and
    /// that `request_termination` and `notify_change` wake.
    pub closed spec fn waited_on(&self) -> Condvar {
        self.notifier
    }

    /// The notifier to block on while waiting for a change.
    pub fn notifier(&self) -> (r: &Condvar)
        ensures
            *r == self.waited_on(),
    {
        &self.notifier
    }
}

/// The pair that the state lock protects.
#[derive(Clone, Copy, Debug, PartialEq, Eq, Structural)]
pub struct InnerState {
    pub enabled: bool,
    pub melted_down: bool,
}

/// How a wait for a change ended.
#[derive(Clone, Copy, Debug, PartialEq, Eq, Structural)]
pub enum WaitOutcome {
    /// The awaited condition holds.
    ChangeObserved,
    /// The time allowed ran out first.
    TimedOut,
    /// Termination was asked for.
    Terminated,
}

/// What a waiting thread does next.
#[derive(Clone, Copy, Debug, PartialEq, Eq, Structural)]
pub enum WaitAction {
    /// Read the termination flag, holding no lock.
    CheckTerminated,
    /// Take the state lock and test the awaited condition.
    TestPredicate,
    /// Release the lock and block on the notifier, for at most this many
    /// milliseconds.
    Block(u64),
    /// Return this outcome.
    Finish(WaitOutcome),
}

/// What a waiting thread found.
#[derive(Clone, Copy, Debug, PartialEq, Eq, Structural)]
pub enum WaitEvent {
    /// The termination flag, as just read.
    Flag(bool),
    /// Whether the awaited condition holds, tested under the lock, and the
    /// milliseconds gone since the wait began.
    Tested { satisfied: bool, elapsed_ms: u64 },
    /// The thread is awake again: notified, timed out, or for no reason.
    Woken,
}

/// One wait for a change, bounded by a timeout. The thread that waits
/// performs `pending`, reports what it found to `handle`, and repeats until
/// `pending` is a `Finish`.
#[derive(Clone, Copy, Debug, PartialEq, Eq, Structural)]
pub struct Waiter {
    /// The time allowed, in milliseconds.
    pub timeout_ms: u64,
    /// The step to perform now.
    pub pending: WaitAction,
}

impl Waiter {
    /// The wait after one more finding. The flag is read first and again
    /// after every wake; only a flag that reads false leads on to the lock.
    /// A finding that does not answer the pending step changes nothing.
    pub open spec fn next(self, event: WaitEvent) -> Waiter {
        match (self.pending, event) {
            (WaitAction::CheckTerminated, WaitEvent::Flag(true)) => Waiter {
                pending: WaitAction::Finish(WaitOutcome::Terminated),
                ..self
            },
            (WaitAction::CheckTerminated, WaitEvent::Flag(false)) => Waiter {
                pending: WaitAction::TestPredicate,
                ..self
            },
            (WaitAction::TestPredicate, WaitEvent::Tested { satisfied, elapsed_ms }) => {
                if satisfied {
                    Waiter { pending: WaitAction::Finish(WaitOutcome::ChangeObserved), ..self }
                } else if elapsed_ms >= self.timeout_ms {
                    Waiter { pending: WaitAction::Finish(WaitOutcome::TimedOut), ..self }
                } else {
                    Waiter {
                        pending: WaitAction::Block((self.timeout_ms - elapsed_ms) as u64),
                        ..self
                    }
                }
            },
            (WaitAction::Block(_), WaitEvent::Woken) => Waiter {
                pending: WaitAction::CheckTerminated,
                ..self
            },
            _ => self,
        }
    }

    /// Begins a wait of at most `timeout_ms` milliseconds. Its first step is
    /// to read the termination flag.
    pub fn new(timeout_ms: u64) -> (w: Waiter)
        ensures
            w == (Waiter { timeout_ms, pending: WaitAction::CheckTerminated }),
    {
        Waiter { timeout_ms, pending: WaitAction::CheckTerminated }
    }

    /// Takes in what the thread found and settles the next step.
    pub fn handle(&mut self, event: WaitEvent)
        ensures
            *final(self) == old(self).next(event),
    {
        match (self.pending, event) {
            (WaitAction::CheckTerminated, WaitEvent::Flag(terminated)) => {
                if terminated {
                    self.pending = WaitAction::Finish(WaitOutcome::Terminated);
                } else {
                    self.pending = WaitAction::TestPredicate;
                }
            },
            (WaitAction::TestPredicate, WaitEvent::Tested { satisfied, elapsed_ms }) => {
                if satisfied {
                    self.pending = WaitAction::Finish(WaitOutcome::ChangeObserved);
                } else if elapsed_ms >= self.timeout_ms {
                    self.pending = WaitAction::Finish(WaitOutcome::TimedOut);
                } else {
                    self.pending = WaitAction::Block(self.timeout_ms - elapsed_ms);
                }
            },
            (WaitAction::Block(_), WaitEvent::Woken) => {
                self.pending = WaitAction::CheckTerminated;
            },
            _ => {},
        }
    }

    /// The outcome, once the wait is over.
    pub fn outcome(&self) -> (r: Option<WaitOutcome>)
        ensures
            r == match self.pending {
                WaitAction::Finish(outcome) => Some(outcome),
                _ => None,
            },
    {
        match self.pending {
            WaitAction::Finish(outcome) => Some(outcome),
            _ => None,
        }
    }
}

/// The lock is taken only on a termination flag that was just read as
/// false: the flag always comes before the lock.
pub proof fn lemma_flag_before_lock(w: Waiter, event: WaitEvent)
    requires
        !(w.pending is TestPredicate),
        w.next(event).pending is TestPredicate,
    ensures
        w.pending is CheckTerminated,
        event == WaitEvent::Flag(false),
{
}

/// Once termination has been asked for, a wait ends with `Terminated`, at
/// the next reading of the flag: at once for a thread about to read it, and
/// right after waking for a thread that was blocked. It never ends with
/// `TimedOut` then.
pub proof fn lemma_termination_ends_the_wait(w: Waiter)
    ensures
        w.pending is CheckTerminated ==> w.next(WaitEvent::Flag(true)).pending
            == WaitAction::Finish(WaitOutcome::Terminated),
        w.pending is Block ==> w.next(WaitEvent::Woken).next(WaitEvent::Flag(true)).pending
            == WaitAction::Finish(WaitOutcome::Terminated),
{
}

/// A wait ends with `TimedOut` only when the condition was tested, did not
/// hold, and the time allowed had run out; with `ChangeObserved` only when
/// the condition was tested and held; with `Terminated` only when the flag
/// read true. A thread is sent to block only for time that is left.
pub proof fn lemma_outcomes_are_earned(w: Waiter, event: WaitEvent)
    requires
        !(w.pending is Finish),
    ensures
        w.next(event).pending == WaitAction::Finish(WaitOutcome::TimedOut) ==> w.pending
            is TestPredicate && (event matches WaitEvent::Tested { satisfied, elapsed_ms }
            && !satisfied && elapsed_ms >= w.timeout_ms),
        w.next(event).pending == WaitAction::Finish(WaitOutcome::ChangeObserved) ==> w.pending
            is TestPredicate && (event matches WaitEvent::Tested { satisfied, .. } && satisfied),
        w.next(event).pending == WaitAction::Finish(WaitOutcome::Terminated) ==> w.pending
            is CheckTerminated && event == WaitEvent::Flag(true),
        !(w.pending is Block) ==> (w.next(event).pending matches WaitAction::Block(ms) ==> 0 < ms
            <= w.timeout_ms),
        w.next(event).timeout_ms == w.timeout_ms,
{
}

/// A wait that is over stays over, with the outcome it had.
pub proof fn lemma_finished_wait_is_final(w: Waiter, event: WaitEvent)
    requires
        w.pending is Finish,
    ensures
        w.next(event) == w,
{
}

} // verus!
