//! The supervisor's decisions: accept while running, and shut down in order
//! once cancelled: stop accepting, close the relay backend, then drain the
//! connection tasks.
//!
//! The caller runs the loop: it waits for the next event (cancellation first,
//! then an accepted connection, a finished task, or the completion of what it
//! was last told to do), hands it to [`Supervisor::step`], and performs the
//! action that comes back.

use vstd::prelude::*;

verus! {

/// Where the supervisor stands.
#[derive(Debug, Copy, Clone, PartialEq, Eq, Structural)]
pub enum Phase {
    /// Accepting connections.
    Accepting,
    /// Cancelled; waiting for the relay backend to close.
    ClosingRelay,
    /// Waiting for the connection tasks to be shut down.
    Draining,
    /// Every task has ended; the supervisor task completes.
    Finished,
}

/// What the supervisor learns.
#[derive(Debug, Copy, Clone, PartialEq, Eq, Structural)]
pub enum SupervisorEvent {
    /// The cancellation token fired.
    Cancelled,
    /// The listener accepted a connection.
    Accepted,
    /// The listener reported an error.
    AcceptFailed,
    /// A connection task ended.
    TaskFinished,
    /// The relay backend finished closing.
    RelayClosed,
    /// The task set was shut down: every task has ended.
    TasksDrained,
}

/// What the supervisor asks for.
#[derive(Debug, Copy, Clone, PartialEq, Eq, Structural)]
pub enum SupervisorAction {
    /// Spawn a task for the accepted connection.
    SpawnConnection,
    /// Drop the accepted connection unserved.
    DropConnection,
    /// Log the accept error and go on.
    LogAcceptError,
    /// Ask the relay backend to close, and report when it has.
    CloseRelay,
    /// Shut down the task set, and report when it is empty.
    ShutdownTasks,
    /// Log that the server has shut down and complete.
    Finish,
    /// Nothing to do.
    Nothing,
}

/// The supervisor's state.
pub struct Supervisor {
    pub phase: Phase,
    /// A relay backend runs behind this server and must be closed on shutdown.
    pub has_relay: bool,
    /// How many connection tasks are running, as the supervisor accounts for
    /// them: one more for each spawn, one fewer for each reported end, none
    /// once the task set reports itself drained.
    pub live: Ghost<nat>,
}

/// The state after `s` with `live` tasks and phase `phase`.
pub open spec fn with(s: Supervisor, phase: Phase, live: nat) -> Supervisor {
    Supervisor { phase, has_relay: s.has_relay, live: Ghost(live) }
}

/// One fewer running task, never below zero.
pub open spec fn one_less(n: nat) -> nat {
    if n == 0 { 0 } else { (n - 1) as nat }
}

/// The next state and the action for event `e` in state `s`.
pub open spec fn transition(s: Supervisor, e: SupervisorEvent) -> (Supervisor, SupervisorAction) {
    let live = s.live@;
    match (s.phase, e) {
        (Phase::Accepting, SupervisorEvent::Cancelled) => if s.has_relay {
            (with(s, Phase::ClosingRelay, live), SupervisorAction::CloseRelay)
        } else {
            (with(s, Phase::Draining, live), SupervisorAction::ShutdownTasks)
        },
        (Phase::Accepting, SupervisorEvent::Accepted) => (with(s, Phase::Accepting, live + 1), SupervisorAction::SpawnConnection),
        (Phase::Accepting, SupervisorEvent::AcceptFailed) => (s, SupervisorAction::LogAcceptError),
        (Phase::ClosingRelay, SupervisorEvent::RelayClosed) => (with(s, Phase::Draining, live), SupervisorAction::ShutdownTasks),
        (Phase::Draining, SupervisorEvent::TasksDrained) => (with(s, Phase::Finished, 0), SupervisorAction::Finish),
        (_, SupervisorEvent::Accepted) => (s, SupervisorAction::DropConnection),
        (Phase::Finished, _) => (s, SupervisorAction::Nothing),
        (_, SupervisorEvent::TaskFinished) => (with(s, s.phase, one_less(live)), SupervisorAction::Nothing),
        _ => (s, SupervisorAction::Nothing),
    }
}

/// The state after the events `evs`, one after the other.
pub open spec fn run(s: Supervisor, evs: Seq<SupervisorEvent>) -> Supervisor
    decreases evs.len(),
{
    if evs.len() == 0 {
        s
    } else {
        run(transition(s, evs[0]).0, evs.drop_first())
    }
}

/// The actions asked for along the events `evs`.
pub open spec fn actions(s: Supervisor, evs: Seq<SupervisorEvent>) -> Seq<SupervisorAction>
    decreases evs.len(),
{
    if evs.len() == 0 {
        Seq::empty()
    } else {
        seq![transition(s, evs[0]).1] + actions(transition(s, evs[0]).0, evs.drop_first())
    }
}

impl Supervisor {
    /// The invariant: a finished supervisor has no task left.
    pub open spec fn wf(&self) -> bool {
        self.phase == Phase::Finished ==> self.live@ == 0
    }

    /// A supervisor that accepts, with no task yet.
    pub fn new(has_relay: bool) -> (r: Supervisor)
        ensures
            r.phase == Phase::Accepting,
            r.has_relay == has_relay,
            r.live@ == 0,
            r.wf(),
    {
        Supervisor { phase: Phase::Accepting, has_relay, live: Ghost(0) }
    }

    /// Takes in one event and says what to do.
    pub fn step(&mut self, e: SupervisorEvent) -> (a: SupervisorAction)
        requires
            old(self).wf(),
        ensures
            (*final(self), a) == transition(*old(self), e),
            final(self).wf(),
            a == SupervisorAction::SpawnConnection ==> old(self).phase == Phase::Accepting,
    {
        let ghost live = self.live@;
        match (self.phase, e) {
            (Phase::Accepting, SupervisorEvent::Cancelled) => if self.has_relay {
                self.phase = Phase::ClosingRelay;
                SupervisorAction::CloseRelay
            } else {
                self.phase = Phase::Draining;
                SupervisorAction::ShutdownTasks
            },
            (Phase::Accepting, SupervisorEvent::Accepted) => {
                self.live = Ghost(live + 1);
                SupervisorAction::SpawnConnection
            },
            (Phase::Accepting, SupervisorEvent::AcceptFailed) => SupervisorAction::LogAcceptError,
            (Phase::ClosingRelay, SupervisorEvent::RelayClosed) => {
                self.phase = Phase::Draining;
                SupervisorAction::ShutdownTasks
            },
            (Phase::Draining, SupervisorEvent::TasksDrained) => {
                self.phase = Phase::Finished;
                self.live = Ghost(0);
                SupervisorAction::Finish
            },
            (_, SupervisorEvent::Accepted) => SupervisorAction::DropConnection,
            (Phase::Finished, _) => SupervisorAction::Nothing,
            (_, SupervisorEvent::TaskFinished) => {
                self.live = Ghost(one_less(live));
                SupervisorAction::Nothing
            },
            _ => SupervisorAction::Nothing,
        }
    }
}

/// Once the supervisor has stopped accepting, no further connection is spawned,
/// whatever happens next.
pub proof fn lemma_no_spawn_after_cancel(s: Supervisor, evs: Seq<SupervisorEvent>)
    requires
        s.phase != Phase::Accepting,
    ensures
        !actions(s, evs).contains(SupervisorAction::SpawnConnection),
        run(s, evs).phase != Phase::Accepting,
    decreases evs.len(),
{
    if evs.len() > 0 {
        let t = transition(s, evs[0]);
        lemma_no_spawn_after_cancel(t.0, evs.drop_first());
        let rest = actions(t.0, evs.drop_first());
        let all = seq![t.1] + rest;
        assert forall|i: int| 0 <= i < all.len() implies all[i] != SupervisorAction::SpawnConnection by {
            if i > 0 {
                assert(all[i] == rest[i - 1]);
            }
        }
    }
}

/// When the supervisor has finished, no connection task is still running.
///
/// This holds of the supervisor's own count of tasks, which `TasksDrained`
/// empties: it speaks of the running server only because that event is sent
/// once the task set has been shut down and every task in it has ended.
pub proof fn lemma_finished_has_no_tasks(s: Supervisor, evs: Seq<SupervisorEvent>)
    requires
        s.wf(),
    ensures
        run(s, evs).wf(),
        run(s, evs).phase == Phase::Finished ==> run(s, evs).live@ == 0,
    decreases evs.len(),
{
    if evs.len() > 0 {
        lemma_finished_has_no_tasks(transition(s, evs[0]).0, evs.drop_first());
    }
}

/// Cancelling twice is cancelling once: the second cancellation changes nothing.
pub proof fn lemma_cancel_idempotent(s: Supervisor)
    ensures
        ({
            let once = transition(s, SupervisorEvent::Cancelled).0;
            transition(once, SupervisorEvent::Cancelled) == (once, SupervisorAction::Nothing)
        }),
{
}

/// The relay backend is closed before the tasks are drained: with a backend,
/// cancellation asks to close it, and the drain is asked for only once it has
/// closed.
pub proof fn lemma_close_relay_before_drain(s: Supervisor, e: SupervisorEvent)
    requires
        s.has_relay,
    ensures
        transition(s, e).1 == SupervisorAction::ShutdownTasks ==> s.phase == Phase::ClosingRelay
            && e == SupervisorEvent::RelayClosed,
        transition(s, e).1 == SupervisorAction::Finish ==> s.phase == Phase::Draining,
        s.phase == Phase::Accepting && e == SupervisorEvent::Cancelled ==> transition(s, e).1
            == SupervisorAction::CloseRelay,
{
}

} // verus!
