//! The shutdown coordinator: from serving to a clean stop.
//!
//! The coordinator is a state machine that is driven from outside. Signals,
//! the accept loop and the server report events to it; each step answers with
//! what is to be done. It goes through its phases in one direction only:
//! `Running`, `ShutdownRequested`, `Draining`, `Stopped`.

use vstd::prelude::*;

verus! {

/// The phases of the server's life.
#[derive(Clone, Copy, Debug, PartialEq, Eq, Structural)]
pub enum Phase {
    /// New connections are accepted and served.
    Running,
    /// A termination signal came in; the accept loop has not seen it yet.
    ShutdownRequested,
    /// No new connection is accepted; requests in flight run to their end.
    Draining,
    /// Nothing is served any more.
    Stopped,
}

/// The two signals that ask for termination.
#[derive(Clone, Copy, Debug, PartialEq, Eq, Structural)]
pub enum Signal {
    Interrupt,
    Terminate,
}

/// What is reported to the coordinator.
#[derive(Clone, Copy, Debug, PartialEq, Eq, Structural)]
pub enum ShutdownEvent {
    /// A termination signal was delivered.
    Signal(Signal),
    /// The accept loop saw the shutdown notice.
    Observed,
    /// Every request that was in flight has been answered.
    Drained,
    /// The server met an error that it cannot recover from.
    Fatal,
}

/// What the coordinator asks for.
#[derive(Clone, Copy, Debug, PartialEq, Eq, Structural)]
pub enum ShutdownAction {
    /// Nothing is to be done.
    Nothing,
    /// Send the shutdown notice; the signal that caused it is named.
    Notify(Signal),
    /// Stop accepting new connections and let the requests in flight finish.
    StopAccepting,
    /// Leave the process with this exit code.
    Exit(u8),
}

/// The state of the coordinator.
#[derive(Clone, Copy, Debug, PartialEq, Eq, Structural)]
pub struct Coordinator {
    pub phase: Phase,
    /// Whether a fatal error stopped the server.
    pub failed: bool,
}

/// The place of a phase in the order in which the phases are gone through.
pub open spec fn phase_rank(phase: Phase) -> nat {
    match phase {
        Phase::Running => 0,
        Phase::ShutdownRequested => 1,
        Phase::Draining => 2,
        Phase::Stopped => 3,
    }
}

/// The exit code after a clean shutdown.
pub open spec fn clean_exit() -> u8 {
    0
}

/// The exit code after a fatal error.
pub open spec fn failure_exit() -> u8 {
    1
}

impl Coordinator {
    /// Whether the state is one that a run of the coordinator can be in: only a
    /// stopped server can have failed.
    pub open spec fn consistent(self) -> bool {
        self.failed ==> self.phase == Phase::Stopped
    }

    /// Whether new connections are accepted in this state.
    pub open spec fn accepting(self) -> bool {
        self.phase == Phase::Running
    }

    /// Whether requests that are in flight are still served in this state.
    pub open spec fn serving(self) -> bool {
        self.phase != Phase::Stopped
    }

    /// The code that the process exits with, once the server has stopped.
    pub open spec fn exit_status(self) -> Option<u8> {
        if self.phase == Phase::Stopped {
            Some(
                if self.failed {
                    failure_exit()
                } else {
                    clean_exit()
                },
            )
        } else {
            None
        }
    }

    /// The transition of the coordinator: the next state and what is to be done.
    ///
    /// The first signal asks for shutdown; every later one changes nothing. The
    /// accept loop's sighting of the notice starts the drain, and the end of
    /// the drain stops the server with a clean exit. A fatal error stops the
    /// server at once, with the exit code of a failure. An event that the
    /// current phase does not wait for changes nothing.
    pub open spec fn next(self, event: ShutdownEvent) -> (Coordinator, ShutdownAction) {
        match (self.phase, event) {
            (Phase::Running, ShutdownEvent::Signal(signal)) => (
                Coordinator { phase: Phase::ShutdownRequested, failed: self.failed },
                ShutdownAction::Notify(signal),
            ),
            (Phase::ShutdownRequested, ShutdownEvent::Observed) => (
                Coordinator { phase: Phase::Draining, failed: self.failed },
                ShutdownAction::StopAccepting,
            ),
            (Phase::Draining, ShutdownEvent::Drained) => (
                Coordinator { phase: Phase::Stopped, failed: self.failed },
                ShutdownAction::Exit(
                    if self.failed {
                        failure_exit()
                    } else {
                        clean_exit()
                    },
                ),
            ),
            (Phase::Running, ShutdownEvent::Fatal)
            | (Phase::ShutdownRequested, ShutdownEvent::Fatal)
            | (Phase::Draining, ShutdownEvent::Fatal) => (
                Coordinator { phase: Phase::Stopped, failed: true },
                ShutdownAction::Exit(failure_exit()),
            ),
            _ => (self, ShutdownAction::Nothing),
        }
    }

    /// The coordinator of a server that has just started.
    pub fn new() -> (coordinator: Coordinator)
        ensures
            coordinator == (Coordinator { phase: Phase::Running, failed: false }),
            coordinator.consistent(),
            coordinator.accepting(),
    {
        Coordinator { phase: Phase::Running, failed: false }
    }

    /// Takes `event` in: moves to the next state and says what is to be done.
    pub fn step(&mut self, event: ShutdownEvent) -> (action: ShutdownAction)
        ensures
            *final(self) == old(self).next(event).0,
            action == old(self).next(event).1,
            old(self).consistent() ==> final(self).consistent(),
            phase_rank(old(self).phase) <= phase_rank(final(self).phase),
    {
        match (self.phase, event) {
            (Phase::Running, ShutdownEvent::Signal(signal)) => {
                self.phase = Phase::ShutdownRequested;
                ShutdownAction::Notify(signal)
            },
            (Phase::ShutdownRequested, ShutdownEvent::Observed) => {
                self.phase = Phase::Draining;
                ShutdownAction::StopAccepting
            },
            (Phase::Draining, ShutdownEvent::Drained) => {
                self.phase = Phase::Stopped;
                ShutdownAction::Exit(
                    if self.failed {
                        1
                    } else {
                        0
                    },
                )
            },
            (Phase::Running, ShutdownEvent::Fatal)
            | (Phase::ShutdownRequested, ShutdownEvent::Fatal)
            | (Phase::Draining, ShutdownEvent::Fatal) => {
                self.phase = Phase::Stopped;
                self.failed = true;
                ShutdownAction::Exit(1)
            },
            _ => ShutdownAction::Nothing,
        }
    }

    /// Whether new connections are accepted.
    pub fn is_accepting(&self) -> (accepting: bool)
        ensures
            accepting == self.accepting(),
    {
        self.phase == Phase::Running
    }

    /// Whether requests that are in flight are still served.
    pub fn is_serving(&self) -> (serving: bool)
        ensures
            serving == self.serving(),
    {
        self.phase != Phase::Stopped
    }

    /// The code to exit with, once the server has stopped: 0 after a shutdown
    /// that a signal asked for, 1 after a fatal error.
    pub fn exit_code(&self) -> (code: Option<u8>)
        ensures
            code == self.exit_status(),
    {
        if self.phase == Phase::Stopped {
            Some(
                if self.failed {
                    1
                } else {
                    0
                },
            )
        } else {
            None
        }
    }
}

/// The shutdown notice is sent once: after a first signal no further signal
/// changes the state or asks for anything, whichever of the two signals each
/// of them is.
pub proof fn lemma_signal_fires_once(start: Coordinator, first: Signal, second: Signal)
    ensures
        start.next(ShutdownEvent::Signal(first)).1 is Notify <==> start.phase == Phase::Running,
        ({
            let after = start.next(ShutdownEvent::Signal(first)).0;
            after.next(ShutdownEvent::Signal(second)) == (after, ShutdownAction::Nothing)
        }),
{
}

/// Both signals ask for the same: the state after one is the state after the
/// other.
pub proof fn lemma_signals_alike(start: Coordinator)
    ensures
        start.next(ShutdownEvent::Signal(Signal::Interrupt)).0 == start.next(
            ShutdownEvent::Signal(Signal::Terminate),
        ).0,
{
}

/// A shutdown that a signal asks for, seen by the accept loop and drained,
/// stops a running server with exit code 0. From the signal on no connection
/// is accepted, and until the drain is over requests in flight are served.
pub proof fn lemma_graceful_shutdown(signal: Signal)
    ensures
        ({
            let running = Coordinator { phase: Phase::Running, failed: false };
            let requested = running.next(ShutdownEvent::Signal(signal)).0;
            let draining = requested.next(ShutdownEvent::Observed).0;
            let stopped = draining.next(ShutdownEvent::Drained);
            &&& !requested.accepting() && requested.serving()
            &&& requested.next(ShutdownEvent::Observed).1 == ShutdownAction::StopAccepting
            &&& !draining.accepting() && draining.serving()
            &&& stopped.0.phase == Phase::Stopped
            &&& stopped.1 == ShutdownAction::Exit(clean_exit())
            &&& stopped.0.exit_status() == Some(clean_exit())
        }),
{
}

/// Every step keeps a consistent state consistent and never goes back to an
/// earlier phase; a stopped server stays as it is.
pub proof fn lemma_step_invariants(state: Coordinator, event: ShutdownEvent)
    ensures
        state.consistent() ==> state.next(event).0.consistent(),
        phase_rank(state.phase) <= phase_rank(state.next(event).0.phase),
        state.phase == Phase::Stopped ==> state.next(event) == (state, ShutdownAction::Nothing),
{
}

/// The exit code is that of a failure exactly where a fatal error stopped the
/// server: a consistent state that no fatal error has reached exits with 0 when
/// it stops, and a fatal error makes every state that has not stopped exit
/// with 1.
pub proof fn lemma_exit_codes(state: Coordinator, event: ShutdownEvent)
    requires
        state.consistent(),
    ensures
        ({
            let next = state.next(event).0;
            &&& next.exit_status() == Some(failure_exit()) <==> next.failed
            &&& next.failed <==> state.failed || (event == ShutdownEvent::Fatal && state.phase
                != Phase::Stopped)
            &&& state.next(event).1 matches ShutdownAction::Exit(code) ==> next.exit_status()
                == Some(code)
        }),
{
}

} // verus!
