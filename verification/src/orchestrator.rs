//! The process lifetime policy: race, do not orchestrate. The process is
//! RUNNING once the RPC server, the metrics exporter and the signal
//! listener are all started; the first of them to finish — or the first
//! termination signal — moves it to SHUTTING_DOWN, which is terminal. No
//! in-flight request is drained and no failed task is restarted.

use vstd::prelude::*;

verus! {

/// An operating-system termination signal observed by the signal listener.
pub enum Signal {
    Interrupt,
    Terminate,
    Quit,
    Hangup,
}

/// The first completion observed among the racing tasks.
pub enum TaskEvent {
    /// The signal listener observed a termination signal.
    SignalReceived(Signal),
    /// The RPC server task exited, cleanly or with an error.
    RpcServerExited,
    /// The metrics exporter task exited.
    MetricsServerExited,
}

/// The two lifetime states of the process.
#[derive(PartialEq, Eq, Structural)]
pub enum RunState {
    Running,
    ShuttingDown,
}

/// The state after `event` is observed in `state`: every event ends the
/// race, and shutdown is terminal.
pub open spec fn spec_next(state: RunState, event: TaskEvent) -> RunState {
    RunState::ShuttingDown
}

/// The supervisor that collects the single completion signal from
/// whichever task finishes first.
pub struct Orchestrator {
    state: RunState,
}

impl Orchestrator {
    pub closed spec fn view(&self) -> RunState {
        self.state
    }

    /// A freshly started process: all tasks launched, none finished.
    pub fn new() -> (r: Orchestrator)
        ensures
            r@ == RunState::Running,
    {
        Orchestrator { state: RunState::Running }
    }

    /// Observes one task completion or signal. Whatever the event and
    /// whatever the current state, the process is shutting down afterwards.
    pub fn on_event(&mut self, event: TaskEvent)
        ensures
            final (self)@ == spec_next(old(self)@, event),
            final (self)@ == RunState::ShuttingDown,
    {
        self.state = RunState::ShuttingDown;
    }

    /// Whether the process should keep serving.
    pub fn is_running(&self) -> (r: bool)
        ensures
            r == (self@ == RunState::Running),
    {
        match self.state {
            RunState::Running => true,
            RunState::ShuttingDown => false,
        }
    }
}

/// Shutdown is terminal: no event observed while shutting down leads back
/// to RUNNING, and no event observed at all leaves RUNNING standing.
pub proof fn lemma_shutdown_terminal(state: RunState, event: TaskEvent)
    ensures
        spec_next(state, event) == RunState::ShuttingDown,
        spec_next(RunState::ShuttingDown, event) == RunState::ShuttingDown,
{
}

/// The line printed when a termination signal ends the process, as the
/// signal listener reports it.
pub fn signal_description(s: &Signal) -> (r: &'static str)
    ensures
        s is Interrupt ==> r@ == "Exiting process due to SIGINT"@,
        s is Terminate ==> r@ == "Exiting process due to SIGTERM"@,
        s is Quit ==> r@ == "Exiting process due to SIGQUIT"@,
        s is Hangup ==> r@ == "Exiting process due to SIGHUP"@,
{
    match s {
        Signal::Interrupt => "Exiting process due to SIGINT",
        Signal::Terminate => "Exiting process due to SIGTERM",
        Signal::Quit => "Exiting process due to SIGQUIT",
        Signal::Hangup => "Exiting process due to SIGHUP",
    }
}

} // verus!
