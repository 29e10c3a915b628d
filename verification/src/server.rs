//! The server orchestrator's lifecycle: build, run, shut down.
//!
//! The orchestrator spawns the health reporter, builds the reflection service,
//! serves the composed services on one socket until the shared cancellation
//! signal fires, and then — strictly after the listener has stopped — cancels
//! the health reporter and waits for it to finish, so that health is still
//! reported while the listener drains. The decisions of that sequence form the
//! state machine here: the surrounding runtime performs each [`ServerAction`],
//! reports what happened as a [`ServerEvent`], and this module decides the
//! next phase. A failure at any step is fatal: there is no degraded mode.

use vstd::prelude::*;

verus! {

/// The fatal ways a server run can end.
#[derive(Debug, Clone, Copy, PartialEq, Eq, Structural)]
pub enum ServerError {
    /// The listener could not be bound or failed while serving.
    Transport,
    /// Waiting for the health reporter's task failed.
    Task,
    /// The reflection service describing the schema could not be built.
    ReflectionServer,
}

/// Where a server run stands.
#[derive(Debug, Clone, Copy, PartialEq, Eq, Structural)]
pub enum ServerPhase {
    /// Nothing started yet.
    Init,
    /// The health reporter runs as its own cancellable task.
    ReporterSpawned,
    /// The reflection service is built; the listener can start.
    ReflectionReady,
    /// The listener stopped cleanly after the cancellation signal fired;
    /// the health reporter is still running and must now be stopped.
    ListenerStopped,
    /// The health reporter was joined; the run is complete.
    Finished,
    /// The run ended with a fatal error.
    Failed(ServerError),
}

/// What the runtime observed after performing the current action.
#[derive(Debug, Clone, Copy, PartialEq, Eq, Structural)]
pub enum ServerEvent {
    /// The health reporter task was spawned.
    ReporterLaunched,
    /// Building the reflection service succeeded or failed.
    ReflectionBuilt(bool),
    /// The listener exited: cleanly after the cancellation signal, or with a
    /// transport error.
    ListenerExited(bool),
    /// Waiting for the health reporter completed: cleanly, or with a join
    /// error.
    ReporterJoined(bool),
}

/// What the runtime must do next in a given phase.
#[derive(Debug, Clone, Copy, PartialEq, Eq, Structural)]
pub enum ServerAction {
    /// Spawn the health reporter on the shared cancellation signal.
    SpawnReporter,
    /// Build the reflection service describing the exposed schema.
    BuildReflection,
    /// Serve health, streaming and reflection on one socket until the shared
    /// cancellation signal fires.
    ServeUntilCancelled,
    /// Issue the second, explicit cancellation to the health reporter and
    /// wait for its task to finish.
    CancelAndJoinReporter,
    /// Return success to the caller.
    ReturnOk,
    /// Return the fatal error to the caller.
    ReturnErr(ServerError),
}

/// Which event a phase can take: each phase of the running sequence awaits
/// exactly one kind of observation, and the terminal phases await none.
pub open spec fn event_enabled(phase: ServerPhase, event: ServerEvent) -> bool {
    match event {
        ServerEvent::ReporterLaunched => phase is Init,
        ServerEvent::ReflectionBuilt(_) => phase is ReporterSpawned,
        ServerEvent::ListenerExited(_) => phase is ReflectionReady,
        ServerEvent::ReporterJoined(_) => phase is ListenerStopped,
    }
}

/// The phase an event leads to: the sequence advances on success, and any
/// failure is fatal with the step's own error.
pub open spec fn spec_on_event(phase: ServerPhase, event: ServerEvent) -> ServerPhase {
    match event {
        ServerEvent::ReporterLaunched => ServerPhase::ReporterSpawned,
        ServerEvent::ReflectionBuilt(ok) => if ok {
            ServerPhase::ReflectionReady
        } else {
            ServerPhase::Failed(ServerError::ReflectionServer)
        },
        ServerEvent::ListenerExited(ok) => if ok {
            ServerPhase::ListenerStopped
        } else {
            ServerPhase::Failed(ServerError::Transport)
        },
        ServerEvent::ReporterJoined(ok) => if ok {
            ServerPhase::Finished
        } else {
            ServerPhase::Failed(ServerError::Task)
        },
    }
}

/// The phase every run starts in.
pub fn initial_phase() -> (r: ServerPhase)
    ensures
        r is Init,
{
    ServerPhase::Init
}

/// Advance the run by one observation.
pub fn on_event(phase: ServerPhase, event: ServerEvent) -> (r: ServerPhase)
    requires
        event_enabled(phase, event),
    ensures
        r == spec_on_event(phase, event),
{
    match event {
        ServerEvent::ReporterLaunched => ServerPhase::ReporterSpawned,
        ServerEvent::ReflectionBuilt(ok) => {
            if ok {
                ServerPhase::ReflectionReady
            } else {
                ServerPhase::Failed(ServerError::ReflectionServer)
            }
        },
        ServerEvent::ListenerExited(ok) => {
            if ok {
                ServerPhase::ListenerStopped
            } else {
                ServerPhase::Failed(ServerError::Transport)
            }
        },
        ServerEvent::ReporterJoined(ok) => {
            if ok {
                ServerPhase::Finished
            } else {
                ServerPhase::Failed(ServerError::Task)
            }
        },
    }
}

/// What the runtime must do in each phase. The reporter is cancelled and
/// joined only in the phase the listener's clean stop leads to: shutdown is
/// strictly ordered, listener first, health reporter second.
pub fn next_action(phase: &ServerPhase) -> (r: ServerAction)
    ensures
        match phase {
            ServerPhase::Init => r is SpawnReporter,
            ServerPhase::ReporterSpawned => r is BuildReflection,
            ServerPhase::ReflectionReady => r is ServeUntilCancelled,
            ServerPhase::ListenerStopped => r is CancelAndJoinReporter,
            ServerPhase::Finished => r is ReturnOk,
            ServerPhase::Failed(e) => r matches ServerAction::ReturnErr(f) && f == e,
        },
{
    match phase {
        ServerPhase::Init => ServerAction::SpawnReporter,
        ServerPhase::ReporterSpawned => ServerAction::BuildReflection,
        ServerPhase::ReflectionReady => ServerAction::ServeUntilCancelled,
        ServerPhase::ListenerStopped => ServerAction::CancelAndJoinReporter,
        ServerPhase::Finished => ServerAction::ReturnOk,
        ServerPhase::Failed(e) => ServerAction::ReturnErr(*e),
    }
}

/// A run of the orchestrator: the phases visited and the events taken, each
/// event enabled in the phase it was taken in.
pub open spec fn valid_run(phases: Seq<ServerPhase>, events: Seq<ServerEvent>) -> bool {
    &&& phases.len() == events.len() + 1
    &&& phases[0] is Init
    &&& forall|i: int|
        0 <= i < events.len() ==> #[trigger] event_enabled(phases[i], events[i]) && phases[i + 1]
            == spec_on_event(phases[i], events[i])
}

/// Law: shutdown is ordered. In every run of the orchestrator, the health
/// reporter's join completes only after the listener has stopped serving: a
/// reporter-join observation is always immediately preceded by the listener's
/// clean exit.
pub proof fn lemma_shutdown_ordering(phases: Seq<ServerPhase>, events: Seq<ServerEvent>, k: int)
    requires
        valid_run(phases, events),
        0 <= k < events.len(),
        events[k] is ReporterJoined,
    ensures
        0 < k,
        events[k - 1] matches ServerEvent::ListenerExited(ok) && ok,
{
    assert(event_enabled(phases[k], events[k]));
    assert(phases[k] is ListenerStopped);
    assert(event_enabled(phases[k - 1], events[k - 1]));
}

} // verus!
