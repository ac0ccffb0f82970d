//! The order in which the service comes up: the migrations first, then the
//! shared connection, and only then the listener.

use vstd::prelude::*;

verus! {

/// The address that the listener binds.
pub const BIND_ADDRESS: &'static str = "0.0.0.0:8080";

/// How far the service has come up.
#[derive(Clone, Copy, Debug, PartialEq, Eq, Structural)]
pub enum Phase {
    /// The migrations are running. This is where every start begins.
    Migrating,
    /// The migrations are through; the shared connection is being opened.
    Connecting,
    /// The listener takes requests.
    Serving,
    /// The start has failed for good.
    Aborted,
}

/// What the outside reports back during the start. A failure carries the
/// message of its error.
#[derive(Debug, PartialEq, Eq)]
pub enum StartupEvent {
    /// The run of the migrations has ended.
    Migrated(Result<(), String>),
    /// The attempt to open the shared connection has ended.
    Connected(Result<(), String>),
}

/// What is to be done next.
#[derive(Clone, Debug, PartialEq, Eq)]
pub enum StartupAction {
    /// Open the shared connection.
    Connect,
    /// Bind the listener to `BIND_ADDRESS` and serve.
    Serve,
    /// Give up with this message, and end with a failure.
    Abort(String),
    /// Nothing: the event did not belong to the phase.
    Ignore,
}

/// The phase that follows `phase` on `event`. An event that does not belong
/// to the phase changes nothing.
pub open spec fn next_phase(phase: Phase, event: StartupEvent) -> Phase {
    match (phase, event) {
        (Phase::Migrating, StartupEvent::Migrated(Ok(_))) => Phase::Connecting,
        (Phase::Migrating, StartupEvent::Migrated(Err(_))) => Phase::Aborted,
        (Phase::Connecting, StartupEvent::Connected(Ok(_))) => Phase::Serving,
        (Phase::Connecting, StartupEvent::Connected(Err(_))) => Phase::Aborted,
        _ => phase,
    }
}

/// The phase that a start has reached after these events, oldest first.
pub open spec fn phase_after(events: Seq<StartupEvent>) -> Phase
    decreases events.len(),
{
    if events.len() == 0 {
        Phase::Migrating
    } else {
        next_phase(phase_after(events.drop_last()), events.last())
    }
}

/// The text of the message that an action gives up with.
pub open spec fn abort_message(action: StartupAction) -> Option<Seq<char>> {
    match action {
        StartupAction::Abort(message) => Some(message@),
        _ => None,
    }
}

/// Takes one event, and says where the start stands then and what is to be
/// done. A failure aborts the start with the message it came with.
pub fn advance(phase: Phase, event: StartupEvent) -> (step: (Phase, StartupAction))
    ensures
        step.0 == next_phase(phase, event),
        match (phase, event) {
            (Phase::Migrating, StartupEvent::Migrated(Ok(_))) => step.1 is Connect,
            (Phase::Connecting, StartupEvent::Connected(Ok(_))) => step.1 is Serve,
            (Phase::Migrating, StartupEvent::Migrated(Err(message))) => abort_message(step.1)
                == Some(message@),
            (Phase::Connecting, StartupEvent::Connected(Err(message))) => abort_message(step.1)
                == Some(message@),
            _ => step.1 is Ignore,
        },
{
    match phase {
        Phase::Migrating => match event {
            StartupEvent::Migrated(Ok(_)) => (Phase::Connecting, StartupAction::Connect),
            StartupEvent::Migrated(Err(message)) => (Phase::Aborted, StartupAction::Abort(message)),
            StartupEvent::Connected(_) => (phase, StartupAction::Ignore),
        },
        Phase::Connecting => match event {
            StartupEvent::Connected(Ok(_)) => (Phase::Serving, StartupAction::Serve),
            StartupEvent::Connected(Err(message)) => (Phase::Aborted, StartupAction::Abort(message)),
            StartupEvent::Migrated(_) => (phase, StartupAction::Ignore),
        },
        Phase::Serving => (phase, StartupAction::Ignore),
        Phase::Aborted => (phase, StartupAction::Ignore),
    }
}

/// The event reports that the migrations went through.
pub open spec fn is_migrated(event: StartupEvent) -> bool {
    event matches StartupEvent::Migrated(Ok(_))
}

/// The event reports that the shared connection was opened.
pub open spec fn is_connected(event: StartupEvent) -> bool {
    event matches StartupEvent::Connected(Ok(_))
}

/// The listener serves only after the migrations went through and, later,
/// the shared connection was opened.
pub proof fn law_serving_comes_last(events: Seq<StartupEvent>)
    requires
        phase_after(events) == Phase::Serving,
    ensures
        exists|i: int, j: int|
            0 <= i < j < events.len() && is_migrated(#[trigger] events[i]) && is_connected(
                #[trigger] events[j],
            ),
    decreases events.len(),
{
    let before = events.drop_last();
    if phase_after(before) == Phase::Serving {
        law_serving_comes_last(before);
        let (i, j) = choose|i: int, j: int|
            0 <= i < j < before.len() && is_migrated(#[trigger] before[i]) && is_connected(
                #[trigger] before[j],
            );
        assert(is_migrated(events[i]) && is_connected(events[j]));
    } else {
        lemma_connecting_follows_migrations(before);
        let i = choose|i: int| 0 <= i < before.len() && is_migrated(#[trigger] before[i]);
        assert(is_migrated(events[i]) && is_connected(events[events.len() - 1]));
    }
}

proof fn lemma_connecting_follows_migrations(events: Seq<StartupEvent>)
    requires
        phase_after(events) == Phase::Connecting,
    ensures
        exists|i: int| 0 <= i < events.len() && is_migrated(#[trigger] events[i]),
    decreases events.len(),
{
    let before = events.drop_last();
    if phase_after(before) == Phase::Connecting {
        lemma_connecting_follows_migrations(before);
        let i = choose|i: int| 0 <= i < before.len() && is_migrated(#[trigger] before[i]);
        assert(is_migrated(events[i]));
    } else {
        assert(is_migrated(events[events.len() - 1]));
    }
}

/// A start that has failed stays failed, and a service that serves goes on
/// serving, whatever is reported later.
pub proof fn law_outcome_is_final(phase: Phase, event: StartupEvent)
    requires
        phase == Phase::Serving || phase == Phase::Aborted,
    ensures
        next_phase(phase, event) == phase,
{
}

} // verus!
