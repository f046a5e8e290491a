//! The connection lifecycle: connect to power-profiles-daemon, seed the
//! initial profile, follow its change notifications while probing liveness,
//! and on any failure show "Unavailable" and retry after a short delay.
//!
//! `watch_step` takes the current phase and what just happened, and says
//! what to do next; the caller performs the D-Bus calls, timers and renders.
use crate::decision::{spec_state_for_profile, state_for_profile, ProfileState};
use crate::format::renderable;
use vstd::prelude::*;

verus! {

/// Where the lifecycle stands.
#[derive(Debug, Clone, Copy, PartialEq, Eq, Structural)]
pub enum WatchPhase {
    /// Waiting for a connection attempt to finish.
    Connecting,
    /// Connected; waiting for the first read of the active profile.
    Seeding,
    /// Following change notifications and liveness probes.
    Watching,
    /// Disconnected; waiting out the delay before the next attempt.
    Backoff,
}

/// What the caller observed.
#[derive(Debug, Clone, PartialEq, Eq)]
pub enum WatchEvent {
    /// Connecting to the system bus or the daemon failed.
    ConnectFailed,
    /// Connected to the daemon.
    Connected,
    /// The first read of the active profile returned this name.
    InitialProfile(String),
    /// The first read of the active profile failed.
    InitialProfileFailed,
    /// The daemon reported a new active profile.
    ProfileChanged(String),
    /// The change stream ended.
    StreamEnded,
    /// A liveness probe reached the daemon.
    ProbeSucceeded,
    /// A liveness probe failed: the daemon is gone.
    ProbeFailed,
    /// The delay before reconnecting has passed.
    RetryDelayElapsed,
}

/// What the caller should do, in order.
#[derive(Debug, Clone, Copy, PartialEq, Eq, Structural)]
pub enum WatchCommand {
    /// Try to connect to the daemon.
    Connect,
    /// Read the daemon's active profile.
    ReadActiveProfile,
    /// Set this state and render it to every instance.
    Publish(ProfileState),
    /// Open the change stream, hand the client to the action, and start the
    /// liveness ticker.
    StartWatching,
    /// Take the client away from the action.
    DropClient,
    /// Wait before the next connection attempt.
    WaitBeforeRetry,
}

/// The lifecycle's next phase and commands, for events taken by their view.
pub open spec fn spec_watch_step(phase: WatchPhase, event: WatchEvent) -> (WatchPhase, Seq<WatchCommand>) {
    match (phase, event) {
        (WatchPhase::Connecting, WatchEvent::ConnectFailed) => (
            WatchPhase::Backoff,
            seq![WatchCommand::Publish(ProfileState::Unavailable), WatchCommand::WaitBeforeRetry],
        ),
        (WatchPhase::Connecting, WatchEvent::Connected) => (
            WatchPhase::Seeding,
            seq![WatchCommand::ReadActiveProfile],
        ),
        (WatchPhase::Seeding, WatchEvent::InitialProfile(name)) => (
            WatchPhase::Watching,
            seq![WatchCommand::Publish(spec_state_for_profile(name@)), WatchCommand::StartWatching],
        ),
        (WatchPhase::Seeding, WatchEvent::InitialProfileFailed) => (
            WatchPhase::Watching,
            seq![WatchCommand::Publish(ProfileState::Unavailable), WatchCommand::StartWatching],
        ),
        (WatchPhase::Watching, WatchEvent::ProfileChanged(name)) => (
            WatchPhase::Watching,
            seq![WatchCommand::Publish(spec_state_for_profile(name@))],
        ),
        (WatchPhase::Watching, WatchEvent::ProbeSucceeded) => (WatchPhase::Watching, seq![]),
        (WatchPhase::Watching, WatchEvent::StreamEnded) | (
            WatchPhase::Watching,
            WatchEvent::ProbeFailed,
        ) => (
            WatchPhase::Backoff,
            seq![
                WatchCommand::DropClient,
                WatchCommand::Publish(ProfileState::Unavailable),
                WatchCommand::WaitBeforeRetry,
            ],
        ),
        (WatchPhase::Backoff, WatchEvent::RetryDelayElapsed) => (
            WatchPhase::Connecting,
            seq![WatchCommand::Connect],
        ),
        _ => (phase, seq![]),
    }
}

/// Seconds to wait after a failure before trying to connect again
/// (`WaitBeforeRetry`).
pub fn retry_delay_secs() -> (secs: u64)
    ensures
        secs == 5,
{
    5
}

/// Seconds between liveness probes while watching. The change stream does
/// not end when the daemon disappears - only a failed call surfaces that -
/// so the daemon is probed this often.
pub fn liveness_probe_secs() -> (secs: u64)
    ensures
        secs == 30,
{
    30
}

/// The phase the lifecycle starts in, with its first command.
pub fn watch_start() -> (start: (WatchPhase, Vec<WatchCommand>))
    ensures
        start.0 == WatchPhase::Connecting,
        start.1@ == seq![WatchCommand::Connect],
{
    (WatchPhase::Connecting, vec![WatchCommand::Connect])
}

/// One step of the lifecycle. Events that cannot happen in `phase` change
/// nothing.
pub fn watch_step(phase: WatchPhase, event: &WatchEvent) -> (next: (WatchPhase, Vec<WatchCommand>))
    ensures
        (next.0, next.1@) == spec_watch_step(phase, *event),
        forall|i: int|
            0 <= i < next.1@.len() ==> (#[trigger] next.1@[i] matches WatchCommand::Publish(s)
                ==> renderable(s)),
{
    match (phase, event) {
        (WatchPhase::Connecting, WatchEvent::ConnectFailed) => (
            WatchPhase::Backoff,
            vec![WatchCommand::Publish(ProfileState::Unavailable), WatchCommand::WaitBeforeRetry],
        ),
        (WatchPhase::Connecting, WatchEvent::Connected) => (
            WatchPhase::Seeding,
            vec![WatchCommand::ReadActiveProfile],
        ),
        (WatchPhase::Seeding, WatchEvent::InitialProfile(name)) => (
            WatchPhase::Watching,
            vec![WatchCommand::Publish(state_for_profile(name.as_str())), WatchCommand::StartWatching],
        ),
        (WatchPhase::Seeding, WatchEvent::InitialProfileFailed) => (
            WatchPhase::Watching,
            vec![WatchCommand::Publish(ProfileState::Unavailable), WatchCommand::StartWatching],
        ),
        (WatchPhase::Watching, WatchEvent::ProfileChanged(name)) => (
            WatchPhase::Watching,
            vec![WatchCommand::Publish(state_for_profile(name.as_str()))],
        ),
        (WatchPhase::Watching, WatchEvent::ProbeSucceeded) => (WatchPhase::Watching, Vec::new()),
        (WatchPhase::Watching, WatchEvent::StreamEnded) | (
            WatchPhase::Watching,
            WatchEvent::ProbeFailed,
        ) => (
            WatchPhase::Backoff,
            vec![
                WatchCommand::DropClient,
                WatchCommand::Publish(ProfileState::Unavailable),
                WatchCommand::WaitBeforeRetry,
            ],
        ),
        (WatchPhase::Backoff, WatchEvent::RetryDelayElapsed) => (
            WatchPhase::Connecting,
            vec![WatchCommand::Connect],
        ),
        _ => (phase, Vec::new()),
    }
}

} // verus!
