use opendeck_power_profile::decision::ProfileState;
use opendeck_power_profile::watch::{liveness_probe_secs, retry_delay_secs, watch_start, watch_step, WatchCommand, WatchEvent, WatchPhase};

#[test]
fn a_healthy_session_seeds_then_follows_changes() {
    let (phase, cmds) = watch_start();
    assert_eq!(phase, WatchPhase::Connecting);
    assert_eq!(cmds, vec![WatchCommand::Connect]);

    let (phase, cmds) = watch_step(phase, &WatchEvent::Connected);
    assert_eq!(phase, WatchPhase::Seeding);
    assert_eq!(cmds, vec![WatchCommand::ReadActiveProfile]);

    let (phase, cmds) = watch_step(phase, &WatchEvent::InitialProfile("balanced".to_string()));
    assert_eq!(phase, WatchPhase::Watching);
    assert_eq!(
        cmds,
        vec![WatchCommand::Publish(ProfileState::Known(1)), WatchCommand::StartWatching]
    );

    let (phase, cmds) = watch_step(phase, &WatchEvent::ProfileChanged("performance".to_string()));
    assert_eq!(phase, WatchPhase::Watching);
    assert_eq!(cmds, vec![WatchCommand::Publish(ProfileState::Known(2))]);

    let (phase, cmds) = watch_step(phase, &WatchEvent::ProfileChanged("custom".to_string()));
    assert_eq!(phase, WatchPhase::Watching);
    assert_eq!(cmds, vec![WatchCommand::Publish(ProfileState::Unknown)]);

    let (phase, cmds) = watch_step(phase, &WatchEvent::ProbeSucceeded);
    assert_eq!(phase, WatchPhase::Watching);
    assert!(cmds.is_empty());
}

#[test]
fn a_failed_connect_shows_unavailable_and_retries() {
    let (phase, cmds) = watch_step(WatchPhase::Connecting, &WatchEvent::ConnectFailed);
    assert_eq!(phase, WatchPhase::Backoff);
    assert_eq!(
        cmds,
        vec![WatchCommand::Publish(ProfileState::Unavailable), WatchCommand::WaitBeforeRetry]
    );
    let (phase, cmds) = watch_step(phase, &WatchEvent::RetryDelayElapsed);
    assert_eq!(phase, WatchPhase::Connecting);
    assert_eq!(cmds, vec![WatchCommand::Connect]);
}

#[test]
fn a_failed_initial_read_shows_unavailable_but_keeps_watching() {
    let (phase, cmds) = watch_step(WatchPhase::Seeding, &WatchEvent::InitialProfileFailed);
    assert_eq!(phase, WatchPhase::Watching);
    assert_eq!(
        cmds,
        vec![WatchCommand::Publish(ProfileState::Unavailable), WatchCommand::StartWatching]
    );
}

#[test]
fn losing_the_daemon_drops_the_client_and_shows_unavailable() {
    for event in [WatchEvent::StreamEnded, WatchEvent::ProbeFailed] {
        let (phase, cmds) = watch_step(WatchPhase::Watching, &event);
        assert_eq!(phase, WatchPhase::Backoff);
        assert_eq!(
            cmds,
            vec![
                WatchCommand::DropClient,
                WatchCommand::Publish(ProfileState::Unavailable),
                WatchCommand::WaitBeforeRetry,
            ]
        );
    }
}

#[test]
fn events_out_of_place_change_nothing() {
    let (phase, cmds) = watch_step(WatchPhase::Backoff, &WatchEvent::ProfileChanged("balanced".into()));
    assert_eq!(phase, WatchPhase::Backoff);
    assert!(cmds.is_empty());
    let (phase, cmds) = watch_step(WatchPhase::Connecting, &WatchEvent::ProbeFailed);
    assert_eq!(phase, WatchPhase::Connecting);
    assert!(cmds.is_empty());
}

#[test]
fn retry_and_probe_intervals() {
    assert_eq!(retry_delay_secs(), 5);
    assert_eq!(liveness_probe_secs(), 30);
}
