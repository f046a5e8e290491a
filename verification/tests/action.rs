use opendeck_power_profile::action::{alert_after_request, DialRequest, PowerProfileAction};
use opendeck_power_profile::decision::ProfileState;
use opendeck_power_profile::format::feedback_for_state;

#[test]
fn track_then_untrack_round_trips_through_the_registry() {
    let mut action: PowerProfileAction<()> = PowerProfileAction::new();
    action.track("ctx1");
    assert!(action.is_tracked("ctx1"));

    action.untrack("ctx1");
    assert!(!action.is_tracked("ctx1"));
}

#[test]
fn tracking_the_same_instance_twice_is_idempotent() {
    let mut action: PowerProfileAction<()> = PowerProfileAction::new();
    action.track("ctx1");
    action.track("ctx1");
    assert_eq!(action.tracked_count(), 1);
}

#[test]
fn a_new_action_has_no_client_and_shows_unavailable() {
    let action: PowerProfileAction<()> = PowerProfileAction::new();
    assert_eq!(action.last_known(), ProfileState::Unavailable);
    assert!(action.client().is_none());
    assert_eq!(action.tracked_count(), 0);
    assert_eq!(action.render_cached(), feedback_for_state(ProfileState::Unavailable));
}

#[test]
fn dial_events_without_a_client_show_an_alert() {
    let mut action: PowerProfileAction<()> = PowerProfileAction::new();
    action.set_state_and_render_all(ProfileState::Known(1));
    assert_eq!(action.dial_rotate(1), DialRequest::ShowAlert);
    assert_eq!(action.dial_up(), DialRequest::ShowAlert);
}

#[test]
fn rotation_requests_the_neighbouring_profile() {
    let mut action: PowerProfileAction<u32> = PowerProfileAction::new();
    action.set_client(Some(7));
    assert_eq!(action.client(), Some(&7));
    action.set_state_and_render_all(ProfileState::Known(0));
    assert_eq!(action.dial_rotate(2), DialRequest::SetProfile("balanced"));
    assert_eq!(action.dial_rotate(-1), DialRequest::SetProfile("power-saver"));
    action.set_state_and_render_all(ProfileState::Unknown);
    assert_eq!(action.dial_rotate(-1), DialRequest::SetProfile("balanced"));
}

#[test]
fn pressing_jumps_to_balanced_from_any_profile() {
    let mut action: PowerProfileAction<u32> = PowerProfileAction::new();
    action.set_client(Some(1));
    for state in [
        ProfileState::Known(0),
        ProfileState::Known(2),
        ProfileState::Unknown,
        ProfileState::Unavailable,
    ] {
        action.set_state_and_render_all(state);
        assert_eq!(action.dial_up(), DialRequest::SetProfile("balanced"));
    }
    action.set_client(None);
    assert_eq!(action.dial_up(), DialRequest::ShowAlert);
}

#[test]
fn render_all_reaches_every_tracked_instance_once() {
    let mut action: PowerProfileAction<()> = PowerProfileAction::new();
    action.will_appear("a");
    action.will_appear("b");
    action.will_appear("a");
    action.will_appear("c");
    action.will_disappear("b");
    let plan = action.set_state_and_render_all(ProfileState::Known(2));
    let mut ids = plan.instance_ids.clone();
    ids.sort();
    assert_eq!(ids, vec!["a".to_string(), "c".to_string()]);
    assert_eq!(plan.feedback, feedback_for_state(ProfileState::Known(2)));
    assert_eq!(action.last_known(), ProfileState::Known(2));
}

#[test]
fn an_appearing_instance_gets_the_cached_state() {
    let mut action: PowerProfileAction<()> = PowerProfileAction::new();
    action.set_state_and_render_all(ProfileState::Known(0));
    let f = action.will_appear("x");
    assert_eq!(f.name, "Power Saver");
    assert!(action.is_tracked("x"));
}

#[test]
fn untracking_an_unknown_instance_changes_nothing() {
    let mut action: PowerProfileAction<()> = PowerProfileAction::new();
    action.track("a");
    action.untrack("zzz");
    assert_eq!(action.tracked_count(), 1);
    assert!(action.is_tracked("a"));
}

#[test]
fn a_failed_request_shows_an_alert() {
    assert!(alert_after_request::<&str>(&Err("bus gone")));
    assert!(!alert_after_request::<&str>(&Ok(())));
}
