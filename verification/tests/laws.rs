use opendeck_power_profile::decision::{state_for_profile, step_target, ProfileState};
use opendeck_power_profile::format::feedback_for_state;

fn is_dimmed(svg: &str) -> bool {
    svg.contains(r#"stroke-opacity="0.3""#)
}

#[test]
fn every_rotation_target_is_a_known_profile() {
    for state in [
        ProfileState::Known(0),
        ProfileState::Known(1),
        ProfileState::Known(2),
        ProfileState::Unknown,
        ProfileState::Unavailable,
    ] {
        for ticks in [-3i16, -1, 0, 1, 3] {
            assert!(matches!(state_for_profile(step_target(state, ticks)), ProfileState::Known(i) if i < 3));
        }
    }
}

#[test]
fn hints_are_lit_exactly_when_rotation_moves() {
    for idx in 0..3usize {
        let state = ProfileState::Known(idx);
        let f = feedback_for_state(state);
        let moves_left = state_for_profile(step_target(state, -1)) != state;
        let moves_right = state_for_profile(step_target(state, 1)) != state;
        assert_eq!(!is_dimmed(&f.left), moves_left);
        assert_eq!(!is_dimmed(&f.right), moves_right);
    }
}
