use opendeck_power_profile::decision::ProfileState;
use opendeck_power_profile::format::{feedback_for_state, DISABLED_COLOR};
use opendeck_power_profile::icons::{bolt, gauge, leaf};

fn is_dimmed(svg: &str) -> bool {
    svg.contains(r#"stroke-opacity="0.3""#)
}

#[test]
fn known_profiles_render_their_display_name_and_colored_needle() {
    let f = feedback_for_state(ProfileState::Known(0));
    assert_eq!(f.name, "Power Saver");
    assert!(f.gauge.contains("#22c55e"));

    let f = feedback_for_state(ProfileState::Known(1));
    assert_eq!(f.name, "Balanced");
    assert!(f.gauge.contains("#eab308"));

    let f = feedback_for_state(ProfileState::Known(2));
    assert_eq!(f.name, "Performance");
    assert!(f.gauge.contains("#ef4444"));
}

#[test]
fn side_icons_dim_at_the_clamped_ends() {
    let saver = feedback_for_state(ProfileState::Known(0));
    assert!(is_dimmed(&saver.left) && !is_dimmed(&saver.right));

    let balanced = feedback_for_state(ProfileState::Known(1));
    assert!(!is_dimmed(&balanced.left) && !is_dimmed(&balanced.right));

    let performance = feedback_for_state(ProfileState::Known(2));
    assert!(!is_dimmed(&performance.left) && is_dimmed(&performance.right));
}

#[test]
fn unknown_state_renders_a_needleless_gauge_but_stays_rotatable() {
    let f = feedback_for_state(ProfileState::Unknown);
    assert_eq!(f.name, "Unknown");
    assert!(f.gauge.contains(DISABLED_COLOR));
    assert!(!is_dimmed(&f.left) && !is_dimmed(&f.right));
}

#[test]
fn unavailable_state_renders_a_needleless_gauge_and_dims_both_sides() {
    let f = feedback_for_state(ProfileState::Unavailable);
    assert_eq!(f.name, "Unavailable");
    assert!(f.gauge.contains(DISABLED_COLOR));
    assert!(is_dimmed(&f.left) && is_dimmed(&f.right));
}

#[test]
fn feedback_is_assembled_from_the_icons() {
    let f = feedback_for_state(ProfileState::Known(1));
    assert_eq!(f.left, leaf(true));
    assert_eq!(f.right, bolt(true));
    assert_eq!(f.gauge, gauge(Some((1, "#eab308")), "#ffffff"));

    let f = feedback_for_state(ProfileState::Unknown);
    assert_eq!(f.gauge, gauge(None, DISABLED_COLOR));
    assert!(!f.gauge.contains("circle"));
}
