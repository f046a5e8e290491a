//! What the dial's touch strip shows for a given `ProfileState`.
use crate::decision::{ProfileState, PROFILE_COUNT};
use crate::icons::{bolt, gauge, leaf, spec_bolt, spec_gauge, spec_leaf};
use vstd::prelude::*;

verus! {

/// Colour of the gauge when there is no profile to point at.
pub const DISABLED_COLOR: &'static str = "#6b7280";

const SAVER_COLOR: &'static str = "#22c55e";

const BALANCED_COLOR: &'static str = "#eab308";

const PERFORMANCE_COLOR: &'static str = "#ef4444";

const WHITE: &'static str = "#ffffff";

/// The Encoder's `setFeedback` payload: one entry per layout item, keyed
/// `name`, `left`, `gauge` and `right`.
#[derive(Debug, Clone, PartialEq, Eq)]
pub struct Feedback {
    /// Profile name shown on top.
    pub name: &'static str,
    /// Leaf hint on the left (rotate towards Power Saver).
    pub left: String,
    /// Gauge in the middle.
    pub gauge: String,
    /// Bolt hint on the right (rotate towards Performance).
    pub right: String,
}

/// Human-readable name for the profile at dial position `i`.
pub open spec fn spec_display_name(i: int) -> Seq<char> {
    if i == 0 {
        "Power Saver"@
    } else if i == 1 {
        "Balanced"@
    } else {
        "Performance"@
    }
}

/// Needle colour for dial position `i`.
pub open spec fn spec_color_for_index(i: int) -> Seq<char> {
    if i == 0 {
        "#22c55e"@
    } else if i == 1 {
        "#eab308"@
    } else {
        "#ef4444"@
    }
}

/// Whether `state` can be rendered (a known position lies in the dial order).
pub open spec fn renderable(state: ProfileState) -> bool {
    state matches ProfileState::Known(idx) ==> idx < PROFILE_COUNT
}

/// Whether rotating left from `state` does anything: not at Power Saver, and
/// there is a daemon to ask.
pub open spec fn can_go_left(state: ProfileState) -> bool {
    match state {
        ProfileState::Known(idx) => idx > 0,
        ProfileState::Unknown => true,
        ProfileState::Unavailable => false,
    }
}

/// Whether rotating right from `state` does anything: not at Performance,
/// and there is a daemon to ask.
pub open spec fn can_go_right(state: ProfileState) -> bool {
    match state {
        ProfileState::Known(idx) => idx < PROFILE_COUNT - 1,
        ProfileState::Unknown => true,
        ProfileState::Unavailable => false,
    }
}

/// Text on top of the strip for `state`.
pub open spec fn spec_feedback_name(state: ProfileState) -> Seq<char> {
    match state {
        ProfileState::Known(idx) => spec_display_name(idx as int),
        ProfileState::Unknown => "Unknown"@,
        ProfileState::Unavailable => "Unavailable"@,
    }
}

/// Gauge for `state`: a white dial with a needle in the profile's colour,
/// or an empty grey dial.
pub open spec fn spec_feedback_gauge(state: ProfileState) -> Seq<char> {
    match state {
        ProfileState::Known(idx) => spec_gauge(
            Some((idx as int, spec_color_for_index(idx as int))),
            "#ffffff"@,
        ),
        _ => spec_gauge(None, "#6b7280"@),
    }
}

impl Feedback {
    /// The feedback `self` is for `state`.
    pub open spec fn shows(&self, state: ProfileState) -> bool {
        &&& self.name@ == spec_feedback_name(state)
        &&& self.left@ == spec_leaf(can_go_left(state))
        &&& self.gauge@ == spec_feedback_gauge(state)
        &&& self.right@ == spec_bolt(can_go_right(state))
    }
}

/// Human-readable name for a known profile index (e.g. "power-saver" -> "Power Saver").
fn display_name(idx: usize) -> (name: &'static str)
    requires
        idx < PROFILE_COUNT,
    ensures
        name@ == spec_display_name(idx as int),
{
    if idx == 0 {
        "Power Saver"
    } else if idx == 1 {
        "Balanced"
    } else {
        "Performance"
    }
}

fn color_for_index(idx: usize) -> (color: &'static str)
    ensures
        color@ == spec_color_for_index(idx as int),
{
    if idx == 0 {
        SAVER_COLOR
    } else if idx == 1 {
        BALANCED_COLOR
    } else {
        PERFORMANCE_COLOR
    }
}

/// Converts a `ProfileState` into the Encoder's `setFeedback` payload.
///
/// The side icons hint at what rotating does, and dim when the dial is
/// clamped at that end (or when there's no daemon to talk to at all).
pub fn feedback_for_state(state: ProfileState) -> (feedback: Feedback)
    requires
        renderable(state),
    ensures
        feedback.shows(state),
{
    let last: usize = PROFILE_COUNT - 1;
    match state {
        ProfileState::Known(idx) => Feedback {
            name: display_name(idx),
            left: leaf(idx > 0),
            gauge: gauge(Some((idx, color_for_index(idx))), WHITE),
            right: bolt(idx < last),
        },
        // Rotating from Unknown still works (it resets to Balanced).
        ProfileState::Unknown => Feedback {
            name: "Unknown",
            left: leaf(true),
            gauge: gauge(None, DISABLED_COLOR),
            right: bolt(true),
        },
        ProfileState::Unavailable => Feedback {
            name: "Unavailable",
            left: leaf(false),
            gauge: gauge(None, DISABLED_COLOR),
            right: bolt(false),
        },
    }
}

} // verus!
