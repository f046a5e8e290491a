//! Pure profile-stepping logic: which profile a dial event asks for.
use vstd::prelude::*;

verus! {

/// How many profiles power-profiles-daemon exposes, in dial order.
pub const PROFILE_COUNT: usize = 3;

/// The profile a dial press (or a rotation from an unknown state) asks for.
pub const RESET_PROFILE: &'static str = "balanced";

/// What the plugin knows about the daemon's active profile.
#[derive(Debug, Clone, Copy, PartialEq, Eq, Structural)]
pub enum ProfileState {
    /// The active profile is the one at this position in the dial order.
    Known(usize),
    /// The daemon answered with a profile name outside the dial order.
    Unknown,
    /// The daemon cannot be reached.
    Unavailable,
}

/// Name of the profile at position `i` of the dial order
/// (power-saver, balanced, performance).
pub open spec fn spec_profile_name(i: int) -> Seq<char> {
    if i == 0 {
        "power-saver"@
    } else if i == 1 {
        "balanced"@
    } else {
        "performance"@
    }
}

/// Position of `name` in the dial order, if it is one of the three profiles.
pub open spec fn spec_profile_index(name: Seq<char>) -> Option<usize> {
    if name == spec_profile_name(0) {
        Some(0usize)
    } else if name == spec_profile_name(1) {
        Some(1usize)
    } else if name == spec_profile_name(2) {
        Some(2usize)
    } else {
        None
    }
}

/// The state a freshly read profile name puts the dial in.
pub open spec fn spec_state_for_profile(name: Seq<char>) -> ProfileState {
    match spec_profile_index(name) {
        Some(i) => ProfileState::Known(i),
        None => ProfileState::Unknown,
    }
}

/// `idx` reinterpreted as a signed machine integer (two's complement).
pub open spec fn signed_index(idx: usize) -> int {
    if idx <= isize::MAX {
        idx as int
    } else {
        idx as int - (usize::MAX as int + 1)
    }
}

/// Sign of a rotation: one step per event, whatever its magnitude.
pub open spec fn tick_sign(ticks: i16) -> int {
    if ticks > 0 {
        1
    } else if ticks < 0 {
        -1
    } else {
        0
    }
}

/// `v` clamped into `lo..=hi`.
pub open spec fn clamp(v: int, lo: int, hi: int) -> int {
    if v < lo {
        lo
    } else if v > hi {
        hi
    } else {
        v
    }
}

/// Whether a rotation of `ticks` from position `idx` can be computed in
/// machine integers (the step itself must not overflow `isize`).
pub open spec fn step_in_range(idx: usize, ticks: i16) -> bool {
    isize::MIN <= signed_index(idx) + tick_sign(ticks) <= isize::MAX
}

/// Position reached by one rotation step from `idx`, clamped at both ends.
pub open spec fn step_index(idx: usize, ticks: i16) -> int {
    clamp(signed_index(idx) + tick_sign(ticks), 0, PROFILE_COUNT - 1)
}

/// Whether `state` may be handed to the stepping logic.
pub open spec fn step_allowed(state: ProfileState, ticks: i16) -> bool {
    match state {
        ProfileState::Known(idx) => step_in_range(idx, ticks),
        _ => true,
    }
}

/// Name of the profile a rotation of `ticks` asks for from `state`.
pub open spec fn spec_step_target(state: ProfileState, ticks: i16) -> Seq<char> {
    match state {
        ProfileState::Known(idx) => spec_profile_name(step_index(idx, ticks)),
        _ => spec_profile_name(1),
    }
}

/// Name of the profile at position `idx` of the dial order.
pub fn profile_name(idx: usize) -> (name: &'static str)
    requires
        idx < PROFILE_COUNT,
    ensures
        name@ == spec_profile_name(idx as int),
{
    if idx == 0 {
        "power-saver"
    } else if idx == 1 {
        "balanced"
    } else {
        "performance"
    }
}

fn same_text(a: &str, b: &str) -> (same: bool)
    ensures
        same == (a@ == b@),
{
    a.to_owned() == b.to_owned()
}

/// Index of `name` within the dial order, or `None` if it isn't one of the
/// three profiles power-profiles-daemon actually exposes.
pub fn profile_index(name: &str) -> (res: Option<usize>)
    ensures
        res == spec_profile_index(name@),
{
    let mut i: usize = 0;
    while i < PROFILE_COUNT
        invariant
            i <= PROFILE_COUNT,
            forall|j: int| 0 <= j < i ==> name@ != spec_profile_name(j),
        decreases PROFILE_COUNT - i,
    {
        if same_text(profile_name(i), name) {
            return Some(i);
        }
        i = i + 1;
    }
    None
}

/// Classifies a freshly read `ActiveProfile` string into a `ProfileState`.
pub fn state_for_profile(name: &str) -> (state: ProfileState)
    ensures
        state == spec_state_for_profile(name@),
{
    match profile_index(name) {
        Some(idx) => ProfileState::Known(idx),
        None => ProfileState::Unknown,
    }
}

/// The profile to request after a dial rotation of `ticks` (sign only
/// matters - one step per event, clamped at both ends). From `Unknown` or
/// `Unavailable`, falls back to `RESET_PROFILE` rather than guessing a
/// position.
pub fn step_target(state: ProfileState, ticks: i16) -> (target: &'static str)
    requires
        step_allowed(state, ticks),
    ensures
        target@ == spec_step_target(state, ticks),
{
    match state {
        ProfileState::Known(idx) => {
            let last: usize = PROFILE_COUNT - 1;
            let new_idx: usize = if idx > isize::MAX as usize {
                // Read as a signed index this position is negative, so the
                // step lands at or below zero and clamps to the first profile.
                0
            } else if ticks > 0 {
                if idx >= last {
                    last
                } else {
                    idx + 1
                }
            } else if ticks < 0 {
                if idx == 0 {
                    0
                } else if idx - 1 > last {
                    last
                } else {
                    idx - 1
                }
            } else if idx > last {
                last
            } else {
                idx
            };
            profile_name(new_idx)
        },
        ProfileState::Unknown | ProfileState::Unavailable => RESET_PROFILE,
    }
}

} // verus!
