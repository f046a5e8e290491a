//! Properties of the library as a whole, stated over the specifications the
//! functions' contracts use.
use crate::decision::{
    spec_profile_index, spec_profile_name, spec_state_for_profile, spec_step_target, step_index,
    ProfileState, PROFILE_COUNT,
};
use crate::format::{can_go_left, can_go_right, renderable, Feedback};
use crate::icons::{spec_bolt, spec_gauge, spec_leaf};
use crate::watch::{spec_watch_step, WatchCommand, WatchEvent, WatchPhase};
use vstd::prelude::*;

verus! {

/// The three profile names are distinct, so each is found at its own
/// position, and a name found at a position is the name at that position.
pub proof fn lemma_profile_names_round_trip(i: int, name: Seq<char>)
    requires
        0 <= i < PROFILE_COUNT,
    ensures
        spec_profile_index(spec_profile_name(i)) == Some(i as usize),
        spec_profile_index(name) matches Some(j) ==> j < PROFILE_COUNT && name
            == spec_profile_name(j as int),
{
    reveal_strlit("power-saver");
    reveal_strlit("balanced");
    reveal_strlit("performance");
    assert(spec_profile_name(0).len() == 11 && spec_profile_name(1).len() == 8);
    assert(spec_profile_name(0)[1] == 'o' && spec_profile_name(2)[1] == 'e');
    assert(spec_profile_name(1) != spec_profile_name(2));
}

/// Rotating moves one profile at a time in the direction of the rotation,
/// whatever the number of ticks, and is clamped at both ends: it never wraps
/// around from Performance to Power Saver or back.
pub proof fn lemma_rotation_is_one_clamped_step(idx: usize, ticks: i16)
    requires
        idx < PROFILE_COUNT,
    ensures
        0 <= step_index(idx, ticks) < PROFILE_COUNT,
        ticks > 0 ==> step_index(idx, ticks) == if idx + 1 < PROFILE_COUNT {
            idx + 1
        } else {
            idx as int
        },
        ticks < 0 ==> step_index(idx, ticks) == if idx > 0 {
            idx - 1
        } else {
            idx as int
        },
        ticks == 0 ==> step_index(idx, ticks) == idx,
{
}

/// Whatever the state, a rotation asks for one of the three profiles the
/// daemon exposes: from a known position the neighbouring one (clamped),
/// otherwise Balanced.
pub proof fn lemma_rotation_targets_a_profile(state: ProfileState, ticks: i16)
    requires
        state matches ProfileState::Known(idx) ==> idx < PROFILE_COUNT,
    ensures
        spec_state_for_profile(spec_step_target(state, ticks)) == match state {
            ProfileState::Known(idx) => ProfileState::Known(step_index(idx, ticks) as usize),
            _ => ProfileState::Known(1),
        },
{
    match state {
        ProfileState::Known(idx) => {
            lemma_rotation_is_one_clamped_step(idx, ticks);
            lemma_profile_names_round_trip(step_index(idx, ticks), Seq::empty());
        },
        _ => {
            lemma_profile_names_round_trip(1, Seq::empty());
        },
    }
}

/// A side hint is lit exactly when rotating that way changes the profile:
/// at a known position it dims at the clamped end; with no daemon both dim;
/// from an unknown profile both stay lit, since rotating resets to Balanced.
pub proof fn lemma_hints_follow_rotation(state: ProfileState)
    requires
        state matches ProfileState::Known(idx) ==> idx < PROFILE_COUNT,
    ensures
        state matches ProfileState::Known(idx) ==> (can_go_left(state) <==> step_index(idx, -1i16)
            != idx) && (can_go_right(state) <==> step_index(idx, 1i16) != idx),
        state == ProfileState::Unavailable ==> !can_go_left(state) && !can_go_right(state),
        state == ProfileState::Unknown ==> can_go_left(state) && can_go_right(state),
{
}

/// Whatever path renders a state - a newly appearing instance, a change this
/// plugin asked for, or one made elsewhere - the strip shows the same thing
/// for the same state.
pub proof fn lemma_feedback_determined_by_state(a: Feedback, b: Feedback, state: ProfileState)
    requires
        a.shows(state),
        b.shows(state),
    ensures
        a.name@ == b.name@,
        a.left@ == b.left@,
        a.gauge@ == b.gauge@,
        a.right@ == b.right@,
{
}

/// Forgetting an instance undoes tracking it, and tracking an instance twice
/// tracks it once.
pub proof fn lemma_track_untrack(on_screen: Set<Seq<char>>, id: Seq<char>)
    requires
        on_screen.finite(),
    ensures
        !on_screen.contains(id) ==> on_screen.insert(id).remove(id) == on_screen,
        on_screen.insert(id).insert(id) == on_screen.insert(id),
        !on_screen.contains(id) ==> on_screen.insert(id).len() == on_screen.len() + 1,
{
    assert(!on_screen.contains(id) ==> on_screen.insert(id).remove(id) =~= on_screen);
    assert(on_screen.insert(id).insert(id) =~= on_screen.insert(id));
}

/// Whenever the daemon cannot be reached - the connection fails, the change
/// stream ends or a liveness probe fails - the dial shows "Unavailable" and
/// a retry is scheduled; and once the delay has passed, a new connection is
/// attempted.
pub proof fn lemma_failures_show_unavailable_and_retry(phase: WatchPhase, event: WatchEvent)
    ensures
        ({
            let (next, commands) = spec_watch_step(phase, event);
            (phase == WatchPhase::Connecting && event == WatchEvent::ConnectFailed) || (phase
                == WatchPhase::Watching && (event == WatchEvent::StreamEnded || event
                == WatchEvent::ProbeFailed)) ==> {
                &&& next == WatchPhase::Backoff
                &&& commands.contains(WatchCommand::Publish(ProfileState::Unavailable))
                &&& commands.last() == WatchCommand::WaitBeforeRetry
            }
        }),
        phase == WatchPhase::Backoff && event == WatchEvent::RetryDelayElapsed ==> spec_watch_step(
            phase,
            event,
        ) == (WatchPhase::Connecting, seq![WatchCommand::Connect]),
{
    let (next, commands) = spec_watch_step(phase, event);
    if phase == WatchPhase::Connecting && event == WatchEvent::ConnectFailed {
        assert(commands[0] == WatchCommand::Publish(ProfileState::Unavailable));
    }
    if phase == WatchPhase::Watching && (event == WatchEvent::StreamEnded || event
        == WatchEvent::ProbeFailed) {
        assert(commands[1] == WatchCommand::Publish(ProfileState::Unavailable));
    }
}

/// Leaving the watch always takes the client away from the action before
/// "Unavailable" is shown, so a dial event after that shows an alert rather
/// than talking to a dead connection.
pub proof fn lemma_client_dropped_before_unavailable(event: WatchEvent)
    requires
        event == WatchEvent::StreamEnded || event == WatchEvent::ProbeFailed,
    ensures
        spec_watch_step(WatchPhase::Watching, event).1[0] == WatchCommand::DropClient,
{
}

/// A profile name read from the daemon - the first read after connecting, or
/// any later change, whoever made it - is published as the state it names:
/// "power-saver", "balanced" and "performance" as their own positions 0, 1
/// and 2, any other text as Unknown. Seeding then starts the watch; a change
/// publishes nothing else.
pub proof fn lemma_read_profiles_are_published(name: String)
    ensures
        ({
            let (next, cmds) = spec_watch_step(WatchPhase::Seeding, WatchEvent::InitialProfile(name));
            &&& next == WatchPhase::Watching
            &&& cmds.len() == 2
            &&& cmds[1] == WatchCommand::StartWatching
            &&& name@ == "power-saver"@ ==> cmds[0] == WatchCommand::Publish(ProfileState::Known(0))
            &&& name@ == "balanced"@ ==> cmds[0] == WatchCommand::Publish(ProfileState::Known(1))
            &&& name@ == "performance"@ ==> cmds[0] == WatchCommand::Publish(ProfileState::Known(2))
            &&& name@ != "power-saver"@ && name@ != "balanced"@ && name@ != "performance"@
                ==> cmds[0] == WatchCommand::Publish(ProfileState::Unknown)
        }),
        ({
            let (next, cmds) = spec_watch_step(WatchPhase::Watching, WatchEvent::ProfileChanged(name));
            &&& next == WatchPhase::Watching
            &&& cmds.len() == 1
            &&& name@ == "power-saver"@ ==> cmds[0] == WatchCommand::Publish(ProfileState::Known(0))
            &&& name@ == "balanced"@ ==> cmds[0] == WatchCommand::Publish(ProfileState::Known(1))
            &&& name@ == "performance"@ ==> cmds[0] == WatchCommand::Publish(ProfileState::Known(2))
            &&& name@ != "power-saver"@ && name@ != "balanced"@ && name@ != "performance"@
                ==> cmds[0] == WatchCommand::Publish(ProfileState::Unknown)
        }),
        spec_watch_step(WatchPhase::Seeding, WatchEvent::InitialProfile(name)).1[0]
            == spec_watch_step(WatchPhase::Watching, WatchEvent::ProfileChanged(name)).1[0],
{
    lemma_profile_names_round_trip(0, name@);
    lemma_profile_names_round_trip(1, name@);
    lemma_profile_names_round_trip(2, name@);
}

/// The side hints are always the leaf (left) and the bolt (right): the same
/// markup whether lit or not, except for the stroke opacity, which is "1"
/// when lit and "0.3" when dimmed.
pub proof fn lemma_side_icons_differ_only_in_opacity(enabled: bool)
    ensures
        spec_leaf(enabled) == "<svg xmlns=\"http://www.w3.org/2000/svg\" viewBox=\"0 0 24 24\" fill=\"none\" stroke=\"#ffffff\" stroke-width=\"2\" stroke-linecap=\"round\" stroke-linejoin=\"round\" stroke-opacity=\""@
            + (if enabled { "1"@ } else { "0.3"@ }) + "\">"@
            + "<path d=\"M5 19C5 10 10 5 20 4C20 14 15 19 5 19Z\"/><path d=\"M5 19L13 11\"/>"@
            + "</svg>"@,
        spec_bolt(enabled) == "<svg xmlns=\"http://www.w3.org/2000/svg\" viewBox=\"0 0 24 24\" fill=\"none\" stroke=\"#ffffff\" stroke-width=\"2\" stroke-linecap=\"round\" stroke-linejoin=\"round\" stroke-opacity=\""@
            + (if enabled { "1"@ } else { "0.3"@ }) + "\">"@
            + "<path d=\"M13 2L4 14H11L10 22L20 10H13Z\"/>"@ + "</svg>"@,
{
}

/// The gauge's needle for profile position `i` runs from the hub at (12, 16)
/// to the tip for that position - Power Saver up-left (5.94, 12.5), Balanced
/// straight up (12, 9), Performance up-right (18.06, 12.5) - and a gauge
/// without a needle is the bare dial.
pub proof fn lemma_gauge_needle_points_at_position(i: int, color: Seq<char>, dial: Seq<char>)
    requires
        0 <= i < PROFILE_COUNT,
    ensures
        ({
            let (x, y) = if i == 0 {
                ("5.94"@, "12.5"@)
            } else if i == 1 {
                ("12"@, "9"@)
            } else {
                ("18.06"@, "12.5"@)
            };
            spec_gauge(Some((i, color)), dial) == "<svg xmlns=\"http://www.w3.org/2000/svg\" viewBox=\"0 0 24 24\" fill=\"none\" stroke=\"#ffffff\" stroke-width=\"2\" stroke-linecap=\"round\" stroke-linejoin=\"round\" stroke-opacity=\""@
                + "1"@ + "\">"@ + (("<path d=\"M2.6 19.42A10 10 0 1 1 21.4 19.42\" stroke=\""@ + dial
                + "\"/>"@) + ("<path d=\"M12 16L"@ + x + " "@ + y + "\" stroke=\""@ + color
                + "\"/><circle cx=\"12\" cy=\"16\" r=\"1.5\" fill=\""@ + color + "\" stroke=\""@
                + color + "\"/>"@)) + "</svg>"@
        }),
        spec_gauge(None, dial) == "<svg xmlns=\"http://www.w3.org/2000/svg\" viewBox=\"0 0 24 24\" fill=\"none\" stroke=\"#ffffff\" stroke-width=\"2\" stroke-linecap=\"round\" stroke-linejoin=\"round\" stroke-opacity=\""@
            + "1"@ + "\">"@ + ("<path d=\"M2.6 19.42A10 10 0 1 1 21.4 19.42\" stroke=\""@ + dial
            + "\"/>"@) + "</svg>"@,
{
    let d = "<path d=\"M2.6 19.42A10 10 0 1 1 21.4 19.42\" stroke=\""@ + dial + "\"/>"@;
    assert(d + Seq::<char>::empty() =~= d);
}

/// The strip's gauge for a known profile is a white dial whose needle points
/// at that profile's own position, drawn in its colour (Power Saver green,
/// Balanced amber, Performance red); for an unknown profile or no daemon it
/// is the needleless grey dial.
pub proof fn lemma_feedback_gauge_points_at_active_profile(f: Feedback, state: ProfileState)
    requires
        renderable(state),
        f.shows(state),
    ensures
        state == ProfileState::Known(0) ==> f.gauge@ == spec_gauge(Some((0, "#22c55e"@)), "#ffffff"@),
        state == ProfileState::Known(1) ==> f.gauge@ == spec_gauge(Some((1, "#eab308"@)), "#ffffff"@),
        state == ProfileState::Known(2) ==> f.gauge@ == spec_gauge(Some((2, "#ef4444"@)), "#ffffff"@),
        state == ProfileState::Unknown || state == ProfileState::Unavailable ==> f.gauge@
            == spec_gauge(None, "#6b7280"@),
{
}

/// What the strip says for each state: the profile's display name with the
/// leaf dimmed only at Power Saver and the bolt dimmed only at Performance;
/// "Unknown" with both hints lit (rotating resets to Balanced); and
/// "Unavailable" with both hints dimmed.
pub proof fn lemma_feedback_names_and_hints(f: Feedback, state: ProfileState)
    requires
        renderable(state),
        f.shows(state),
    ensures
        state == ProfileState::Known(0) ==> f.name@ == "Power Saver"@ && f.left@ == spec_leaf(false)
            && f.right@ == spec_bolt(true),
        state == ProfileState::Known(1) ==> f.name@ == "Balanced"@ && f.left@ == spec_leaf(true)
            && f.right@ == spec_bolt(true),
        state == ProfileState::Known(2) ==> f.name@ == "Performance"@ && f.left@ == spec_leaf(true)
            && f.right@ == spec_bolt(false),
        state == ProfileState::Unknown ==> f.name@ == "Unknown"@ && f.left@ == spec_leaf(true)
            && f.right@ == spec_bolt(true),
        state == ProfileState::Unavailable ==> f.name@ == "Unavailable"@ && f.left@ == spec_leaf(
            false,
        ) && f.right@ == spec_bolt(false),
{
}

} // verus!
