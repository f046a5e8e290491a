//! State of the dial action: the daemon client (if connected), the last
//! profile the daemon reported, and the instances on screen. Every method
//! decides what to show or request; the caller performs the I/O.
use crate::decision::{spec_step_target, step_target, ProfileState, RESET_PROFILE};
use crate::format::{feedback_for_state, renderable, Feedback};
use crate::registry::{
    registry_contains, registry_ids, registry_insert, registry_len, registry_new,
    registry_remove, registry_snapshot,
};
use dashmap::DashSet;
use vstd::prelude::*;

verus! {

/// What a dial event asks of the caller.
#[derive(Debug, Clone, Copy, PartialEq, Eq)]
pub enum DialRequest {
    /// Flash the instance's alert: there is no daemon to ask.
    ShowAlert,
    /// Ask the daemon to switch to this profile. Nothing is rendered here:
    /// the change is rendered once the daemon reports it.
    SetProfile(&'static str),
}

/// Feedback to push, and the instances to push it to.
#[derive(Debug, Clone)]
pub struct RenderAll {
    /// The feedback every instance gets.
    pub feedback: Feedback,
    /// Every tracked instance, each once.
    pub instance_ids: Vec<String>,
}

/// The dial action's shared state; `C` is the daemon client.
pub struct PowerProfileAction<C> {
    client: Option<C>,
    last_known: ProfileState,
    registry: DashSet<String>,
}

impl<C> PowerProfileAction<C> {
    /// The state the action keeps between calls: the cached state can be
    /// rendered, and finitely many instances are on screen.
    pub closed spec fn well_formed(self) -> bool {
        &&& renderable(self.last_known)
        &&& registry_ids(self.registry).finite()
    }

    /// The daemon client, if one is connected.
    pub closed spec fn client_view(self) -> Option<C> {
        self.client
    }

    /// Whether a daemon client is connected.
    pub open spec fn has_client(self) -> bool {
        self.client_view() is Some
    }

    /// The last profile state the daemon reported.
    pub closed spec fn state_view(self) -> ProfileState {
        self.last_known
    }

    /// The instances currently on screen, by id.
    pub closed spec fn on_screen(self) -> Set<Seq<char>> {
        registry_ids(self.registry)
    }

    /// A fresh action: no client, daemon unavailable, nothing on screen.
    pub fn new() -> (action: Self)
        ensures
            action.well_formed(),
            action.client_view() is None,
            action.state_view() == ProfileState::Unavailable,
            action.on_screen() == Set::<Seq<char>>::empty(),
    {
        PowerProfileAction {
            client: None,
            last_known: ProfileState::Unavailable,
            registry: registry_new(),
        }
    }

    /// Remembers that `instance_id` is on screen.
    pub fn track(&mut self, instance_id: &str)
        requires
            old(self).well_formed(),
        ensures
            final(self).well_formed(),
            final(self).on_screen() == old(self).on_screen().insert(instance_id@),
            final(self).client_view() == old(self).client_view(),
            final(self).state_view() == old(self).state_view(),
    {
        let id = instance_id.to_owned();
        registry_insert(&mut self.registry, id);
    }

    /// Forgets `instance_id`.
    pub fn untrack(&mut self, instance_id: &str)
        requires
            old(self).well_formed(),
        ensures
            final(self).well_formed(),
            final(self).on_screen() == old(self).on_screen().remove(instance_id@),
            final(self).client_view() == old(self).client_view(),
            final(self).state_view() == old(self).state_view(),
    {
        registry_remove(&mut self.registry, instance_id);
    }

    /// Whether `instance_id` is tracked.
    pub fn is_tracked(&self, instance_id: &str) -> (found: bool)
        requires
            self.well_formed(),
        ensures
            found == self.on_screen().contains(instance_id@),
    {
        registry_contains(&self.registry, instance_id)
    }

    /// How many instances are tracked.
    pub fn tracked_count(&self) -> (n: usize)
        requires
            self.well_formed(),
        ensures
            n == self.on_screen().len(),
    {
        registry_len(&self.registry)
    }

    /// The last profile state the daemon reported.
    pub fn last_known(&self) -> (state: ProfileState)
        requires
            self.well_formed(),
        ensures
            state == self.state_view(),
            renderable(state),
    {
        self.last_known
    }

    /// The daemon client, if one is connected.
    pub fn client(&self) -> (client: Option<&C>)
        ensures
            client is Some <==> self.has_client(),
            client matches Some(c) ==> self.client_view() == Some(*c),
    {
        self.client.as_ref()
    }

    /// Installs (or, with `None`, drops) the daemon client.
    pub fn set_client(&mut self, client: Option<C>)
        requires
            old(self).well_formed(),
        ensures
            final(self).well_formed(),
            final(self).client_view() == client,
            final(self).state_view() == old(self).state_view(),
            final(self).on_screen() == old(self).on_screen(),
    {
        self.client = client;
    }

    /// The feedback for the last known state, for an instance that just
    /// appeared.
    pub fn render_cached(&self) -> (feedback: Feedback)
        requires
            self.well_formed(),
        ensures
            feedback.shows(self.state_view()),
    {
        feedback_for_state(self.last_known)
    }

    /// Sets the last known state and returns the feedback for it together
    /// with every tracked instance - the single path through which a self-
    /// or externally-triggered profile change is rendered.
    pub fn set_state_and_render_all(&mut self, state: ProfileState) -> (plan: RenderAll)
        requires
            old(self).well_formed(),
            renderable(state),
        ensures
            final(self).well_formed(),
            final(self).state_view() == state,
            final(self).client_view() == old(self).client_view(),
            final(self).on_screen() == old(self).on_screen(),
            plan.feedback.shows(state),
            plan.instance_ids@.map_values(|s: String| s@).to_set() == old(self).on_screen(),
            plan.instance_ids@.map_values(|s: String| s@).no_duplicates(),
    {
        self.last_known = state;
        let feedback = feedback_for_state(state);
        let instance_ids = registry_snapshot(&self.registry);
        RenderAll { feedback, instance_ids }
    }

    /// An instance appeared: track it and render the cached state to it.
    pub fn will_appear(&mut self, instance_id: &str) -> (feedback: Feedback)
        requires
            old(self).well_formed(),
        ensures
            final(self).well_formed(),
            final(self).on_screen() == old(self).on_screen().insert(instance_id@),
            final(self).client_view() == old(self).client_view(),
            final(self).state_view() == old(self).state_view(),
            feedback.shows(old(self).state_view()),
    {
        self.track(instance_id);
        self.render_cached()
    }

    /// An instance disappeared: stop tracking it.
    pub fn will_disappear(&mut self, instance_id: &str)
        requires
            old(self).well_formed(),
        ensures
            final(self).well_formed(),
            final(self).on_screen() == old(self).on_screen().remove(instance_id@),
            final(self).client_view() == old(self).client_view(),
            final(self).state_view() == old(self).state_view(),
    {
        self.untrack(instance_id);
    }

    /// Shared by `dial_rotate` and `dial_up`: without a client there is
    /// nothing to ask, so the instance shows an alert; otherwise the target
    /// is requested.
    fn apply(&self, target: &'static str) -> (request: DialRequest)
        ensures
            request == (if self.has_client() {
                DialRequest::SetProfile(target)
            } else {
                DialRequest::ShowAlert
            }),
    {
        match &self.client {
            Some(_) => DialRequest::SetProfile(target),
            None => DialRequest::ShowAlert,
        }
    }

    /// The dial was rotated by `ticks`: one step towards Power Saver
    /// (negative) or Performance (positive), clamped at both ends.
    pub fn dial_rotate(&self, ticks: i16) -> (request: DialRequest)
        requires
            self.well_formed(),
        ensures
            match request {
                DialRequest::ShowAlert => !self.has_client(),
                DialRequest::SetProfile(target) => self.has_client() && target@
                    == spec_step_target(self.state_view(), ticks),
            },
    {
        self.apply(step_target(self.last_known, ticks))
    }

    /// The dial was pressed: jump straight to Balanced, whatever the
    /// current profile.
    pub fn dial_up(&self) -> (request: DialRequest)
        requires
            self.well_formed(),
        ensures
            match request {
                DialRequest::ShowAlert => !self.has_client(),
                DialRequest::SetProfile(target) => self.has_client() && target@ == "balanced"@,
            },
    {
        self.apply(RESET_PROFILE)
    }
}

/// After a requested profile change: a failed request shows an alert on the
/// instance that asked.
pub fn alert_after_request<E>(outcome: &Result<(), E>) -> (alert: bool)
    ensures
        alert == outcome is Err,
{
    outcome.is_err()
}

} // verus!
