use crate::state::{
    admissible, initial_view, step, IoTrafficLightState, StateView, TrafficLightState, Transition,
};
use crate::types::{ActorId, TrafficLightEvent};
use crate::users::lists_entries;
use vstd::prelude::*;

verus! {

/// The single owner of the shared state. Each request borrows it for its
/// whole run: exclusively for a transition, shared for a read.
pub struct TrafficLightService {
    state: TrafficLightState,
}

impl View for TrafficLightService {
    type V = StateView;

    closed spec fn view(&self) -> StateView {
        self.state@
    }
}

impl TrafficLightService {
    pub closed spec fn wf(&self) -> bool {
        self.state.wf()
    }

    /// A service over a fresh state.
    pub fn new() -> (r: TrafficLightService)
        ensures
            r.wf(),
            r@ == initial_view(),
    {
        TrafficLightService { state: TrafficLightState::new() }
    }

    /// Puts the state back to how it is at process start.
    pub fn seed(&mut self)
        ensures
            final(self).wf(),
            final(self)@ == initial_view(),
    {
        self.state.init_state();
    }

    /// Read access to the whole state.
    pub fn state_ref(&self) -> (r: &TrafficLightState)
        requires
            self.wf(),
        ensures
            r.wf(),
            r@ == self@,
    {
        &self.state
    }

    /// Binds `alias` to `actor`; nothing else changes.
    pub fn register(&mut self, alias: String, actor: ActorId)
        requires
            old(self).wf(),
        ensures
            final(self).wf(),
            final(self)@ == (StateView {
                registry: old(self)@.registry.insert(alias@, actor),
                ..old(self)@
            }),
    {
        self.state.register(alias, actor);
    }

    /// Switches to green and adds the fixed credit to the balance.
    pub fn green(&mut self, actor: ActorId, alias: &String) -> (r: TrafficLightEvent)
        requires
            old(self).wf(),
            admissible(old(self)@, Transition::Green),
        ensures
            final(self).wf(),
            (final(self)@, r) == step(old(self)@, actor, alias@, Transition::Green),
    {
        self.state.process_event(actor, alias, Transition::Green)
    }

    /// Switches to yellow and takes a tenth off the balance, rounding the
    /// result down.
    pub fn yellow(&mut self, actor: ActorId, alias: &String) -> (r: TrafficLightEvent)
        requires
            old(self).wf(),
        ensures
            final(self).wf(),
            (final(self)@, r) == step(old(self)@, actor, alias@, Transition::Yellow),
    {
        self.state.process_event(actor, alias, Transition::Yellow)
    }

    /// Switches to red and removes the publication at `index`; an index past
    /// the end removes nothing.
    pub fn red(&mut self, actor: ActorId, alias: &String, index: usize) -> (r: TrafficLightEvent)
        requires
            old(self).wf(),
        ensures
            final(self).wf(),
            (final(self)@, r) == step(old(self)@, actor, alias@, Transition::Red(index)),
    {
        self.state.process_event(actor, alias, Transition::Red(index))
    }

    /// Switches to orange and appends `content` to the publications.
    pub fn orange(&mut self, actor: ActorId, alias: &String, content: String) -> (r:
        TrafficLightEvent)
        requires
            old(self).wf(),
        ensures
            final(self).wf(),
            (final(self)@, r) == step(old(self)@, actor, alias@, Transition::Orange(content)),
    {
        self.state.process_event(actor, alias, Transition::Orange(content))
    }

    /// A snapshot of the light, of each caller's colour and of the balance.
    pub fn traffic_light(&self) -> (r: IoTrafficLightState)
        ensures
            r.current_light == self@.current_light,
            lists_entries(r.all_users@, self@.users),
            r.balance == self@.balance,
    {
        IoTrafficLightState::from_state(&self.state)
    }
}

} // verus!
