use crate::identity::{check_outcome, IdentityGate};
use crate::types::{ActorId, LightColor, TrafficLightEvent};
use crate::users::{lists_entries, users_of, UserTable};
use vstd::prelude::*;

verus! {

/// The fixed amount that a green transition adds to the balance.
pub const GREEN_CREDIT: u64 = 100;

/// The balance after a yellow transition: nine tenths, rounded down.
pub open spec fn reduced_balance(b: nat) -> nat {
    (b * 9) / 10
}

/// The publications after a red transition: the entry at `index` goes if
/// there is one, else nothing changes.
pub open spec fn without_index(p: Seq<String>, index: int) -> Seq<String> {
    if 0 <= index < p.len() {
        p.remove(index)
    } else {
        p
    }
}

/// One of the four transitions, with what it needs beyond the caller.
pub enum Transition {
    Green,
    Yellow,
    /// Removes the publication at this position, if there is one.
    Red(usize),
    /// Appends this publication.
    Orange(String),
}

impl Transition {
    pub open spec fn spec_color(&self) -> LightColor {
        match self {
            Transition::Green => LightColor::Green,
            Transition::Yellow => LightColor::Yellow,
            Transition::Red(_) => LightColor::Red,
            Transition::Orange(_) => LightColor::Orange,
        }
    }

    /// The colour that the transition sets.
    pub fn color(&self) -> (r: LightColor)
        ensures
            r == self.spec_color(),
    {
        match self {
            Transition::Green => LightColor::Green,
            Transition::Yellow => LightColor::Yellow,
            Transition::Red(_) => LightColor::Red,
            Transition::Orange(_) => LightColor::Orange,
        }
    }
}

/// The shared state seen as mathematical values.
pub struct StateView {
    pub current_light: Option<LightColor>,
    pub users: Map<ActorId, LightColor>,
    pub balance: nat,
    pub publications: Seq<String>,
    pub registry: Map<Seq<char>, ActorId>,
}

/// The state at process start: no light, no users, nothing counted or
/// published, no alias registered.
pub open spec fn initial_view() -> StateView {
    StateView {
        current_light: None,
        users: Map::empty(),
        balance: 0,
        publications: Seq::empty(),
        registry: Map::empty(),
    }
}

/// What the colour-specific part of a transition does to the state.
pub open spec fn effect(s: StateView, t: Transition) -> StateView {
    match t {
        Transition::Green => StateView { balance: s.balance + GREEN_CREDIT as nat, ..s },
        Transition::Yellow => StateView { balance: reduced_balance(s.balance), ..s },
        Transition::Red(index) => StateView {
            publications: without_index(s.publications, index as int),
            ..s
        },
        Transition::Orange(content) => StateView {
            publications: s.publications.push(content),
            ..s
        },
    }
}

/// One request: `actor`, claiming `alias`, asks for transition `t`. A caller
/// that the registry refuses changes nothing and gets the refusal back;
/// otherwise the light and the caller's entry take the new colour, the
/// colour-specific effect follows and the colour's event is returned.
pub open spec fn step(s: StateView, actor: ActorId, alias: Seq<char>, t: Transition) -> (
    StateView,
    TrafficLightEvent,
) {
    match check_outcome(s.registry, actor, alias) {
        Err(e) => (s, TrafficLightEvent::Error(e)),
        Ok(_) => {
            let c = t.spec_color();
            let lit = StateView { current_light: Some(c), users: s.users.insert(actor, c), ..s };
            (effect(lit, t), TrafficLightEvent::spec_of_color(c))
        },
    }
}

/// Whether a request may be made in state `s`: a green transition must
/// leave the balance within its 64 bits.
pub open spec fn admissible(s: StateView, t: Transition) -> bool {
    t is Green ==> s.balance + GREEN_CREDIT <= u64::MAX
}

/// The light, the callers' colours, the balance, the publications and the
/// alias registry.
pub struct TrafficLightState {
    pub current_light: Option<LightColor>,
    pub all_users: UserTable,
    pub balance: u64,
    pub publications: Vec<String>,
    pub identity: IdentityGate,
}

impl View for TrafficLightState {
    type V = StateView;

    open spec fn view(&self) -> StateView {
        StateView {
            current_light: self.current_light,
            users: users_of(self.all_users),
            balance: self.balance as nat,
            publications: self.publications@,
            registry: self.identity@,
        }
    }
}

impl TrafficLightState {
    pub open spec fn wf(&self) -> bool {
        self.identity.wf()
    }

    /// A fresh state with every field empty.
    pub fn new() -> (r: TrafficLightState)
        ensures
            r.wf(),
            r@ == initial_view(),
    {
        let r = TrafficLightState {
            current_light: None,
            all_users: UserTable::new(),
            balance: 0,
            publications: Vec::new(),
            identity: IdentityGate::new(),
        };
        assert(r@.publications =~= Seq::<String>::empty());
        r
    }

    /// Puts the state back to how it is at process start.
    pub fn init_state(&mut self)
        ensures
            final(self).wf(),
            final(self)@ == initial_view(),
    {
        *self = TrafficLightState::new();
    }

    /// Binds `alias` to `actor` in the registry; nothing else changes.
    pub fn register(&mut self, alias: String, actor: ActorId)
        requires
            old(self).wf(),
        ensures
            final(self).wf(),
            final(self)@ == (StateView {
                registry: old(self)@.registry.insert(alias@, actor),
                ..old(self)@
            }),
    {
        self.identity.register(alias, actor);
    }

    /// The colour that `actor` last switched the light to, if it ever did.
    pub fn user_light(&self, actor: &ActorId) -> (r: Option<LightColor>)
        ensures
            r == (if self@.users.contains_key(*actor) {
                Some(self@.users[*actor])
            } else {
                None
            }),
    {
        self.all_users.get(actor)
    }

    /// The balance after a yellow transition.
    fn reduce(b: u64) -> (r: u64)
        ensures
            r as nat == reduced_balance(b as nat),
    {
        let wide: u128 = (b as u128) * 9 / 10;
        assert(wide <= b) by (nonlinear_arith)
            requires
                wide == (b as int * 9) / 10,
        ;
        wide as u64
    }

    /// Checks the caller against the registry and, if it passes, performs
    /// `t` on its behalf.
    pub fn process_event(&mut self, actor: ActorId, alias: &String, t: Transition) -> (r:
        TrafficLightEvent)
        requires
            old(self).wf(),
            admissible(old(self)@, t),
        ensures
            final(self).wf(),
            (final(self)@, r) == step(old(self)@, actor, alias@, t),
    {
        if let Err(e) = self.identity.check(&actor, alias) {
            return TrafficLightEvent::Error(e);
        }
        let color = t.color();
        self.current_light = Some(color);
        self.all_users.insert(actor, color);
        match t {
            Transition::Green => {
                self.balance = self.balance + GREEN_CREDIT;
            },
            Transition::Yellow => {
                self.balance = Self::reduce(self.balance);
            },
            Transition::Red(index) => {
                if index < self.publications.len() {
                    self.publications.remove(index);
                }
            },
            Transition::Orange(content) => {
                self.publications.push(content);
            },
        }
        TrafficLightEvent::of_color(color)
    }
}

/// A point-in-time copy of what callers may read.
pub struct IoTrafficLightState {
    pub current_light: Option<LightColor>,
    pub all_users: Vec<(ActorId, LightColor)>,
    pub balance: u64,
}

impl IoTrafficLightState {
    /// Copies the light, the callers' colours in the map's own order, and
    /// the balance out of `state`.
    pub fn from_state(state: &TrafficLightState) -> (r: IoTrafficLightState)
        ensures
            r.current_light == state.current_light,
            lists_entries(r.all_users@, users_of(state.all_users)),
            r.balance == state.balance,
    {
        IoTrafficLightState {
            current_light: state.current_light,
            all_users: state.all_users.entries(),
            balance: state.balance,
        }
    }
}

} // verus!
