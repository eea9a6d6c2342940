use crate::identity::check_outcome;
use crate::state::{step, StateView, Transition};
use crate::types::{ActorId, LightColor, TrafficLightEvent};
use vstd::prelude::*;

verus! {

/// Last writer wins: whatever state the other callers left, a request that
/// the registry lets through leaves the light at its own colour and reports
/// that colour.
pub proof fn lemma_light_follows_success(
    s: StateView,
    actor: ActorId,
    alias: Seq<char>,
    t: Transition,
)
    requires
        check_outcome(s.registry, actor, alias) is Ok,
    ensures
        step(s, actor, alias, t).0.current_light == Some(t.spec_color()),
        step(s, actor, alias, t).1 == TrafficLightEvent::spec_of_color(t.spec_color()),
{
}

/// The identity check gates everything: a refused request changes no part
/// of the state, the callers' colours, the balance and the publications
/// included, and reports the refusal.
pub proof fn lemma_refusal_changes_nothing(
    s: StateView,
    actor: ActorId,
    alias: Seq<char>,
    t: Transition,
)
    requires
        check_outcome(s.registry, actor, alias) is Err,
    ensures
        step(s, actor, alias, t).0 == s,
        step(s, actor, alias, t).0.users == s.users,
        step(s, actor, alias, t).0.balance == s.balance,
        step(s, actor, alias, t).0.publications == s.publications,
        step(s, actor, alias, t).1 == TrafficLightEvent::Error(
            check_outcome(s.registry, actor, alias)->Err_0,
        ),
{
}

/// A yellow transition on a zero balance leaves it at zero.
pub proof fn lemma_yellow_keeps_zero(s: StateView, actor: ActorId, alias: Seq<char>)
    requires
        s.balance == 0,
    ensures
        step(s, actor, alias, Transition::Yellow).0.balance == 0,
{
}

/// Two green transitions in a row by the same registered caller add twice
/// the credit, 200, to the balance and leave that caller at green.
pub proof fn lemma_two_greens(s: StateView, actor: ActorId, alias: Seq<char>)
    requires
        check_outcome(s.registry, actor, alias) is Ok,
    ensures
        ({
            let s1 = step(s, actor, alias, Transition::Green).0;
            let s2 = step(s1, actor, alias, Transition::Green).0;
            &&& s2.balance == s.balance + 200
            &&& s2.users.contains_key(actor)
            &&& s2.users[actor] == LightColor::Green
        }),
{
    let s1 = step(s, actor, alias, Transition::Green).0;
    assert(s1.registry == s.registry);
}

/// A red transition whose index is one past the last publication removes
/// nothing.
pub proof fn lemma_red_past_end(s: StateView, actor: ActorId, alias: Seq<char>, index: usize)
    requires
        index == s.publications.len(),
    ensures
        step(s, actor, alias, Transition::Red(index)).0.publications == s.publications,
        step(s, actor, alias, Transition::Red(index)).0.publications.len() == s.publications.len(),
{
}

} // verus!
