//! A traffic-light themed, access-controlled ledger.
//!
//! Callers, identified by an [`ActorId`], switch a shared light between four
//! colours. Every switch is gated by an alias registry and, depending on the
//! colour, moves a shared balance or edits a list of publications.

mod identity;
mod laws;
mod service;
mod state;
mod types;
mod users;

pub use identity::{check_outcome, IdentityGate};
pub use laws::{
    lemma_light_follows_success, lemma_red_past_end, lemma_refusal_changes_nothing,
    lemma_two_greens,
    lemma_yellow_keeps_zero,
};
pub use service::TrafficLightService;
pub use state::{
    admissible, effect, initial_view, reduced_balance, step, without_index, IoTrafficLightState,
    StateView, TrafficLightState, Transition, GREEN_CREDIT,
};
pub use types::{ActorId, IdentityError, LightColor, TrafficLightEvent};
pub use users::{lists_entries, users_of, UserTable};
